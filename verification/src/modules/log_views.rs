//! What the log views show beside the captured lines: the notices that
//! tell the operator why a service does not run, the text that is
//! copied to the clipboard, and the rows of the table of blocks.

use crate::bridge::{
    block_views, lemma_two_events_one_block, recorded, BlockStatus, BlockSummary, BlockView,
    BridgeBlock, Tone,
};
use crate::log_store::{views, LineView, LogLine};
use crate::settings::NodeSettings;
use crate::text::{extend_str, is_blank, string_of, strs, trim};
use vstd::prelude::*;
use vstd::string::StringExecFns;

verus! {

/// How a notice is shown.
#[derive(Clone, Copy, Debug, PartialEq, Eq, Structural)]
pub enum NoticeTone {
    Warning,
    Info,
}

/// A line that a view shows above the captured lines.
#[derive(Clone, Copy, Debug, PartialEq, Eq)]
pub struct Notice {
    pub tone: NoticeTone,
    pub text: &'static str,
}

/// What a notice says.
pub ghost struct NoticeView {
    pub tone: NoticeTone,
    pub text: Seq<char>,
}

impl View for Notice {
    type V = NoticeView;

    open spec fn view(&self) -> NoticeView {
        NoticeView { tone: self.tone, text: self.text@ }
    }
}

pub open spec fn notice_views(v: Seq<Notice>) -> Seq<NoticeView> {
    v.map_values(|n: Notice| n@)
}

pub open spec fn warning(text: Seq<char>) -> NoticeView {
    NoticeView { tone: NoticeTone::Warning, text }
}

pub open spec fn info(text: Seq<char>) -> NoticeView {
    NoticeView { tone: NoticeTone::Info, text }
}

/// The notices with `notice` added where `due` holds.
pub open spec fn with_notice(s: Seq<NoticeView>, due: bool, notice: NoticeView) -> Seq<NoticeView> {
    if due {
        s.push(notice)
    } else {
        s
    }
}

fn push_notice(v: &mut Vec<Notice>, due: bool, tone: NoticeTone, text: &'static str)
    ensures
        notice_views(final(v)@) == with_notice(
            notice_views(old(v)@),
            due,
            NoticeView { tone, text: text@ },
        ),
{
    if due {
        v.push(Notice { tone, text });
        assert(notice_views(v@) =~= notice_views(old(v)@).push(NoticeView { tone, text: text@ }));
    }
}

fn no_notices() -> (v: Vec<Notice>)
    ensures
        notice_views(v@) == Seq::<NoticeView>::empty(),
{
    let v: Vec<Notice> = Vec::new();
    assert(notice_views(v@) =~= Seq::<NoticeView>::empty());
    v
}

/// What is said to the operator after a hint: switch the service on
/// only once the node has caught up.
pub const ENABLE_WHEN_SYNCED: &'static str =
    "Please enable it in Settings only after the node is fully synced.";

/// Whether a node on this machine lacks the gRPC interface that the
/// miner and the transaction generator talk to.
pub open spec fn lacks_grpc(node: NodeSettings) -> bool {
    node.node_kind.local() && !node.enable_grpc
}

// ---------------------------------------------------------------------------
// The miner's log
// ---------------------------------------------------------------------------

/// The view of the miner's log.
#[derive(Clone, Copy, Debug, PartialEq, Eq, Structural)]
pub struct CpuMinerLogs {}

/// The notices of the miner's log, in the order in which they are shown.
pub open spec fn miner_notices(node: NodeSettings) -> Seq<NoticeView> {
    let a = with_notice(
        Seq::empty(),
        !node.cpu_miner_enabled,
        warning("CPU Miner is disabled in Settings."@),
    );
    let b = with_notice(a, !node.cpu_miner_enabled, info(ENABLE_WHEN_SYNCED@));
    let c = with_notice(
        b,
        !node.network.is_testnet(),
        warning("CPU Miner is available only on Testnet 10 and Testnet 12."@),
    );
    let d = with_notice(
        c,
        trim(node.cpu_miner.mining_address@).len() == 0,
        warning("Mining address is not set."@),
    );
    with_notice(d, lacks_grpc(node), warning("Enable gRPC in Node settings to use CPU Miner."@))
}

impl CpuMinerLogs {
    /// The view; it holds nothing of its own.
    pub fn new() -> (v: Self)
        ensures
            v == (CpuMinerLogs {  }),
    {
        CpuMinerLogs {  }
    }

    /// The title of the view.
    pub fn name(&self) -> (r: &'static str)
        ensures
            r@ == "CPU Miner"@,
    {
        "CPU Miner"
    }

    /// What the view tells the operator above the lines.
    pub fn notices(&self, node: &NodeSettings) -> (v: Vec<Notice>)
        ensures
            notice_views(v@) == miner_notices(*node),
    {
        let mut v = no_notices();
        let off = !node.cpu_miner_enabled;
        push_notice(&mut v, off, NoticeTone::Warning, "CPU Miner is disabled in Settings.");
        push_notice(&mut v, off, NoticeTone::Info, ENABLE_WHEN_SYNCED);
        push_notice(
            &mut v,
            !node.network.is_test(),
            NoticeTone::Warning,
            "CPU Miner is available only on Testnet 10 and Testnet 12.",
        );
        push_notice(
            &mut v,
            is_blank(node.cpu_miner.mining_address.as_str()),
            NoticeTone::Warning,
            "Mining address is not set.",
        );
        push_notice(
            &mut v,
            node.node_kind.is_local() && !node.enable_grpc,
            NoticeTone::Warning,
            "Enable gRPC in Node settings to use CPU Miner.",
        );
        v
    }
}

// ---------------------------------------------------------------------------
// The transaction generator's log
// ---------------------------------------------------------------------------

/// The view of the transaction generator's log.
#[derive(Clone, Copy, Debug, PartialEq, Eq, Structural)]
pub struct RothschildLogs {}

/// The notices of the transaction generator's log, in the order in which
/// they are shown.
pub open spec fn rothschild_notices(node: NodeSettings) -> Seq<NoticeView> {
    let a = with_notice(
        Seq::empty(),
        !node.rothschild_enabled,
        warning("Rothschild is disabled in Settings."@),
    );
    let b = with_notice(a, !node.rothschild_enabled, info(ENABLE_WHEN_SYNCED@));
    let c = with_notice(
        b,
        !node.network.is_testnet(),
        warning("Rothschild is available only on Testnet 10 and Testnet 12."@),
    );
    with_notice(c, lacks_grpc(node), warning("Enable gRPC in Node settings to use Rothschild."@))
}

impl RothschildLogs {
    /// The view; it holds nothing of its own.
    pub fn new() -> (v: Self)
        ensures
            v == (RothschildLogs {  }),
    {
        RothschildLogs {  }
    }

    /// The title of the view.
    pub fn name(&self) -> (r: &'static str)
        ensures
            r@ == "Rothschild"@,
    {
        "Rothschild"
    }

    /// What the view tells the operator above the lines.
    pub fn notices(&self, node: &NodeSettings) -> (v: Vec<Notice>)
        ensures
            notice_views(v@) == rothschild_notices(*node),
    {
        let mut v = no_notices();
        let off = !node.rothschild_enabled;
        push_notice(&mut v, off, NoticeTone::Warning, "Rothschild is disabled in Settings.");
        push_notice(&mut v, off, NoticeTone::Info, ENABLE_WHEN_SYNCED);
        push_notice(
            &mut v,
            !node.network.is_test(),
            NoticeTone::Warning,
            "Rothschild is available only on Testnet 10 and Testnet 12.",
        );
        push_notice(
            &mut v,
            node.node_kind.is_local() && !node.enable_grpc,
            NoticeTone::Warning,
            "Enable gRPC in Node settings to use Rothschild.",
        );
        v
    }
}

// ---------------------------------------------------------------------------
// The bridge's log
// ---------------------------------------------------------------------------

/// What both views of the bridge say where the bridge is switched off.
pub const BRIDGE_DISABLED: &'static str = "RK Bridge is disabled in Settings.";

/// The notices of the views of the bridge.
pub open spec fn bridge_notices(node: NodeSettings) -> Seq<NoticeView> {
    with_notice(Seq::empty(), !node.stratum_bridge_enabled, warning(BRIDGE_DISABLED@))
}

fn bridge_notice_list(node: &NodeSettings) -> (v: Vec<Notice>)
    ensures
        notice_views(v@) == bridge_notices(*node),
{
    let mut v = no_notices();
    push_notice(&mut v, !node.stratum_bridge_enabled, NoticeTone::Warning, BRIDGE_DISABLED);
    v
}

/// The view of the bridge's log.
#[derive(Clone, Copy, Debug, PartialEq, Eq, Structural)]
pub struct RkBridgeLogs {}

impl RkBridgeLogs {
    /// The view; it holds nothing of its own.
    pub fn new() -> (v: Self)
        ensures
            v == (RkBridgeLogs {  }),
    {
        RkBridgeLogs {  }
    }

    /// The title of the view.
    pub fn name(&self) -> (r: &'static str)
        ensures
            r@ == "RK Bridge"@,
    {
        "RK Bridge"
    }

    /// What the view tells the operator above the lines.
    pub fn notices(&self, node: &NodeSettings) -> (v: Vec<Notice>)
        ensures
            notice_views(v@) == bridge_notices(*node),
    {
        bridge_notice_list(node)
    }
}

// ---------------------------------------------------------------------------
// The lines
// ---------------------------------------------------------------------------

/// The messages of the lines, in order.
pub open spec fn messages(lines: Seq<LineView>) -> Seq<Seq<char>> {
    lines.map_values(|l: LineView| l.message)
}

/// The lines that a log view shows for the lines that a store holds:
/// the message of every line, once and in the order of the store. The
/// view adds no line, drops none and changes none.
pub fn shown_lines(lines: &Vec<LogLine>) -> (out: Vec<String>)
    ensures
        strs(out@) == messages(views(lines@)),
        out@.len() == lines@.len(),
{
    let mut out: Vec<String> = Vec::new();
    let mut i: usize = 0;
    while i < lines.len()
        invariant
            i <= lines.len(),
            out@.len() == i,
            forall|k: int| 0 <= k < i ==> (#[trigger] out@[k])@ == lines@[k].message@,
        decreases lines.len() - i,
    {
        out.push(lines[i].message.clone());
        i = i + 1;
    }
    assert(strs(out@) =~= messages(views(lines@)));
    out
}

/// What is shown is one message for each line, in the order of the
/// lines: it depends on the lines alone, so that looking again shows the
/// same.
pub proof fn lemma_shown_lines_are_stable(lines: Seq<LineView>)
    ensures
        messages(lines).len() == lines.len(),
        forall|k: int| 0 <= k < lines.len() ==> (#[trigger] messages(lines)[k]) == lines[k].message,
{
}

// ---------------------------------------------------------------------------
// The clipboard
// ---------------------------------------------------------------------------

/// The lines as one text, a line feed between every two of them.
pub open spec fn clipboard(lines: Seq<Seq<char>>) -> Seq<char>
    decreases lines.len(),
{
    if lines.len() == 0 {
        Seq::empty()
    } else if lines.len() == 1 {
        lines[0]
    } else {
        clipboard(lines.drop_last()) + seq!['\n'] + lines.last()
    }
}

/// The text that is copied to the clipboard for the given lines.
pub fn clipboard_text(lines: &Vec<String>) -> (r: String)
    ensures
        r@ == clipboard(strs(lines@)),
{
    let mut out: Vec<char> = Vec::new();
    let mut i: usize = 0;
    let ghost all = strs(lines@);
    assert(all.take(0) =~= Seq::<Seq<char>>::empty());
    while i < lines.len()
        invariant
            i <= lines.len(),
            all == strs(lines@),
            out@ == clipboard(all.take(i as int)),
        decreases lines.len() - i,
    {
        proof {
            let next = all.take(i + 1);
            assert(next.drop_last() =~= all.take(i as int));
            assert(next.last() == lines@[i as int]@);
            if i == 0 {
                assert(next[0] == lines@[0]@);
                assert(Seq::<char>::empty() + lines@[0]@ =~= lines@[0]@);
            }
        }
        if i > 0 {
            out.push('\n');
            assert(out@ =~= clipboard(all.take(i as int)) + seq!['\n']);
        }
        extend_str(&mut out, lines[i].as_str());
        i = i + 1;
    }
    assert(all.take(lines.len() as int) =~= all);
    string_of(&out)
}

/// The length of the copied text: the lengths of the lines and one line
/// feed between every two of them.
pub proof fn lemma_clipboard_len(lines: Seq<Seq<char>>)
    ensures
        lines.len() == 0 ==> clipboard(lines).len() == 0,
        lines.len() > 0 ==> clipboard(lines).len() == total_len(lines) + lines.len() - 1,
    decreases lines.len(),
{
    if lines.len() > 1 {
        lemma_clipboard_len(lines.drop_last());
    } else if lines.len() == 1 {
        assert(lines.drop_last().len() == 0);
        assert(total_len(lines.drop_last()) == 0);
    }
}

/// The sum of the lengths of the lines.
pub open spec fn total_len(lines: Seq<Seq<char>>) -> nat
    decreases lines.len(),
{
    if lines.len() == 0 {
        0
    } else {
        total_len(lines.drop_last()) + lines.last().len()
    }
}

// ---------------------------------------------------------------------------
// The table of blocks
// ---------------------------------------------------------------------------

/// What the view says before the table.
pub const BLOCKS_INTRO: &'static str =
    "This view lists blocks found by the RK Stratum Bridge (external mode). When a connected miner finds a block candidate, the bridge submits it to the local Rusty Kaspa node and updates the status as Accepted or Rejected.";

/// What the view says while the list of blocks is empty.
pub const NO_BLOCKS: &'static str = "No blocks are mined yet.";

/// What the view adds while the list of blocks is empty.
pub const NO_BLOCKS_HINT: &'static str =
    "When a miner connected to RK Stratum finds a valid block, it will appear here with its hash and status.";

/// What stands in a cell whose value is not known.
pub const UNKNOWN_CELL: &'static str = "-";

/// A row of the table of blocks.
#[derive(Clone, Debug, PartialEq, Eq)]
pub struct BlockRow {
    pub time: String,
    pub status: &'static str,
    pub tone: Tone,
    pub hash: String,
    pub worker: String,
    pub wallet: String,
}

/// What a row says.
pub ghost struct BlockRowView {
    pub time: Seq<char>,
    pub status: Seq<char>,
    pub tone: Tone,
    pub hash: Seq<char>,
    pub worker: Seq<char>,
    pub wallet: Seq<char>,
}

impl View for BlockRow {
    type V = BlockRowView;

    open spec fn view(&self) -> BlockRowView {
        BlockRowView {
            time: self.time@,
            status: self.status@,
            tone: self.tone,
            hash: self.hash@,
            worker: self.worker@,
            wallet: self.wallet@,
        }
    }
}

pub open spec fn block_row_views(rows: Seq<BlockRow>) -> Seq<BlockRowView> {
    rows.map_values(|r: BlockRow| r@)
}

/// The text of a cell.
pub open spec fn cell(value: Option<Seq<char>>) -> Seq<char> {
    match value {
        Some(v) => v,
        None => UNKNOWN_CELL@,
    }
}

/// The row of a block.
pub open spec fn row_of(b: BlockView) -> BlockRowView {
    BlockRowView {
        time: cell(b.timestamp),
        status: b.status.name(),
        tone: b.status.tone(),
        hash: b.hash,
        worker: cell(b.worker),
        wallet: cell(b.wallet),
    }
}

/// The rows of the table: one for each block, the newest block first.
pub open spec fn rows_of(blocks: Seq<BlockView>) -> Seq<BlockRowView> {
    Seq::new(blocks.len(), |i: int| row_of(blocks[blocks.len() - 1 - i]))
}

fn cell_text(value: &Option<String>) -> (r: String)
    ensures
        r@ == cell(
            match value {
                Some(v) => Some(v@),
                None => None,
            },
        ),
{
    match value {
        Some(v) => v.clone(),
        None => String::from_str(UNKNOWN_CELL),
    }
}

fn block_row(b: &BridgeBlock) -> (r: BlockRow)
    ensures
        r@ == row_of(b@),
{
    BlockRow {
        time: cell_text(&b.timestamp),
        status: b.status.as_str(),
        tone: b.status.status_tone(),
        hash: b.hash.clone(),
        worker: cell_text(&b.worker),
        wallet: cell_text(&b.wallet),
    }
}

/// The view of the blocks that the bridge has found.
#[derive(Clone, Copy, Debug, PartialEq, Eq, Structural)]
pub struct RkBlocks {}

impl RkBlocks {
    /// The view; it holds nothing of its own.
    pub fn new() -> (v: Self)
        ensures
            v == (RkBlocks {  }),
    {
        RkBlocks {  }
    }

    /// The title of the view.
    pub fn name(&self) -> (r: &'static str)
        ensures
            r@ == "Blocks"@,
    {
        "Blocks"
    }

    /// What the view tells the operator above the table.
    pub fn notices(&self, node: &NodeSettings) -> (v: Vec<Notice>)
        ensures
            notice_views(v@) == bridge_notices(*node),
    {
        bridge_notice_list(node)
    }

    /// How a status is shown: an accepted block in the colour of what
    /// went well, a rejected one in the colour of errors, any other in
    /// the colour of warnings.
    pub fn status_color(&self, status: BlockStatus) -> (t: Tone)
        ensures
            t == status.tone(),
    {
        status.status_tone()
    }

    /// The rows of the table, the newest block first.
    pub fn rows(&self, blocks: &Vec<BridgeBlock>) -> (rows: Vec<BlockRow>)
        ensures
            block_row_views(rows@) == rows_of(block_views(blocks@)),
    {
        let mut rows: Vec<BlockRow> = Vec::new();
        let n: usize = blocks.len();
        let mut i: usize = 0;
        while i < n
            invariant
                i <= n,
                n == blocks.len(),
                rows.len() == i,
                forall|k: int|
                    0 <= k < i ==> (#[trigger] rows@[k])@ == row_of(blocks@[n - 1 - k]@),
            decreases n - i,
        {
            rows.push(block_row(&blocks[n - 1 - i]));
            i = i + 1;
        }
        assert(block_row_views(rows@) =~= rows_of(block_views(blocks@)));
        rows
    }

    /// Whether the summary names the blocks that are neither accepted
    /// nor rejected: only where there are any.
    pub fn shows_found(&self, summary: &BlockSummary) -> (b: bool)
        ensures
            b == (summary.found > 0),
    {
        summary.found > 0
    }
}

/// The table shows a block that was found and then accepted or rejected
/// in one row, under the status of the later event.
pub proof fn lemma_one_row_for_two_events(first: BlockView, second: BlockView)
    requires
        first.hash == second.hash,
    ensures
        ({
            let rows = rows_of(recorded(recorded(Seq::empty(), first), second));
            &&& rows.len() == 1
            &&& rows[0].hash == first.hash
            &&& rows[0].status == second.status.name()
            &&& rows[0].tone == second.status.tone()
        }),
{
    lemma_two_events_one_block(first, second);
}

} // verus!

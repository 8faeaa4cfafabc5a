//! What the stratum bridge says about blocks.
//!
//! The bridge reports blocks in free text. A line is read for the block's
//! hash, its status, the time and who found it; the blocks are kept in a
//! list in which every hash occurs once, the latest report winning.

use crate::text::{
    chars_of, chars_eq, contains, contains_str, cut_at, cut_at_chars, find, find_chars,
    find_char_chars, first_word, first_word_chars, is_digit, is_digit_char, push_text, slice_of,
    string_of, strip, strip_chars, texts, trim, trim_chars, trim_start, trim_start_chars, CharClass,
};
use vstd::prelude::*;

verus! {

/// Most blocks kept before the oldest are dropped.
pub const BLOCK_BUFFER_LINES: usize = 256;

/// Number of blocks dropped at once.
pub const BLOCK_BUFFER_MARGIN: usize = 32;

/// Most log lines kept before the oldest are dropped.
pub const LOG_BUFFER_LINES: usize = 4096;

/// Number of log lines dropped at once.
pub const LOG_BUFFER_MARGIN: usize = 128;

// ---------------------------------------------------------------------------
// Reading a line
// ---------------------------------------------------------------------------

/// Whether the line is part of a table that the bridge prints.
pub open spec fn is_table_line(line: Seq<char>) -> bool {
    let t = trim_start(line);
    t.len() > 0 && (t[0] == '+' || t[0] == '|')
}

pub fn is_bridge_table_line(line: &str) -> (b: bool)
    ensures
        b == is_table_line(line@),
{
    let v = chars_of(line);
    let t = trim_start_chars(&v);
    t.len() > 0 && (t[0] == '+' || t[0] == '|')
}

/// The colour in which a status is shown.
#[derive(Clone, Copy, Debug, PartialEq, Eq, Structural)]
pub enum Tone {
    /// The colour of what went well.
    Good,
    /// The colour of errors.
    Bad,
    /// The colour of warnings: nothing is decided yet.
    Pending,
}

/// What became of a block.
#[derive(Clone, Copy, Debug, PartialEq, Eq, Structural)]
pub enum BlockStatus {
    Found,
    Accepted,
    Rejected,
    RejectedStale,
    RejectedInvalid,
}

impl BlockStatus {
    pub open spec fn name(self) -> Seq<char> {
        match self {
            BlockStatus::Found => "Found"@,
            BlockStatus::Accepted => "Accepted"@,
            BlockStatus::Rejected => "Rejected"@,
            BlockStatus::RejectedStale => "Rejected (Stale)"@,
            BlockStatus::RejectedInvalid => "Rejected (Invalid)"@,
        }
    }

    pub fn as_str(&self) -> (r: &'static str)
        ensures
            r@ == self.name(),
    {
        match self {
            BlockStatus::Found => "Found",
            BlockStatus::Accepted => "Accepted",
            BlockStatus::Rejected => "Rejected",
            BlockStatus::RejectedStale => "Rejected (Stale)",
            BlockStatus::RejectedInvalid => "Rejected (Invalid)",
        }
    }

    /// How a status is shown: the name of an accepted block begins with
    /// `Accepted`, that of a rejected one with `Rejected`.
    pub open spec fn tone(self) -> Tone {
        match self {
            BlockStatus::Accepted => Tone::Good,
            BlockStatus::Rejected | BlockStatus::RejectedStale | BlockStatus::RejectedInvalid =>
                Tone::Bad,
            BlockStatus::Found => Tone::Pending,
        }
    }

    pub fn status_tone(&self) -> (t: Tone)
        ensures
            t == self.tone(),
    {
        match self {
            BlockStatus::Accepted => Tone::Good,
            BlockStatus::Rejected => Tone::Bad,
            BlockStatus::RejectedStale => Tone::Bad,
            BlockStatus::RejectedInvalid => Tone::Bad,
            BlockStatus::Found => Tone::Pending,
        }
    }

    pub fn is_accepted(&self) -> (b: bool)
        ensures
            b == (*self == BlockStatus::Accepted),
    {
        match self {
            BlockStatus::Accepted => true,
            _ => false,
        }
    }

    pub open spec fn rejected(self) -> bool {
        self == BlockStatus::Rejected || self == BlockStatus::RejectedStale || self
            == BlockStatus::RejectedInvalid
    }

    pub fn is_rejected(&self) -> (b: bool)
        ensures
            b == self.rejected(),
    {
        match self {
            BlockStatus::Rejected => true,
            BlockStatus::RejectedStale => true,
            BlockStatus::RejectedInvalid => true,
            _ => false,
        }
    }
}

/// The status that a line reports, if it reports one.
pub open spec fn status_of(line: Seq<char>) -> Option<BlockStatus> {
    if contains(line, "BLOCK FOUND!"@) {
        Some(BlockStatus::Found)
    } else if contains(line, "BLOCK ACCEPTED BY KASPA NODE"@) {
        Some(BlockStatus::Accepted)
    } else if contains(line, "BLOCK REJECTED BY KASPA NODE"@) {
        if contains(line, "STALE"@) {
            Some(BlockStatus::RejectedStale)
        } else if contains(line, "INVALID"@) {
            Some(BlockStatus::RejectedInvalid)
        } else {
            Some(BlockStatus::Rejected)
        }
    } else {
        None
    }
}

/// The block hash that a line names: the word after `Hash:`, freed of
/// the punctuation around it.
pub open spec fn hash_of(line: Seq<char>) -> Option<Seq<char>> {
    match find(line, "Hash:"@) {
        None => None,
        Some(i) => {
            let token = match first_word(line.skip(i + 5)) {
                Some(w) => w,
                None => Seq::empty(),
            };
            let hash = strip(token, CharClass::Delimiter);
            if hash.len() == 0 {
                None
            } else {
                Some(hash)
            }
        },
    }
}

/// Whether a character can stand in a time stamp.
pub open spec fn is_stamp_char(c: char) -> bool {
    is_digit(c) || c == ':' || c == '.' || c == '-' || c == 'T' || c == 'Z'
}

/// The time stamp that a line begins with: its first word, where that
/// holds a colon and nothing but digits and the marks of a time.
pub open spec fn timestamp_of(line: Seq<char>) -> Option<Seq<char>> {
    match first_word(line) {
        None => None,
        Some(w) => if contains(w, seq![':']) && (forall|k: int|
            0 <= k < w.len() ==> is_stamp_char(#[trigger] w[k])) {
            Some(w)
        } else {
            None
        },
    }
}

/// The value that follows `label` in a line: what stands between the
/// label and the first of `marks`, freed of white space and punctuation.
pub open spec fn field_of(line: Seq<char>, label: Seq<char>, marks: Seq<Seq<char>>) -> Option<
    Seq<char>,
> {
    match find(line, label) {
        None => None,
        Some(i) => {
            let rest = trim_start(line.skip(i + label.len()));
            let value = trim(rest.take(cut_at(rest, marks)));
            let cleaned = strip(value, CharClass::Delimiter);
            if cleaned.len() == 0 {
                None
            } else {
                Some(cleaned)
            }
        },
    }
}

/// The value that follows the first of `labels`, from `from` on, that
/// has one.
pub open spec fn field_any(
    line: Seq<char>,
    labels: Seq<Seq<char>>,
    marks: Seq<Seq<char>>,
    from: int,
) -> Option<Seq<char>>
    decreases labels.len() - from,
{
    if from < 0 || from >= labels.len() {
        None
    } else {
        match field_of(line, labels[from], marks) {
            Some(v) => Some(v),
            None => field_any(line, labels, marks, from + 1),
        }
    }
}

pub open spec fn worker_labels() -> Seq<Seq<char>> {
    seq!["Worker:"@, "worker:"@, "Worker="@, "worker="@]
}

pub open spec fn wallet_labels() -> Seq<Seq<char>> {
    seq!["Wallet:"@, "wallet:"@, "Wallet="@, "wallet="@]
}

pub open spec fn wallet_marks() -> Seq<Seq<char>> {
    seq![","@, " Nonce"@, " nonce"@, " Pow"@, " pow"@, " Hash"@, " hash"@]
}

pub open spec fn worker_marks() -> Seq<Seq<char>> {
    seq![" Wallet"@, " wallet"@] + wallet_marks()
}

/// The worker that a line names.
pub open spec fn worker_of(line: Seq<char>) -> Option<Seq<char>> {
    field_any(line, worker_labels(), worker_marks(), 0)
}

/// The wallet that a line names.
pub open spec fn wallet_of(line: Seq<char>) -> Option<Seq<char>> {
    field_any(line, wallet_labels(), wallet_marks(), 0)
}

fn block_status(v: &Vec<char>) -> (r: Option<BlockStatus>)
    ensures
        r == status_of(v@),
{
    if contains_str(v, "BLOCK FOUND!") {
        Some(BlockStatus::Found)
    } else if contains_str(v, "BLOCK ACCEPTED BY KASPA NODE") {
        Some(BlockStatus::Accepted)
    } else if contains_str(v, "BLOCK REJECTED BY KASPA NODE") {
        if contains_str(v, "STALE") {
            Some(BlockStatus::RejectedStale)
        } else if contains_str(v, "INVALID") {
            Some(BlockStatus::RejectedInvalid)
        } else {
            Some(BlockStatus::Rejected)
        }
    } else {
        None
    }
}

fn block_hash(v: &Vec<char>) -> (r: Option<Vec<char>>)
    ensures
        match r {
            Some(h) => hash_of(v@) == Some(h@),
            None => hash_of(v@) is None,
        },
{
    let label = chars_of("Hash:");
    proof {
        reveal_strlit("Hash:");
    }
    match find_chars(v, &label) {
        None => None,
        Some(i) => {
            let rest = slice_of(v, i + 5, v.len());
            assert(rest@ == v@.skip(i + 5));
            let token = match first_word_chars(&rest) {
                Some(w) => w,
                None => Vec::new(),
            };
            let hash = strip_chars(&token, CharClass::Delimiter);
            if hash.len() == 0 {
                None
            } else {
                Some(hash)
            }
        },
    }
}

fn is_stamp(c: char) -> (b: bool)
    ensures
        b == is_stamp_char(c),
{
    is_digit_char(c) || c == ':' || c == '.' || c == '-' || c == 'T' || c == 'Z'
}

fn line_timestamp(v: &Vec<char>) -> (r: Option<Vec<char>>)
    ensures
        match r {
            Some(t) => timestamp_of(v@) == Some(t@),
            None => timestamp_of(v@) is None,
        },
{
    match first_word_chars(v) {
        None => None,
        Some(w) => {
            let colon = find_char_chars(&w, ':');
            if colon.is_none() {
                return None;
            }
            let mut k: usize = 0;
            while k < w.len()
                invariant
                    k <= w.len(),
                    first_word(v@) == Some(w@),
                    contains(w@, seq![':']),
                    forall|j: int| 0 <= j < k ==> is_stamp_char(#[trigger] w@[j]),
                decreases w.len() - k,
            {
                if !is_stamp(w[k]) {
                    return None;
                }
                k = k + 1;
            }
            Some(w)
        },
    }
}

fn field_value(v: &Vec<char>, label: &Vec<char>, marks: &Vec<Vec<char>>) -> (r: Option<Vec<char>>)
    ensures
        match r {
            Some(x) => field_of(v@, label@, texts(marks@)) == Some(x@),
            None => field_of(v@, label@, texts(marks@)) is None,
        },
{
    match find_chars(v, label) {
        None => None,
        Some(i) => {
            let after = slice_of(v, i + label.len(), v.len());
            assert(after@ == v@.skip(i + label.len()));
            let rest = trim_start_chars(&after);
            let end = cut_at_chars(&rest, marks);
            let head = slice_of(&rest, 0, end);
            assert(head@ == rest@.take(end as int));
            let value = trim_chars(&head);
            let cleaned = strip_chars(&value, CharClass::Delimiter);
            if cleaned.len() == 0 {
                None
            } else {
                Some(cleaned)
            }
        },
    }
}

fn field_value_any(v: &Vec<char>, labels: &Vec<Vec<char>>, marks: &Vec<Vec<char>>) -> (r: Option<
    Vec<char>,
>)
    ensures
        match r {
            Some(x) => field_any(v@, texts(labels@), texts(marks@), 0) == Some(x@),
            None => field_any(v@, texts(labels@), texts(marks@), 0) is None,
        },
{
    let mut i: usize = 0;
    while i < labels.len()
        invariant
            i <= labels.len(),
            field_any(v@, texts(labels@), texts(marks@), 0) == field_any(
                v@,
                texts(labels@),
                texts(marks@),
                i as int,
            ),
        decreases labels.len() - i,
    {
        assert(texts(labels@)[i as int] == labels@[i as int]@);
        let found = field_value(v, &labels[i], marks);
        if found.is_some() {
            return found;
        }
        i = i + 1;
    }
    None
}

fn wallet_mark_list() -> (m: Vec<Vec<char>>)
    ensures
        texts(m@) == wallet_marks(),
{
    let mut m: Vec<Vec<char>> = Vec::new();
    assert(texts(m@) =~= Seq::<Seq<char>>::empty());
    push_text(&mut m, ",");
    push_text(&mut m, " Nonce");
    push_text(&mut m, " nonce");
    push_text(&mut m, " Pow");
    push_text(&mut m, " pow");
    push_text(&mut m, " Hash");
    push_text(&mut m, " hash");
    assert(texts(m@) =~= wallet_marks());
    m
}

fn worker_mark_list() -> (m: Vec<Vec<char>>)
    ensures
        texts(m@) == worker_marks(),
{
    let mut m: Vec<Vec<char>> = Vec::new();
    assert(texts(m@) =~= Seq::<Seq<char>>::empty());
    push_text(&mut m, " Wallet");
    push_text(&mut m, " wallet");
    push_text(&mut m, ",");
    push_text(&mut m, " Nonce");
    push_text(&mut m, " nonce");
    push_text(&mut m, " Pow");
    push_text(&mut m, " pow");
    push_text(&mut m, " Hash");
    push_text(&mut m, " hash");
    assert(texts(m@) =~= worker_marks());
    m
}

fn line_worker(v: &Vec<char>) -> (r: Option<Vec<char>>)
    ensures
        match r {
            Some(x) => worker_of(v@) == Some(x@),
            None => worker_of(v@) is None,
        },
{
    let mut labels: Vec<Vec<char>> = Vec::new();
    assert(texts(labels@) =~= Seq::<Seq<char>>::empty());
    push_text(&mut labels, "Worker:");
    push_text(&mut labels, "worker:");
    push_text(&mut labels, "Worker=");
    push_text(&mut labels, "worker=");
    assert(texts(labels@) =~= worker_labels());
    let marks = worker_mark_list();
    field_value_any(v, &labels, &marks)
}

fn line_wallet(v: &Vec<char>) -> (r: Option<Vec<char>>)
    ensures
        match r {
            Some(x) => wallet_of(v@) == Some(x@),
            None => wallet_of(v@) is None,
        },
{
    let mut labels: Vec<Vec<char>> = Vec::new();
    assert(texts(labels@) =~= Seq::<Seq<char>>::empty());
    push_text(&mut labels, "Wallet:");
    push_text(&mut labels, "wallet:");
    push_text(&mut labels, "Wallet=");
    push_text(&mut labels, "wallet=");
    assert(texts(labels@) =~= wallet_labels());
    let marks = wallet_mark_list();
    field_value_any(v, &labels, &marks)
}

fn owned(o: Option<Vec<char>>) -> (r: Option<String>)
    ensures
        match o {
            Some(x) => r is Some && r.unwrap()@ == x@,
            None => r is None,
        },
{
    match o {
        Some(x) => Some(string_of(&x)),
        None => None,
    }
}

// ---------------------------------------------------------------------------
// Blocks
// ---------------------------------------------------------------------------

/// What is known of a block.
#[derive(Clone, Debug, PartialEq, Eq)]
pub struct BridgeBlock {
    pub timestamp: Option<String>,
    pub hash: String,
    pub status: BlockStatus,
    pub worker: Option<String>,
    pub wallet: Option<String>,
    pub line: String,
}

/// What a line adds to what is known of a block.
#[derive(Clone, Debug, PartialEq, Eq)]
pub struct BlockDetails {
    pub hash: Option<String>,
    pub worker: Option<String>,
    pub wallet: Option<String>,
}

pub ghost struct BlockView {
    pub timestamp: Option<Seq<char>>,
    pub hash: Seq<char>,
    pub status: BlockStatus,
    pub worker: Option<Seq<char>>,
    pub wallet: Option<Seq<char>>,
    pub line: Seq<char>,
}

pub ghost struct DetailsView {
    pub hash: Option<Seq<char>>,
    pub worker: Option<Seq<char>>,
    pub wallet: Option<Seq<char>>,
}

/// What an optional string says.
pub open spec fn opt_text(o: Option<String>) -> Option<Seq<char>> {
    match o {
        Some(s) => Some(s@),
        None => None,
    }
}

impl View for BridgeBlock {
    type V = BlockView;

    open spec fn view(&self) -> BlockView {
        BlockView {
            timestamp: opt_text(self.timestamp),
            hash: self.hash@,
            status: self.status,
            worker: opt_text(self.worker),
            wallet: opt_text(self.wallet),
            line: self.line@,
        }
    }
}

impl View for BlockDetails {
    type V = DetailsView;

    open spec fn view(&self) -> DetailsView {
        DetailsView {
            hash: opt_text(self.hash),
            worker: opt_text(self.worker),
            wallet: opt_text(self.wallet),
        }
    }
}

/// What a line adds to what is known of a block, if anything.
pub open spec fn details_of(line: Seq<char>) -> Option<DetailsView> {
    let d = DetailsView { hash: hash_of(line), worker: worker_of(line), wallet: wallet_of(line) };
    if d.hash is None && d.worker is None && d.wallet is None {
        None
    } else {
        Some(d)
    }
}

/// The block event that a line reports: a status together with a hash.
pub open spec fn event_of(line: Seq<char>) -> Option<BlockView> {
    match (status_of(line), hash_of(line)) {
        (Some(status), Some(hash)) => Some(
            BlockView {
                timestamp: timestamp_of(line),
                hash,
                status,
                worker: worker_of(line),
                wallet: wallet_of(line),
                line,
            },
        ),
        _ => None,
    }
}

/// Reads a line for what it adds to what is known of a block.
pub fn parse_block_details(line: &str) -> (r: Option<BlockDetails>)
    ensures
        match r {
            Some(d) => details_of(line@) == Some(d@),
            None => details_of(line@) is None,
        },
{
    let v = chars_of(line);
    let hash = owned(block_hash(&v));
    let worker = owned(line_worker(&v));
    let wallet = owned(line_wallet(&v));
    if hash.is_none() && worker.is_none() && wallet.is_none() {
        None
    } else {
        Some(BlockDetails { hash, worker, wallet })
    }
}

/// Reads a line for a block event.
pub fn parse_block_event(line: &str) -> (r: Option<BridgeBlock>)
    ensures
        match r {
            Some(b) => event_of(line@) == Some(b@),
            None => event_of(line@) is None,
        },
{
    let v = chars_of(line);
    let status = match block_status(&v) {
        Some(s) => s,
        None => {
            return None;
        },
    };
    let hash = match block_hash(&v) {
        Some(h) => string_of(&h),
        None => {
            return None;
        },
    };
    let timestamp = owned(line_timestamp(&v));
    let worker = owned(line_worker(&v));
    let wallet = owned(line_wallet(&v));
    Some(BridgeBlock { timestamp, hash, status, worker, wallet, line: string_of(&v) })
}

// ---------------------------------------------------------------------------
// The list of blocks
// ---------------------------------------------------------------------------

/// What a list of blocks says.
pub open spec fn block_views(blocks: Seq<BridgeBlock>) -> Seq<BlockView> {
    blocks.map_values(|b: BridgeBlock| b@)
}

/// The position of the newest block in `blocks` that has the given hash.
pub open spec fn last_with_hash(blocks: Seq<BlockView>, hash: Seq<char>) -> Option<int>
    decreases blocks.len(),
{
    if blocks.len() == 0 {
        None
    } else if blocks.last().hash == hash {
        Some(blocks.len() - 1)
    } else {
        last_with_hash(blocks.drop_last(), hash)
    }
}

/// The list after the oldest entries made room: a list that has grown
/// beyond `max` entries loses its first `margin`.
pub open spec fn trimmed_list<T>(list: Seq<T>, max: nat, margin: nat) -> Seq<T> {
    if list.len() > max {
        list.skip(margin as int)
    } else {
        list
    }
}

/// Where one of two optional values is given, the newer one counts.
pub open spec fn newer(old: Option<Seq<char>>, new: Option<Seq<char>>) -> Option<Seq<char>> {
    if new is Some {
        new
    } else {
        old
    }
}

/// What is known of a block after a further event for it: the status
/// and the line are those of the event; time, worker and wallet are kept
/// unless the event gives them anew.
pub open spec fn merged(known: BlockView, event: BlockView) -> BlockView {
    BlockView {
        timestamp: newer(known.timestamp, event.timestamp),
        hash: known.hash,
        status: event.status,
        worker: newer(known.worker, event.worker),
        wallet: newer(known.wallet, event.wallet),
        line: event.line,
    }
}

/// The list of blocks after an event: the block with the event's hash is
/// brought up to date where the list holds one, and the event is added as
/// a new block otherwise.
pub open spec fn recorded(blocks: Seq<BlockView>, event: BlockView) -> Seq<BlockView> {
    let kept = trimmed_list(blocks, BLOCK_BUFFER_LINES as nat, BLOCK_BUFFER_MARGIN as nat);
    match last_with_hash(kept, event.hash) {
        Some(i) => kept.update(i, merged(kept[i], event)),
        None => kept.push(event),
    }
}

/// The hash that details belong to: their own, or else the hash of the
/// block that was last reported.
pub open spec fn details_hash(last: Option<Seq<char>>, details: DetailsView) -> Option<Seq<char>> {
    if details.hash is Some {
        details.hash
    } else {
        last
    }
}

/// The list of blocks after details arrived: they are added to the block
/// they belong to, or make a new block that counts as found.
pub open spec fn detailed(blocks: Seq<BlockView>, last: Option<Seq<char>>, details: DetailsView) -> Seq<
    BlockView,
> {
    match details_hash(last, details) {
        None => blocks,
        Some(hash) => match last_with_hash(blocks, hash) {
            Some(i) => blocks.update(
                i,
                BlockView {
                    worker: newer(blocks[i].worker, details.worker),
                    wallet: newer(blocks[i].wallet, details.wallet),
                    ..blocks[i]
                },
            ),
            None => blocks.push(
                BlockView {
                    timestamp: None,
                    hash,
                    status: BlockStatus::Found,
                    worker: details.worker,
                    wallet: details.wallet,
                    line: Seq::empty(),
                },
            ),
        },
    }
}

pub proof fn lemma_last_with_hash(blocks: Seq<BlockView>, hash: Seq<char>)
    ensures
        match last_with_hash(blocks, hash) {
            Some(i) => 0 <= i < blocks.len() && blocks[i].hash == hash && forall|j: int|
                i < j < blocks.len() ==> (#[trigger] blocks[j]).hash != hash,
            None => forall|j: int| 0 <= j < blocks.len() ==> (#[trigger] blocks[j]).hash != hash,
        },
    decreases blocks.len(),
{
    if blocks.len() > 0 && blocks.last().hash != hash {
        let head = blocks.drop_last();
        lemma_last_with_hash(head, hash);
        match last_with_hash(head, hash) {
            Some(i) => {
                assert forall|j: int| i < j < blocks.len() implies (#[trigger] blocks[j]).hash
                    != hash by {
                    if j < head.len() {
                        assert(head[j] == blocks[j]);
                    }
                }
            },
            None => {
                assert forall|j: int| 0 <= j < blocks.len() implies (#[trigger] blocks[j]).hash
                    != hash by {
                    if j < head.len() {
                        assert(head[j] == blocks[j]);
                    }
                }
            },
        }
    }
}

/// A position that holds the hash, with none after it, is the last one.
pub proof fn lemma_last_with_hash_is(blocks: Seq<BlockView>, hash: Seq<char>, i: int)
    requires
        0 <= i < blocks.len(),
        blocks[i].hash == hash,
        forall|j: int| i < j < blocks.len() ==> (#[trigger] blocks[j]).hash != hash,
    ensures
        last_with_hash(blocks, hash) == Some(i),
    decreases blocks.len(),
{
    if i < blocks.len() - 1 {
        let head = blocks.drop_last();
        assert(blocks.last() == blocks[blocks.len() - 1]);
        assert forall|j: int| i < j < head.len() implies (#[trigger] head[j]).hash != hash by {
            assert(head[j] == blocks[j]);
        }
        lemma_last_with_hash_is(head, hash, i);
    }
}

/// Whether no two blocks of the list have the same hash.
pub open spec fn distinct_hashes(blocks: Seq<BlockView>) -> bool {
    forall|i: int, j: int|
        0 <= i < j < blocks.len() ==> (#[trigger] blocks[i]).hash != (#[trigger] blocks[j]).hash
}

/// Number of blocks in the list that have the given hash.
pub open spec fn count_hash(blocks: Seq<BlockView>, hash: Seq<char>) -> nat
    decreases blocks.len(),
{
    if blocks.len() == 0 {
        0
    } else {
        count_hash(blocks.drop_last(), hash) + if blocks.last().hash == hash {
            1nat
        } else {
            0nat
        }
    }
}

/// Recording an event never gives a hash a second entry: a list in which
/// every hash occurs once stays such a list, and afterwards it holds the
/// event's hash with the event's status.
pub proof fn lemma_record_keeps_one_entry(blocks: Seq<BlockView>, event: BlockView)
    requires
        distinct_hashes(blocks),
    ensures
        distinct_hashes(recorded(blocks, event)),
        last_with_hash(recorded(blocks, event), event.hash) matches Some(i) && recorded(
            blocks,
            event,
        )[i].status == event.status && recorded(blocks, event)[i].line == event.line,
{
    let kept = trimmed_list(blocks, BLOCK_BUFFER_LINES as nat, BLOCK_BUFFER_MARGIN as nat);
    assert(distinct_hashes(kept)) by {
        if blocks.len() > BLOCK_BUFFER_LINES {
            assert forall|i: int, j: int| 0 <= i < j < kept.len() implies (#[trigger] kept[i]).hash
                != (#[trigger] kept[j]).hash by {
                assert(kept[i] == blocks[i + BLOCK_BUFFER_MARGIN]);
                assert(kept[j] == blocks[j + BLOCK_BUFFER_MARGIN]);
            }
        }
    }
    lemma_last_with_hash(kept, event.hash);
    let after = recorded(blocks, event);
    match last_with_hash(kept, event.hash) {
        Some(i) => {
            assert forall|a: int, b: int| 0 <= a < b < after.len() implies (#[trigger] after[a]).hash
                != (#[trigger] after[b]).hash by {
                assert(after[a].hash == kept[a].hash);
                assert(after[b].hash == kept[b].hash);
            }
            assert forall|j: int| i < j < after.len() implies (#[trigger] after[j]).hash
                != event.hash by {
                assert(after[j] == kept[j]);
            }
            lemma_last_with_hash_is(after, event.hash, i);
        },
        None => {
            assert forall|a: int, b: int| 0 <= a < b < after.len() implies (#[trigger] after[a]).hash
                != (#[trigger] after[b]).hash by {
                assert(after[a] == kept[a]);
                if b < kept.len() {
                    assert(after[b] == kept[b]);
                }
            }
            lemma_last_with_hash_is(after, event.hash, kept.len() as int);
        },
    }
}

/// Two events for one hash leave one entry, with the status of the later
/// event. Unless the list was so full that old blocks had to leave, the
/// second event adds nothing to its length.
pub proof fn lemma_second_event_updates(blocks: Seq<BlockView>, first: BlockView, second: BlockView)
    requires
        distinct_hashes(blocks),
        first.hash == second.hash,
    ensures
        ({
            let once = recorded(blocks, first);
            let twice = recorded(once, second);
            &&& count_hash(twice, first.hash) == 1
            &&& last_with_hash(twice, first.hash) matches Some(i) && twice[i].status
                == second.status
            &&& once.len() <= BLOCK_BUFFER_LINES ==> twice.len() == once.len()
        }),
{
    let once = recorded(blocks, first);
    let twice = recorded(once, second);
    lemma_record_keeps_one_entry(blocks, first);
    lemma_record_keeps_one_entry(once, second);
    lemma_last_with_hash(once, first.hash);
    lemma_count_distinct(twice, first.hash);
}

/// A block that is found and then accepted or rejected is one block:
/// two events for one hash, fed to an empty list, leave one entry with
/// the hash and the status of the later event, and the summary counts it
/// once, under that status.
pub proof fn lemma_two_events_one_block(first: BlockView, second: BlockView)
    requires
        first.hash == second.hash,
    ensures
        ({
            let twice = recorded(recorded(Seq::empty(), first), second);
            &&& twice.len() == 1
            &&& twice[0].hash == first.hash
            &&& twice[0].status == second.status
            &&& twice[0].line == second.line
            &&& count_accepted(twice) == if second.status == BlockStatus::Accepted {
                1nat
            } else {
                0nat
            }
            &&& count_rejected(twice) == if second.status.rejected() {
                1nat
            } else {
                0nat
            }
        }),
{
    let none = Seq::<BlockView>::empty();
    assert(last_with_hash(none, first.hash) is None);
    let once = recorded(none, first);
    assert(once =~= seq![first]);
    assert(once.drop_last() =~= none);
    assert(last_with_hash(once, second.hash) == Some(0int));
    let twice = recorded(once, second);
    assert(twice =~= seq![merged(first, second)]);
    assert(twice.drop_last() =~= none);
    assert(count_accepted(none) == 0);
    assert(count_rejected(none) == 0);
}

/// In a list in which every hash occurs once, a hash that occurs is
/// counted once.
pub proof fn lemma_count_distinct(blocks: Seq<BlockView>, hash: Seq<char>)
    requires
        distinct_hashes(blocks),
    ensures
        count_hash(blocks, hash) == if last_with_hash(blocks, hash) is Some {
            1nat
        } else {
            0nat
        },
    decreases blocks.len(),
{
    if blocks.len() > 0 {
        let head = blocks.drop_last();
        assert forall|i: int, j: int| 0 <= i < j < head.len() implies (#[trigger] head[i]).hash
            != (#[trigger] head[j]).hash by {
            assert(head[i] == blocks[i]);
            assert(head[j] == blocks[j]);
        }
        lemma_count_distinct(head, hash);
        lemma_last_with_hash(head, hash);
        if blocks.last().hash == hash {
            if let Some(i) = last_with_hash(head, hash) {
                assert(head[i] == blocks[i]);
                assert(blocks[i].hash != blocks[blocks.len() - 1].hash);
            }
        }
    }
}

fn same_text(a: &String, b: &String) -> (r: bool)
    ensures
        r == (a@ == b@),
{
    let x = chars_of(a.as_str());
    let y = chars_of(b.as_str());
    chars_eq(&x, &y)
}

fn copy_opt(o: &Option<String>) -> (r: Option<String>)
    ensures
        opt_text(r) == opt_text(*o),
{
    match o {
        Some(s) => Some(s.clone()),
        None => None,
    }
}

fn pick_newer(old: &Option<String>, new: Option<String>) -> (r: Option<String>)
    ensures
        opt_text(r) == newer(opt_text(*old), opt_text(new)),
{
    if new.is_some() {
        new
    } else {
        copy_opt(old)
    }
}

/// The position of the newest block in `blocks` that has the given hash.
pub fn find_block(blocks: &Vec<BridgeBlock>, hash: &String) -> (r: Option<usize>)
    ensures
        match r {
            Some(i) => last_with_hash(block_views(blocks@), hash@) == Some(i as int) && i
                < blocks.len(),
            None => last_with_hash(block_views(blocks@), hash@) is None,
        },
{
    let ghost all = block_views(blocks@);
    let mut i: usize = blocks.len();
    assert(all.take(blocks.len() as int) =~= all);
    while i > 0
        invariant
            i <= blocks.len(),
            all == block_views(blocks@),
            last_with_hash(all, hash@) == last_with_hash(all.take(i as int), hash@),
        decreases i,
    {
        proof {
            assert(all.take(i as int).drop_last() =~= all.take(i - 1));
            assert(all.take(i as int).last() == blocks@[i - 1]@);
        }
        if same_text(&blocks[i - 1].hash, hash) {
            return Some(i - 1);
        }
        i = i - 1;
    }
    None
}

/// Drops the oldest `margin` entries of a list that has grown beyond
/// `max` entries.
pub fn make_room<T>(list: &mut Vec<T>, max: usize, margin: usize)
    requires
        margin <= max,
    ensures
        final(list)@ == trimmed_list(old(list)@, max as nat, margin as nat),
{
    if list.len() > max {
        let tail = list.split_off(margin);
        *list = tail;
        assert(list@ =~= old(list)@.skip(margin as int));
    }
}

/// Adds a line to a log buffer, after the oldest lines made room.
pub fn push_log_line(logs: &mut Vec<String>, line: String)
    ensures
        final(logs)@ == trimmed_list(
            old(logs)@,
            LOG_BUFFER_LINES as nat,
            LOG_BUFFER_MARGIN as nat,
        ).push(line),
{
    make_room(logs, LOG_BUFFER_LINES, LOG_BUFFER_MARGIN);
    logs.push(line);
}

/// Records a block event: brings the block with the event's hash up to
/// date, or adds the event as a new block.
pub fn record_block(blocks: &mut Vec<BridgeBlock>, event: BridgeBlock)
    ensures
        block_views(final(blocks)@) == recorded(block_views(old(blocks)@), event@),
{
    make_room(blocks, BLOCK_BUFFER_LINES, BLOCK_BUFFER_MARGIN);
    let ghost kept = block_views(blocks@);
    assert(kept =~= trimmed_list(
        block_views(old(blocks)@),
        BLOCK_BUFFER_LINES as nat,
        BLOCK_BUFFER_MARGIN as nat,
    ));
    match find_block(blocks, &event.hash) {
        Some(i) => {
            let ghost before = blocks@;
            let known = &blocks[i];
            let next = BridgeBlock {
                timestamp: pick_newer(&known.timestamp, event.timestamp),
                hash: known.hash.clone(),
                status: event.status,
                worker: pick_newer(&known.worker, event.worker),
                wallet: pick_newer(&known.wallet, event.wallet),
                line: event.line,
            };
            assert(next@ == merged(kept[i as int], event@));
            blocks.set(i, next);
            assert(block_views(blocks@) =~= kept.update(i as int, next@));
        },
        None => {
            blocks.push(event);
            assert(block_views(blocks@) =~= kept.push(event@));
        },
    }
}

/// Adds details to the block they belong to: the block with their hash
/// or, where they name none, the block that was last reported.
pub fn apply_block_details(
    blocks: &mut Vec<BridgeBlock>,
    last_block_hash: &Option<String>,
    details: BlockDetails,
)
    ensures
        block_views(final(blocks)@) == detailed(
            block_views(old(blocks)@),
            opt_text(*last_block_hash),
            details@,
        ),
{
    let ghost all = block_views(blocks@);
    let hash = if details.hash.is_some() {
        details.hash
    } else {
        copy_opt(last_block_hash)
    };
    let hash = match hash {
        Some(h) => h,
        None => {
            return ;
        },
    };
    match find_block(blocks, &hash) {
        Some(i) => {
            let known = &blocks[i];
            let next = BridgeBlock {
                timestamp: copy_opt(&known.timestamp),
                hash: known.hash.clone(),
                status: known.status,
                worker: pick_newer(&known.worker, details.worker),
                wallet: pick_newer(&known.wallet, details.wallet),
                line: known.line.clone(),
            };
            blocks.set(i, next);
            assert(block_views(blocks@) =~= all.update(i as int, next@));
        },
        None => {
            let block = BridgeBlock {
                timestamp: None,
                hash,
                status: BlockStatus::Found,
                worker: details.worker,
                wallet: details.wallet,
                line: String::new(),
            };
            blocks.push(block);
            assert(block_views(blocks@) =~= all.push(block@));
        },
    }
}

/// What one line of the bridge's output does to the list of blocks and
/// to the hash that was last reported.
pub open spec fn line_effect(blocks: Seq<BlockView>, last: Option<Seq<char>>, line: Seq<char>) -> (
    Seq<BlockView>,
    Option<Seq<char>>,
) {
    let (b1, l1) = match event_of(line) {
        Some(e) => (recorded(blocks, e), Some(e.hash)),
        None => (blocks, last),
    };
    match details_of(line) {
        Some(d) => (detailed(b1, l1, d), l1),
        None => (b1, l1),
    }
}

/// Takes one line of the bridge's output: records the block event that
/// it reports and the details that it gives.
pub fn absorb_line(blocks: &mut Vec<BridgeBlock>, last_block_hash: &mut Option<String>, line: &str)
    ensures
        (block_views(final(blocks)@), opt_text(*final(last_block_hash))) == line_effect(
            block_views(old(blocks)@),
            opt_text(*old(last_block_hash)),
            line@,
        ),
{
    if let Some(event) = parse_block_event(line) {
        *last_block_hash = Some(event.hash.clone());
        record_block(blocks, event);
    }
    if let Some(details) = parse_block_details(line) {
        apply_block_details(blocks, last_block_hash, details);
    }
}

/// How many blocks of each kind a list holds.
#[derive(Clone, Copy, Debug, PartialEq, Eq, Structural)]
pub struct BlockSummary {
    pub total: usize,
    pub accepted: usize,
    pub rejected: usize,
    pub found: usize,
}

pub open spec fn count_accepted(blocks: Seq<BlockView>) -> nat
    decreases blocks.len(),
{
    if blocks.len() == 0 {
        0
    } else {
        count_accepted(blocks.drop_last()) + if blocks.last().status == BlockStatus::Accepted {
            1nat
        } else {
            0nat
        }
    }
}

pub open spec fn count_rejected(blocks: Seq<BlockView>) -> nat
    decreases blocks.len(),
{
    if blocks.len() == 0 {
        0
    } else {
        count_rejected(blocks.drop_last()) + if blocks.last().status.rejected() {
            1nat
        } else {
            0nat
        }
    }
}

/// Counts the blocks by what became of them. A block that is neither
/// accepted nor rejected counts as found.
pub fn summarize(blocks: &Vec<BridgeBlock>) -> (s: BlockSummary)
    ensures
        s.total == blocks.len(),
        s.accepted == count_accepted(block_views(blocks@)),
        s.rejected == count_rejected(block_views(blocks@)),
        s.found == s.total - s.accepted - s.rejected,
{
    let ghost all = block_views(blocks@);
    let mut accepted: usize = 0;
    let mut rejected: usize = 0;
    let mut i: usize = 0;
    while i < blocks.len()
        invariant
            i <= blocks.len(),
            all == block_views(blocks@),
            accepted + rejected <= i,
            accepted == count_accepted(all.take(i as int)),
            rejected == count_rejected(all.take(i as int)),
        decreases blocks.len() - i,
    {
        proof {
            assert(all.take(i + 1).drop_last() =~= all.take(i as int));
            assert(all.take(i + 1).last() == blocks@[i as int]@);
        }
        if blocks[i].status.is_accepted() {
            accepted = accepted + 1;
        } else if blocks[i].status.is_rejected() {
            rejected = rejected + 1;
        }
        i = i + 1;
    }
    assert(all.take(blocks.len() as int) =~= all);
    BlockSummary { total: blocks.len(), accepted, rejected, found: blocks.len() - accepted - rejected }
}

} // verus!

//! The view of the self-hosted database.
//!
//! The view polls the status interface for the metrics of the database
//! and for the captured output of one service at a time. A poll is made
//! only where none is on its way and the last one is old enough.

use crate::services::self_hosted_db::{LogService, TableStats};
use crate::services::{reachable_host, resolve_bind_host};
use crate::settings::SelfHostedSettings;
use crate::text::{
    ascii_lower, ascii_lower_chars, chars_of, concat, contains, contains_str, decimal, join,
    no_pieces, push_number, push_text, str_eq, texts,
};
use vstd::prelude::*;

verus! {

/// Seconds between two polls of the metrics.
pub const POLL_INTERVAL_SECS: u64 = 8;

/// Seconds between two polls of the logs.
pub const LOG_POLL_INTERVAL_SECS: u64 = 2;

/// Number of lines that are asked for.
pub const LOG_LIMIT: usize = 1000;

/// The tables of the indexers, in the order in which they are listed.
pub open spec fn indexer_tables() -> Seq<Seq<char>> {
    seq![
        "vars"@,
        "blocks"@,
        "block_parent"@,
        "subnetworks"@,
        "transactions"@,
        "transactions_acceptances"@,
        "blocks_transactions"@,
        "transactions_inputs"@,
        "transactions_outputs"@,
        "addresses_transactions"@,
        "scripts_transactions"@,
        "k_vars"@,
        "k_broadcasts"@,
        "k_votes"@,
        "k_mentions"@,
        "k_blocks"@,
        "k_follows"@,
        "k_contents"@,
        "k_hashtags"@,
    ]
}

/// The names of the tables of the indexers.
pub fn indexer_table_names() -> (names: Vec<&'static str>)
    ensures
        names@.map_values(|n: &'static str| n@) == indexer_tables(),
{
    let mut names: Vec<&'static str> = Vec::new();
    names.push("vars");
    names.push("blocks");
    names.push("block_parent");
    names.push("subnetworks");
    names.push("transactions");
    names.push("transactions_acceptances");
    names.push("blocks_transactions");
    names.push("transactions_inputs");
    names.push("transactions_outputs");
    names.push("addresses_transactions");
    names.push("scripts_transactions");
    names.push("k_vars");
    names.push("k_broadcasts");
    names.push("k_votes");
    names.push("k_mentions");
    names.push("k_blocks");
    names.push("k_follows");
    names.push("k_contents");
    names.push("k_hashtags");
    assert(names@.map_values(|n: &'static str| n@) =~= indexer_tables());
    names
}

/// The address at which the metrics are asked for.
pub open spec fn status_url(s: SelfHostedSettings) -> Seq<char> {
    concat(
        seq![
            "http://"@,
            reachable_host(s.api_bind@),
            ":"@,
            decimal(s.api_port as nat),
            "/status"@,
        ],
    )
}

/// The address at which the logs of a service are asked for.
pub open spec fn service_logs_url(s: SelfHostedSettings, service: LogService, limit: nat) -> Seq<
    char,
> {
    concat(
        seq![
            "http://"@,
            reachable_host(s.api_bind@),
            ":"@,
            decimal(s.api_port as nat),
            "/logs/"@,
            service.name(),
            "?limit="@,
            decimal(limit),
        ],
    )
}

/// Whether an error says that the metrics are not there yet because the
/// database is still starting: the interface answered that it is
/// unavailable, in its fixed words.
pub open spec fn says_initializing(error: Seq<char>) -> bool {
    contains(ascii_lower(error), "503"@) && contains(
        ascii_lower(error),
        "unable to collect indexer metrics"@,
    )
}

/// Whether a poll is due: none is on its way, and none was made yet or
/// the last one is at least `interval_secs` old.
pub open spec fn poll_due(in_flight: bool, since_last_secs: Option<u64>, interval_secs: u64) -> bool {
    !in_flight && match since_last_secs {
        Some(s) => s >= interval_secs,
        None => true,
    }
}

/// What the view knows of its polls.
#[derive(Clone, Copy, Debug, PartialEq, Eq, Structural)]
pub struct PollState {
    /// A poll of the metrics is on its way.
    pub in_flight: bool,
    /// A poll of the logs is on its way.
    pub logs_in_flight: bool,
}

/// The view of the self-hosted database.
#[derive(Clone, Copy, Debug, PartialEq, Eq)]
pub struct Database {
    pub poll_interval_secs: u64,
    pub log_poll_interval_secs: u64,
    pub log_service: LogService,
    pub log_autoscroll: bool,
    pub log_limit: usize,
    pub polls: PollState,
}

impl Database {
    /// The view as it is first shown: the output of the database server,
    /// scrolled to its end, and no poll on its way.
    pub fn new() -> (d: Self)
        ensures
            d.poll_interval_secs == POLL_INTERVAL_SECS,
            d.log_poll_interval_secs == LOG_POLL_INTERVAL_SECS,
            d.log_service == LogService::Postgres,
            d.log_autoscroll,
            d.log_limit == LOG_LIMIT,
            d.polls == (PollState { in_flight: false, logs_in_flight: false }),
    {
        Database {
            poll_interval_secs: POLL_INTERVAL_SECS,
            log_poll_interval_secs: LOG_POLL_INTERVAL_SECS,
            log_service: LogService::Postgres,
            log_autoscroll: true,
            log_limit: LOG_LIMIT,
            polls: PollState { in_flight: false, logs_in_flight: false },
        }
    }

    /// The host at which the status interface is reached.
    pub fn resolve_api_host(bind: &str) -> (r: String)
        ensures
            r@ == reachable_host(bind@),
    {
        resolve_bind_host(bind)
    }

    /// The address at which the metrics are asked for.
    pub fn api_url(settings: &SelfHostedSettings) -> (r: String)
        ensures
            r@ == status_url(*settings),
    {
        let host = resolve_bind_host(settings.api_bind.as_str());
        let mut p = no_pieces();
        push_text(&mut p, "http://");
        push_text(&mut p, host.as_str());
        push_text(&mut p, ":");
        push_number(&mut p, settings.api_port as u64);
        push_text(&mut p, "/status");
        assert(texts(p@) =~= seq![
            "http://"@,
            reachable_host(settings.api_bind@),
            ":"@,
            decimal(settings.api_port as nat),
            "/status"@,
        ]);
        join(&p)
    }

    /// The address at which the logs of a service are asked for.
    pub fn logs_url(settings: &SelfHostedSettings, service: LogService, limit: usize) -> (r: String)
        ensures
            r@ == service_logs_url(*settings, service, limit as nat),
    {
        let host = resolve_bind_host(settings.api_bind.as_str());
        let mut p = no_pieces();
        push_text(&mut p, "http://");
        push_text(&mut p, host.as_str());
        push_text(&mut p, ":");
        push_number(&mut p, settings.api_port as u64);
        push_text(&mut p, "/logs/");
        push_text(&mut p, service.as_str());
        push_text(&mut p, "?limit=");
        push_number(&mut p, limit as u64);
        assert(texts(p@) =~= seq![
            "http://"@,
            reachable_host(settings.api_bind@),
            ":"@,
            decimal(settings.api_port as nat),
            "/logs/"@,
            service.name(),
            "?limit="@,
            decimal(limit as nat),
        ]);
        join(&p)
    }

    /// Whether an error says that the database is still starting.
    pub fn is_indexer_initializing_error(error: &str) -> (b: bool)
        ensures
            b == says_initializing(error@),
    {
        let lower = ascii_lower_chars(&chars_of(error));
        contains_str(&lower, "503") && contains_str(&lower, "unable to collect indexer metrics")
    }

    /// Decides whether the metrics are polled now, given the seconds
    /// since the last poll came back, and notes the poll as on its way
    /// where they are. Answers with the address to ask.
    pub fn schedule_fetch(&mut self, settings: &SelfHostedSettings, since_last_secs: Option<u64>) -> (r:
        Option<String>)
        ensures
            match r {
                Some(url) => poll_due(
                    old(self).polls.in_flight,
                    since_last_secs,
                    old(self).poll_interval_secs,
                ) && url@ == status_url(*settings) && final(self).polls.in_flight,
                None => !poll_due(
                    old(self).polls.in_flight,
                    since_last_secs,
                    old(self).poll_interval_secs,
                ) && final(self).polls.in_flight == old(self).polls.in_flight,
            },
            *final(self) == (Database {
                polls: PollState { in_flight: final(self).polls.in_flight, ..old(self).polls },
                ..*old(self)
            }),
    {
        let due = !self.polls.in_flight && match since_last_secs {
            Some(s) => s >= self.poll_interval_secs,
            None => true,
        };
        if !due {
            return None;
        }
        self.polls.in_flight = true;
        Some(Self::api_url(settings))
    }

    /// Decides whether the logs of the shown service are polled now, and
    /// notes the poll as on its way where they are. Answers with the
    /// address to ask.
    pub fn schedule_logs_fetch(
        &mut self,
        settings: &SelfHostedSettings,
        since_last_secs: Option<u64>,
    ) -> (r: Option<String>)
        ensures
            match r {
                Some(url) => poll_due(
                    old(self).polls.logs_in_flight,
                    since_last_secs,
                    old(self).log_poll_interval_secs,
                ) && url@ == service_logs_url(
                    *settings,
                    old(self).log_service,
                    old(self).log_limit as nat,
                ) && final(self).polls.logs_in_flight,
                None => !poll_due(
                    old(self).polls.logs_in_flight,
                    since_last_secs,
                    old(self).log_poll_interval_secs,
                ) && final(self).polls.logs_in_flight == old(self).polls.logs_in_flight,
            },
            *final(self) == (Database {
                polls: PollState {
                    logs_in_flight: final(self).polls.logs_in_flight,
                    ..old(self).polls
                },
                ..*old(self)
            }),
    {
        let due = !self.polls.logs_in_flight && match since_last_secs {
            Some(s) => s >= self.log_poll_interval_secs,
            None => true,
        };
        if !due {
            return None;
        }
        self.polls.logs_in_flight = true;
        Some(Self::logs_url(settings, self.log_service, self.log_limit))
    }

    /// Notes that the poll of the metrics has come back.
    pub fn fetch_finished(&mut self)
        ensures
            *final(self) == (Database {
                polls: PollState { in_flight: false, ..old(self).polls },
                ..*old(self)
            }),
    {
        self.polls.in_flight = false;
    }

    /// Notes that the poll of the logs has come back.
    pub fn logs_fetch_finished(&mut self)
        ensures
            *final(self) == (Database {
                polls: PollState { logs_in_flight: false, ..old(self).polls },
                ..*old(self)
            }),
    {
        self.polls.logs_in_flight = false;
    }
}

/// A captured line as it is shown.
pub open spec fn shown_line(ts: Seq<char>, level: Seq<char>, message: Seq<char>) -> Seq<char> {
    concat(seq![ts, " ["@, level, "] "@, message])
}

pub fn format_log_line(ts: &str, level: &str, message: &str) -> (r: String)
    ensures
        r@ == shown_line(ts@, level@, message@),
{
    let mut p = no_pieces();
    push_text(&mut p, ts);
    push_text(&mut p, " [");
    push_text(&mut p, level);
    push_text(&mut p, "] ");
    push_text(&mut p, message);
    assert(texts(p@) =~= seq![ts@, " ["@, level@, "] "@, message@]);
    join(&p)
}

// ---------------------------------------------------------------------------
// The table of tables
// ---------------------------------------------------------------------------

/// A row of the table of tables: a table of the indexers, with its
/// metrics where the database has reported them.
#[derive(Clone, Debug, PartialEq, Eq)]
pub struct TableRow {
    pub name: &'static str,
    /// The rows and the bytes of the table.
    pub metrics: Option<(i64, i64)>,
}

/// What a row says.
pub ghost struct RowView {
    pub name: Seq<char>,
    pub metrics: Option<(i64, i64)>,
}

impl View for TableRow {
    type V = RowView;

    open spec fn view(&self) -> RowView {
        RowView { name: self.name@, metrics: self.metrics }
    }
}

pub open spec fn row_views(rows: Seq<TableRow>) -> Seq<RowView> {
    rows.map_values(|r: TableRow| r@)
}

/// The size by which a row is ordered: the bytes of its table, or less
/// than nothing where the table was not reported.
pub open spec fn row_size(row: RowView) -> int {
    match row.metrics {
        Some(m) => m.1 as int,
        None => -1,
    }
}

/// The metrics that were reported for the table of the given name: those
/// of the last report, where there are several.
pub open spec fn reported(tables: Seq<TableStats>, name: Seq<char>) -> Option<(i64, i64)>
    decreases tables.len(),
{
    if tables.len() == 0 {
        None
    } else if tables.last().table_name@ == name {
        Some((tables.last().live_rows, tables.last().total_size_bytes))
    } else {
        reported(tables.drop_last(), name)
    }
}

/// The rows of the tables of the indexers, in the order in which the
/// tables are listed.
pub open spec fn listed_rows(tables: Seq<TableStats>) -> Seq<RowView> {
    Seq::new(
        indexer_tables().len(),
        |i: int| RowView { name: indexer_tables()[i], metrics: reported(tables, indexer_tables()[i]) },
    )
}

/// The rows with `row` put in its place: behind every row that is at
/// least as large.
pub open spec fn with_row(sorted: Seq<RowView>, row: RowView) -> Seq<RowView>
    decreases sorted.len(),
{
    if sorted.len() == 0 {
        seq![row]
    } else if row_size(sorted.last()) >= row_size(row) {
        sorted.push(row)
    } else {
        with_row(sorted.drop_last(), row).push(sorted.last())
    }
}

/// The rows ordered by size, largest first. Rows of one size keep the
/// order in which they came.
pub open spec fn by_size(rows: Seq<RowView>) -> Seq<RowView>
    decreases rows.len(),
{
    if rows.len() == 0 {
        rows
    } else {
        with_row(by_size(rows.drop_last()), rows.last())
    }
}

/// Whether no row is followed by a larger one.
pub open spec fn largest_first(rows: Seq<RowView>) -> bool {
    forall|i: int, j: int|
        0 <= i < j < rows.len() ==> row_size(#[trigger] rows[i]) >= row_size(#[trigger] rows[j])
}

/// Whether every row is at least as large as `bound`.
pub open spec fn all_at_least(rows: Seq<RowView>, bound: int) -> bool {
    forall|k: int| 0 <= k < rows.len() ==> row_size(#[trigger] rows[k]) >= bound
}

/// Putting a row in its place keeps the rows ordered, adds the row and
/// nothing else, and loses none.
pub proof fn lemma_with_row(sorted: Seq<RowView>, row: RowView, bound: int)
    requires
        largest_first(sorted),
        all_at_least(sorted, bound),
        row_size(row) >= bound,
    ensures
        largest_first(with_row(sorted, row)),
        all_at_least(with_row(sorted, row), bound),
        with_row(sorted, row).len() == sorted.len() + 1,
        with_row(sorted, row).to_multiset() == sorted.to_multiset().insert(row),
    decreases sorted.len(),
{
    broadcast use vstd::seq_lib::group_to_multiset_ensures;

    let result = with_row(sorted, row);
    if sorted.len() == 0 {
        assert(result =~= Seq::<RowView>::empty().push(row));
    } else if row_size(sorted.last()) >= row_size(row) {
        assert forall|i: int, j: int| 0 <= i < j < result.len() implies row_size(
            #[trigger] result[i],
        ) >= row_size(#[trigger] result[j]) by {
            if j == sorted.len() {
                assert(result[i] == sorted[i]);
                assert(row_size(sorted[i]) >= row_size(sorted[sorted.len() - 1]));
            } else {
                assert(result[i] == sorted[i] && result[j] == sorted[j]);
            }
        }
        assert forall|k: int| 0 <= k < result.len() implies row_size(#[trigger] result[k])
            >= bound by {
            if k < sorted.len() {
                assert(result[k] == sorted[k]);
            }
        }
    } else {
        let head = sorted.drop_last();
        let last = sorted.last();
        assert forall|i: int, j: int| 0 <= i < j < head.len() implies row_size(#[trigger] head[i])
            >= row_size(#[trigger] head[j]) by {
            assert(head[i] == sorted[i] && head[j] == sorted[j]);
        }
        assert forall|k: int| 0 <= k < head.len() implies row_size(#[trigger] head[k])
            >= row_size(last) by {
            assert(head[k] == sorted[k]);
            assert(row_size(sorted[k]) >= row_size(sorted[sorted.len() - 1]));
        }
        lemma_with_row(head, row, row_size(last));
        let inner = with_row(head, row);
        assert(result == inner.push(last));
        assert forall|i: int, j: int| 0 <= i < j < result.len() implies row_size(
            #[trigger] result[i],
        ) >= row_size(#[trigger] result[j]) by {
            if j == inner.len() {
                assert(result[i] == inner[i]);
            } else {
                assert(result[i] == inner[i] && result[j] == inner[j]);
            }
        }
        assert forall|k: int| 0 <= k < result.len() implies row_size(#[trigger] result[k])
            >= bound by {
            if k < inner.len() {
                assert(result[k] == inner[k]);
                assert(row_size(inner[k]) >= row_size(last));
            }
            assert(row_size(last) >= bound) by {
                assert(last == sorted[sorted.len() - 1]);
            }
        }
        assert(sorted =~= head.push(last));
    }
}

/// The rows ordered by size are the same rows, and no row is followed
/// by a larger one.
pub proof fn lemma_by_size_orders(rows: Seq<RowView>)
    ensures
        largest_first(by_size(rows)),
        by_size(rows).len() == rows.len(),
        by_size(rows).to_multiset() == rows.to_multiset(),
    decreases rows.len(),
{
    broadcast use vstd::seq_lib::group_to_multiset_ensures;

    if rows.len() > 0 {
        let head = by_size(rows.drop_last());
        lemma_by_size_orders(rows.drop_last());
        lemma_with_row(head, rows.last(), i64::MIN as int);
        assert(rows =~= rows.drop_last().push(rows.last()));
    }
}

fn size_of(row: &TableRow) -> (n: i64)
    ensures
        n == row_size(row@),
{
    match row.metrics {
        Some(m) => m.1,
        None => -1,
    }
}

fn lookup(tables: &Vec<TableStats>, name: &str) -> (r: Option<(i64, i64)>)
    ensures
        r == reported(tables@, name@),
{
    let mut i: usize = tables.len();
    assert(tables@.take(tables.len() as int) =~= tables@);
    while i > 0
        invariant
            i <= tables.len(),
            reported(tables@, name@) == reported(tables@.take(i as int), name@),
        decreases i,
    {
        proof {
            assert(tables@.take(i as int).drop_last() =~= tables@.take(i - 1));
        }
        if str_eq(tables[i - 1].table_name.as_str(), name) {
            return Some((tables[i - 1].live_rows, tables[i - 1].total_size_bytes));
        }
        i = i - 1;
    }
    None
}

fn insert_row(sorted: &mut Vec<TableRow>, row: TableRow)
    ensures
        row_views(final(sorted)@) == with_row(row_views(old(sorted)@), row@),
{
    let ghost all = row_views(sorted@);
    let size = size_of(&row);
    let mut at: usize = sorted.len();
    assert(all.take(sorted.len() as int) =~= all);
    assert(all.skip(sorted.len() as int) =~= Seq::<RowView>::empty());
    assert(with_row(all, row@) + Seq::<RowView>::empty() =~= with_row(all, row@));
    loop
        invariant
            at <= sorted.len(),
            sorted@ == old(sorted)@,
            all == row_views(sorted@),
            size == row_size(row@),
            with_row(all, row@) == with_row(all.take(at as int), row@) + all.skip(at as int),
            at == sorted.len() || row_size(all[at as int]) < size,
        ensures
            at <= sorted.len(),
            sorted@ == old(sorted)@,
            all == row_views(sorted@),
            with_row(all, row@) == all.take(at as int).push(row@) + all.skip(at as int),
        decreases at,
    {
        if at == 0 {
            assert(with_row(all.take(0), row@) =~= all.take(0).push(row@));
            break ;
        }
        let fits = size_of(&sorted[at - 1]) >= size;
        proof {
            let head = all.take(at as int);
            assert(head.last() == sorted@[at - 1]@);
            assert(head.drop_last() =~= all.take(at - 1));
        }
        if fits {
            break ;
        }
        proof {
            let head = all.take(at as int);
            assert(with_row(head, row@) == with_row(head.drop_last(), row@).push(head.last()));
            assert(with_row(head.drop_last(), row@).push(head.last()) + all.skip(at as int)
                =~= with_row(all.take(at - 1), row@) + all.skip(at - 1));
        }
        at = at - 1;
    }
    sorted.insert(at, row);
    assert(row_views(sorted@) =~= all.take(at as int).push(row@) + all.skip(at as int));
}

/// The rows of the table of tables: one row for every table of the
/// indexers, with the metrics that were reported for it, largest table
/// first. Tables of one size keep the order in which they are listed;
/// tables that were not reported come last.
pub fn table_rows(tables: &Vec<TableStats>) -> (rows: Vec<TableRow>)
    ensures
        row_views(rows@) == by_size(listed_rows(tables@)),
        rows@.len() == indexer_tables().len(),
        largest_first(row_views(rows@)),
{
    let names = indexer_table_names();
    let ghost listed = listed_rows(tables@);
    let mut rows: Vec<TableRow> = Vec::new();
    let mut i: usize = 0;
    proof {
        assert(names@.len() == names@.map_values(|n: &'static str| n@).len());
        assert(listed.take(0) =~= Seq::<RowView>::empty());
        assert(row_views(rows@) =~= Seq::<RowView>::empty());
    }
    while i < names.len()
        invariant
            i <= names.len(),
            names@.map_values(|n: &'static str| n@) == indexer_tables(),
            names@.len() == indexer_tables().len(),
            listed == listed_rows(tables@),
            row_views(rows@) == by_size(listed.take(i as int)),
        decreases names.len() - i,
    {
        let row = TableRow { name: names[i], metrics: lookup(tables, names[i]) };
        proof {
            assert(names@.map_values(|n: &'static str| n@)[i as int] == names@[i as int]@);
            assert(listed.take(i + 1).drop_last() =~= listed.take(i as int));
            assert(listed.take(i + 1).last() == listed[i as int]);
            assert(row@ == listed[i as int]);
        }
        insert_row(&mut rows, row);
        i = i + 1;
    }
    proof {
        assert(listed.take(names.len() as int) =~= listed);
        lemma_by_size_orders(listed);
        assert(rows@.len() == row_views(rows@).len());
    }
    rows
}

} // verus!

//! The status interface of the self-hosted database.
//!
//! A small HTTP interface answers with the metrics of the database and
//! with the captured output of the self-hosted services. What is asked
//! of the database and what is made of its answers is stated here; the
//! asking and the serving are the caller's.

use crate::log_store::{all_clean, newest, now_rfc3339, views, LogLine, LogStore, LogStores};
use crate::services::self_hosted_postgres::{conn_str, connection_string};
use crate::services::{
    action_views, host_port, join_host_port, render_all, rendered_all, Action, ServiceTexts,
};
use crate::settings::{Effective, NodeSettings, SelfHostedSettings, Settings};
use crate::supervisor::{step, Event, Model, Supervisor};
use crate::text::{concat, join, no_pieces, push_text, str_eq, texts};
use vstd::prelude::*;
use vstd::string::StringExecFns;

verus! {

/// The route that answers with the metrics of the moment.
pub const STATUS_ROUTE: &'static str = "/status";

/// The route that pushes the metrics at a fixed interval.
pub const STATUS_STREAM_ROUTE: &'static str = "/status/stream";

/// The route that says that the API is up.
pub const HEALTH_ROUTE: &'static str = "/healthz";

/// The route that serves the newest lines of a service; the name of the
/// service is the last part of the path.
pub const LOGS_ROUTE: &'static str = "/logs/:service";

/// The status with which a request is answered whose metrics could not
/// be gathered: the service is unavailable, not broken.
pub const METRICS_UNAVAILABLE_STATUS: u16 = 503;

/// What is answered where the metrics could not be gathered. The text is
/// fixed, so that a database that is still starting can be told from one
/// that is broken.
pub const METRICS_UNAVAILABLE: &'static str = "Unable to collect indexer metrics";

/// What is answered where the logs of an unknown service are asked for.
pub const UNKNOWN_SERVICE: &'static str = "Unknown service";

/// Seconds between two keep-alive messages of the status stream.
pub const KEEP_ALIVE_SECS: u64 = 15;

pub const DATABASE_SIZE_SQL: &'static str = "SELECT pg_database_size(current_database())::bigint";

pub const CONNECTIONS_SQL: &'static str =
    "SELECT COUNT(*)::int FROM pg_stat_activity WHERE datname = current_database()";

pub const TABLE_COUNT_SQL: &'static str =
    "SELECT COUNT(*)::int FROM information_schema.tables WHERE table_schema = 'public'";

pub const UPTIME_SQL: &'static str =
    "SELECT EXTRACT(EPOCH FROM now() - pg_postmaster_start_time())::int";

/// The query for the tables of the database, largest first.
pub const TABLE_STATS_SQL: &'static str = "\nSELECT\n    c.relname AS table_name,\n    GREATEST(\n        COALESCE(s.n_live_tup, 0)::bigint,\n        COALESCE(c.reltuples, 0)::bigint\n    ) AS live_rows,\n    COALESCE(pg_total_relation_size(c.oid), 0)::bigint AS total_size_bytes\nFROM pg_class c\nJOIN pg_namespace n ON n.oid = c.relnamespace\nLEFT JOIN pg_stat_user_tables s ON s.relid = c.oid\nWHERE n.nspname = 'public' AND c.relkind = 'r'\nORDER BY total_size_bytes DESC\n";

// ---------------------------------------------------------------------------
// Requests
// ---------------------------------------------------------------------------

/// The interval of the status stream in seconds: what was asked for,
/// kept between five and sixty; ten where nothing was asked for.
pub open spec fn stream_interval(asked: Option<u64>) -> u64 {
    match asked {
        None => 10,
        Some(n) => if n < 5 {
            5
        } else if n > 60 {
            60
        } else {
            n
        },
    }
}

pub fn clamp_stream_interval(asked: Option<u64>) -> (secs: u64)
    ensures
        secs == stream_interval(asked),
        5 <= secs <= 60,
{
    match asked {
        None => 10,
        Some(n) => {
            if n < 5 {
                5
            } else if n > 60 {
                60
            } else {
                n
            }
        },
    }
}

/// The number of lines that a request for logs is answered with: what
/// was asked for, kept between ten and a thousand; ten where nothing was
/// asked for.
pub open spec fn log_limit(asked: Option<usize>) -> usize {
    match asked {
        None => 10,
        Some(n) => if n < 10 {
            10
        } else if n > 1000 {
            1000
        } else {
            n
        },
    }
}

pub fn clamp_log_limit(asked: Option<usize>) -> (limit: usize)
    ensures
        limit == log_limit(asked),
        10 <= limit <= 1000,
{
    match asked {
        None => 10,
        Some(n) => {
            if n < 10 {
                10
            } else if n > 1000 {
                1000
            } else {
                n
            }
        },
    }
}

/// A service whose output is captured.
#[derive(Clone, Copy, Debug, PartialEq, Eq, Structural)]
pub enum LogService {
    Postgres,
    Indexer,
    KIndexer,
    Rest,
    Socket,
}

impl LogService {
    /// The name of the service in the path of a request.
    pub open spec fn name(self) -> Seq<char> {
        match self {
            LogService::Postgres => "postgres"@,
            LogService::Indexer => "indexer"@,
            LogService::KIndexer => "k-indexer"@,
            LogService::Rest => "rest"@,
            LogService::Socket => "socket"@,
        }
    }

    pub fn as_str(&self) -> (r: &'static str)
        ensures
            r@ == self.name(),
    {
        match self {
            LogService::Postgres => "postgres",
            LogService::Indexer => "indexer",
            LogService::KIndexer => "k-indexer",
            LogService::Rest => "rest",
            LogService::Socket => "socket",
        }
    }

    /// The service that a request names.
    pub open spec fn named(name: Seq<char>) -> Option<LogService> {
        if name == "postgres"@ {
            Some(LogService::Postgres)
        } else if name == "indexer"@ {
            Some(LogService::Indexer)
        } else if name == "k-indexer"@ {
            Some(LogService::KIndexer)
        } else if name == "rest"@ {
            Some(LogService::Rest)
        } else if name == "socket"@ {
            Some(LogService::Socket)
        } else {
            None
        }
    }

    pub fn parse(name: &str) -> (r: Option<LogService>)
        ensures
            r == Self::named(name@),
    {
        if str_eq(name, "postgres") {
            Some(LogService::Postgres)
        } else if str_eq(name, "indexer") {
            Some(LogService::Indexer)
        } else if str_eq(name, "k-indexer") {
            Some(LogService::KIndexer)
        } else if str_eq(name, "rest") {
            Some(LogService::Rest)
        } else if str_eq(name, "socket") {
            Some(LogService::Socket)
        } else {
            None
        }
    }
}

/// The store of a service.
pub open spec fn store_of(stores: LogStores, service: LogService) -> LogStore {
    match service {
        LogService::Postgres => stores.postgres,
        LogService::Indexer => stores.indexer,
        LogService::KIndexer => stores.k_indexer,
        LogService::Rest => stores.rest,
        LogService::Socket => stores.socket,
    }
}

pub fn select_store(stores: &LogStores, service: LogService) -> (s: &LogStore)
    ensures
        *s == store_of(*stores, service),
{
    match service {
        LogService::Postgres => &stores.postgres,
        LogService::Indexer => &stores.indexer,
        LogService::KIndexer => &stores.k_indexer,
        LogService::Rest => &stores.rest,
        LogService::Socket => &stores.socket,
    }
}

/// Answers a request for the logs of the service named `service`: the
/// newest lines of its store, as many as the limit allows; `None` where
/// no such service is known.
pub fn logs_for(stores: &LogStores, service: &str, limit: Option<usize>) -> (r: Option<Vec<LogLine>>)
    ensures
        match LogService::named(service@) {
            Some(s) => r is Some && views(r.unwrap()@) == newest(
                store_of(*stores, s)@,
                log_limit(limit) as nat,
            ) && all_clean(views(r.unwrap()@)),
            None => r is None,
        },
{
    match LogService::parse(service) {
        Some(s) => Some(select_store(stores, s).snapshot(clamp_log_limit(limit))),
        None => None,
    }
}

// ---------------------------------------------------------------------------
// Metrics
// ---------------------------------------------------------------------------

/// How the database is reached.
#[derive(Clone, Debug, PartialEq, Eq)]
pub struct DbConfig {
    pub host: String,
    pub port: u16,
    pub user: String,
    pub password: String,
    pub dbname: String,
}

impl DbConfig {
    /// The connection string, with a timeout of five seconds.
    pub fn to_conn_string(&self) -> (r: String)
        ensures
            r@ == conn_str(self.host@, self.port, self.user@, Some(self.password@), self.dbname@, 5),
    {
        connection_string(
            self.host.as_str(),
            self.port,
            self.user.as_str(),
            Some(self.password.as_str()),
            self.dbname.as_str(),
            5,
        )
    }

    /// The database of the settings, under the name and on the port that
    /// are in effect.
    pub fn from_settings(settings: &SelfHostedSettings, effective: &Effective) -> (c: Self)
        ensures
            c.host@ == settings.db_host@,
            c.port == effective.db_port,
            c.user@ == settings.db_user@,
            c.password@ == settings.db_password@,
            c.dbname@ == effective.db_name@,
    {
        DbConfig {
            host: settings.db_host.clone(),
            port: effective.db_port,
            user: settings.db_user.clone(),
            password: settings.db_password.clone(),
            dbname: effective.db_name.clone(),
        }
    }
}

/// What is known of a table.
#[derive(Clone, Debug, PartialEq, Eq)]
pub struct TableStats {
    pub table_name: String,
    pub live_rows: i64,
    pub total_size_bytes: i64,
}

/// What is known of all tables together.
#[derive(Clone, Copy, Debug, PartialEq, Eq, Structural)]
pub struct TableTotals {
    pub live_rows: i64,
    pub total_size_bytes: i64,
}

/// The metrics of the database at one moment.
#[derive(Clone, Debug, PartialEq, Eq)]
pub struct StatusPayload {
    pub db_size_bytes: i64,
    pub connected_clients: i64,
    pub table_count: i64,
    pub uptime_seconds: i64,
    pub table_stats: Vec<TableStats>,
    pub table_totals: TableTotals,
    pub largest_table: Option<String>,
    pub timestamp: String,
}

/// A sum that stays at the largest or smallest number where it would go
/// beyond.
pub open spec fn saturating_sum(a: i64, b: i64) -> i64 {
    if a + b > i64::MAX {
        i64::MAX
    } else if a + b < i64::MIN {
        i64::MIN
    } else {
        (a + b) as i64
    }
}

/// The rows of all tables together.
pub open spec fn total_rows(tables: Seq<TableStats>) -> i64
    decreases tables.len(),
{
    if tables.len() == 0 {
        0
    } else {
        saturating_sum(total_rows(tables.drop_last()), tables.last().live_rows)
    }
}

/// The bytes of all tables together.
pub open spec fn total_bytes(tables: Seq<TableStats>) -> i64
    decreases tables.len(),
{
    if tables.len() == 0 {
        0
    } else {
        saturating_sum(total_bytes(tables.drop_last()), tables.last().total_size_bytes)
    }
}

fn add_saturating(a: i64, b: i64) -> (r: i64)
    ensures
        r == saturating_sum(a, b),
{
    if b > 0 && a > i64::MAX - b {
        i64::MAX
    } else if b < 0 && a < i64::MIN - b {
        i64::MIN
    } else {
        a + b
    }
}

/// Adds up the tables.
pub fn table_totals(tables: &Vec<TableStats>) -> (t: TableTotals)
    ensures
        t.live_rows == total_rows(tables@),
        t.total_size_bytes == total_bytes(tables@),
{
    let mut rows: i64 = 0;
    let mut bytes: i64 = 0;
    let mut i: usize = 0;
    assert(tables@.take(0) =~= Seq::<TableStats>::empty());
    while i < tables.len()
        invariant
            i <= tables.len(),
            rows == total_rows(tables@.take(i as int)),
            bytes == total_bytes(tables@.take(i as int)),
        decreases tables.len() - i,
    {
        proof {
            assert(tables@.take(i + 1).drop_last() =~= tables@.take(i as int));
        }
        rows = add_saturating(rows, tables[i].live_rows);
        bytes = add_saturating(bytes, tables[i].total_size_bytes);
        i = i + 1;
    }
    assert(tables@.take(tables.len() as int) =~= tables@);
    TableTotals { live_rows: rows, total_size_bytes: bytes }
}

/// A table as a row of the answer describes it: a table without a name
/// is called `unknown`.
pub fn table_from_row(name: Option<String>, live_rows: i64, total_size_bytes: i64) -> (t: TableStats)
    ensures
        t.table_name@ == match name {
            Some(n) => n@,
            None => "unknown"@,
        },
        t.live_rows == live_rows,
        t.total_size_bytes == total_size_bytes,
{
    let table_name = match name {
        Some(n) => n,
        None => String::from_str("unknown"),
    };
    TableStats { table_name, live_rows, total_size_bytes }
}

/// Puts the answers of the database together. The tables are taken in
/// the order in which the database gave them, which is largest first, so
/// that the first table is the largest.
pub fn assemble_status(
    db_size_bytes: i64,
    connected_clients: i32,
    table_count: i32,
    uptime_seconds: i32,
    table_stats: Vec<TableStats>,
    timestamp: String,
) -> (p: StatusPayload)
    ensures
        p.db_size_bytes == db_size_bytes,
        p.connected_clients == connected_clients,
        p.table_count == table_count,
        p.uptime_seconds == uptime_seconds,
        p.table_stats == table_stats,
        p.table_totals.live_rows == total_rows(table_stats@),
        p.table_totals.total_size_bytes == total_bytes(table_stats@),
        match p.largest_table {
            Some(n) => table_stats.len() > 0 && n@ == table_stats@[0].table_name@,
            None => table_stats.len() == 0,
        },
        p.timestamp == timestamp,
{
    let table_totals = table_totals(&table_stats);
    let largest_table = if table_stats.len() > 0 {
        Some(table_stats[0].table_name.clone())
    } else {
        None
    };
    StatusPayload {
        db_size_bytes,
        connected_clients: connected_clients as i64,
        table_count: table_count as i64,
        uptime_seconds: uptime_seconds as i64,
        table_stats,
        table_totals,
        largest_table,
        timestamp,
    }
}

/// Puts the answers of the database together and stamps them with the
/// current time.
pub fn collect_stats(
    db_size_bytes: i64,
    connected_clients: i32,
    table_count: i32,
    uptime_seconds: i32,
    table_stats: Vec<TableStats>,
) -> (p: StatusPayload)
    ensures
        p.db_size_bytes == db_size_bytes,
        p.connected_clients == connected_clients,
        p.table_count == table_count,
        p.uptime_seconds == uptime_seconds,
        p.table_stats == table_stats,
        p.table_totals.live_rows == total_rows(table_stats@),
        p.table_totals.total_size_bytes == total_bytes(table_stats@),
        match p.largest_table {
            Some(n) => table_stats.len() > 0 && n@ == table_stats@[0].table_name@,
            None => table_stats.len() == 0,
        },
{
    assemble_status(
        db_size_bytes,
        connected_clients,
        table_count,
        uptime_seconds,
        table_stats,
        now_rfc3339(),
    )
}

// ---------------------------------------------------------------------------
// The service
// ---------------------------------------------------------------------------

/// What the settings ask of the service.
#[derive(Clone, Debug, PartialEq, Eq)]
pub enum SelfHostedDbEvents {
    Enable,
    Disable,
    UpdateSettings(SelfHostedSettings),
    UpdateNodeSettings(NodeSettings),
    Exit,
}

/// The words of the status interface.
pub open spec fn db_texts() -> ServiceTexts {
    ServiceTexts {
        label: "status api",
        started: "started",
        exit_open: ": exited (",
        exit_close: ")",
        monitor_open: ": server error (",
        monitor_close: ")",
        binary_missing: "server not available",
        spawn_failed: "failed to start server",
        exited: "server exited",
        monitor_error: "server error",
    }
}

/// The address to which the interface is bound.
pub open spec fn api_address(s: SelfHostedSettings, e: Effective) -> Seq<char> {
    host_port(s.api_bind@, e.api_port)
}

/// The line that says that the address of the interface is taken.
pub open spec fn address_in_use(s: SelfHostedSettings, e: Effective) -> Seq<char> {
    concat(
        seq![
            "address already in use ("@,
            api_address(s, e),
            "): another process is already bound"@,
        ],
    )
}

/// The line that says that the address of the interface is no address;
/// `error` says why.
pub open spec fn invalid_bind(error: Seq<char>) -> Seq<char> {
    concat(seq!["invalid bind address: "@, error])
}

/// The status interface under supervision.
pub struct SelfHostedDbService {
    core: Supervisor,
    settings: SelfHostedSettings,
    node_settings: NodeSettings,
}

impl SelfHostedDbService {
    /// The state of the lifecycle.
    pub closed spec fn state(&self) -> Model {
        self.core@
    }

    /// The self-hosted settings of the stored snapshot.
    pub closed spec fn snapshot(&self) -> SelfHostedSettings {
        self.settings
    }

    /// The node settings of the stored snapshot.
    pub closed spec fn node(&self) -> NodeSettings {
        self.node_settings
    }

    fn texts() -> (t: ServiceTexts)
        ensures
            t == db_texts(),
    {
        ServiceTexts {
            label: "status api",
            started: "started",
            exit_open: ": exited (",
            exit_close: ")",
            monitor_open: ": server error (",
            monitor_close: ")",
            binary_missing: "server not available",
            spawn_failed: "failed to start server",
            exited: "server exited",
            monitor_error: "server error",
        }
    }

    /// The interface as the settings describe it. Nothing runs yet.
    pub fn new(settings: &Settings) -> (s: Self)
        ensures
            s.snapshot() == settings.self_hosted,
            s.node() == settings.node,
            s.state() == (Model {
                enabled: settings.self_hosted.enabled,
                applicable: settings.self_hosted.enabled,
                starting: false,
                restart_pending: false,
                live: false,
                done: false,
            }),
    {
        SelfHostedDbService {
            core: Supervisor::new(settings.self_hosted.enabled, settings.self_hosted.enabled),
            settings: settings.self_hosted.duplicate(),
            node_settings: settings.node.duplicate(),
        }
    }

    pub fn is_enabled(&self) -> (b: bool)
        ensures
            b == self.state().enabled,
    {
        self.core.is_enabled()
    }

    pub fn is_running(&self) -> (b: bool)
        ensures
            b == self.state().live,
    {
        self.core.is_running()
    }

    /// Takes an event of the lifecycle. `detail` is the error that came
    /// with it, in the words of the operating system.
    pub fn handle(&mut self, e: Event, detail: &str) -> (out: Vec<Action>)
        ensures
            final(self).snapshot() == old(self).snapshot(),
            final(self).node() == old(self).node(),
            final(self).state() == step(old(self).state(), e).0,
            action_views(out@) == rendered_all(
                db_texts(),
                step(old(self).state(), e).1,
                detail@,
                Seq::empty(),
            ),
    {
        let cmds = self.core.handle(e);
        let none = String::new();
        render_all(&Self::texts(), &cmds, detail, none.as_str())
    }

    /// The event of the lifecycle that a request stands for, on the
    /// settings `s` that are stored when it arrives.
    pub open spec fn event_of(request: SelfHostedDbEvents, s: SelfHostedSettings) -> Event {
        match request {
            SelfHostedDbEvents::Enable => Event::Enable { applicable: s.enabled },
            SelfHostedDbEvents::Disable => Event::Disable,
            SelfHostedDbEvents::UpdateSettings(n) => Event::UpdateSettings { applicable: n.enabled },
            SelfHostedDbEvents::UpdateNodeSettings(_) => Event::UpdateSettings {
                applicable: s.enabled,
            },
            SelfHostedDbEvents::Exit => Event::Exit,
        }
    }

    /// Switches the interface on or off.
    pub fn enable(&mut self, enable: bool) -> (out: Vec<Action>)
        ensures
            final(self).snapshot() == old(self).snapshot(),
            final(self).node() == old(self).node(),
            final(self).state() == step(
                old(self).state(),
                if enable {
                    Event::Enable { applicable: old(self).snapshot().enabled }
                } else {
                    Event::Disable
                },
            ).0,
            action_views(out@) == rendered_all(
                db_texts(),
                step(
                    old(self).state(),
                    if enable {
                        Event::Enable { applicable: old(self).snapshot().enabled }
                    } else {
                        Event::Disable
                    },
                ).1,
                ""@,
                Seq::empty(),
            ),
    {
        let e = if enable {
            Event::Enable { applicable: self.settings.enabled }
        } else {
            Event::Disable
        };
        self.handle(e, "")
    }

    /// Replaces the self-hosted settings of the snapshot. An interface
    /// that is switched on is stopped and started again.
    pub fn update_settings(&mut self, settings: SelfHostedSettings) -> (out: Vec<Action>)
        ensures
            final(self).snapshot() == settings,
            final(self).node() == old(self).node(),
            final(self).state() == step(
                old(self).state(),
                Event::UpdateSettings { applicable: settings.enabled },
            ).0,
            action_views(out@) == rendered_all(
                db_texts(),
                step(old(self).state(), Event::UpdateSettings { applicable: settings.enabled }).1,
                ""@,
                Seq::empty(),
            ),
    {
        let applicable = settings.enabled;
        self.settings = settings;
        self.handle(Event::UpdateSettings { applicable }, "")
    }

    /// Replaces the node settings of the snapshot. An interface that is
    /// switched on is stopped and started again.
    pub fn update_node_settings(&mut self, settings: NodeSettings) -> (out: Vec<Action>)
        ensures
            final(self).snapshot() == old(self).snapshot(),
            final(self).node() == settings,
            final(self).state() == step(
                old(self).state(),
                Event::UpdateSettings { applicable: old(self).snapshot().enabled },
            ).0,
            action_views(out@) == rendered_all(
                db_texts(),
                step(
                    old(self).state(),
                    Event::UpdateSettings { applicable: old(self).snapshot().enabled },
                ).1,
                ""@,
                Seq::empty(),
            ),
    {
        let applicable = self.settings.enabled;
        self.node_settings = settings;
        self.handle(Event::UpdateSettings { applicable }, "")
    }

    /// Ends the supervision: an interface that runs is stopped.
    pub fn terminate(&mut self) -> (out: Vec<Action>)
        ensures
            final(self).snapshot() == old(self).snapshot(),
            final(self).node() == old(self).node(),
            final(self).state() == step(old(self).state(), Event::Exit).0,
            action_views(out@) == rendered_all(
                db_texts(),
                step(old(self).state(), Event::Exit).1,
                ""@,
                Seq::empty(),
            ),
    {
        self.handle(Event::Exit, "")
    }

    /// Takes a request, in the order in which the requests arrive.
    pub fn dispatch(&mut self, request: SelfHostedDbEvents) -> (out: Vec<Action>)
        ensures
            final(self).state() == step(
                old(self).state(),
                Self::event_of(request, old(self).snapshot()),
            ).0,
            action_views(out@) == rendered_all(
                db_texts(),
                step(old(self).state(), Self::event_of(request, old(self).snapshot())).1,
                ""@,
                Seq::empty(),
            ),
            final(self).snapshot() == match request {
                SelfHostedDbEvents::UpdateSettings(n) => n,
                _ => old(self).snapshot(),
            },
            final(self).node() == match request {
                SelfHostedDbEvents::UpdateNodeSettings(n) => n,
                _ => old(self).node(),
            },
    {
        match request {
            SelfHostedDbEvents::Enable => self.enable(true),
            SelfHostedDbEvents::Disable => self.enable(false),
            SelfHostedDbEvents::UpdateSettings(n) => self.update_settings(n),
            SelfHostedDbEvents::UpdateNodeSettings(n) => self.update_node_settings(n),
            SelfHostedDbEvents::Exit => self.terminate(),
        }
    }

    /// The address to which the interface is bound, on the stored
    /// snapshot.
    pub fn bind_address(&self, effective: &Effective) -> (r: String)
        ensures
            r@ == api_address(self.snapshot(), *effective),
    {
        join_host_port(self.settings.api_bind.as_str(), effective.api_port)
    }

    /// The database that the interface reports on.
    pub fn database(&self, effective: &Effective) -> (c: DbConfig)
        ensures
            c.host@ == self.snapshot().db_host@,
            c.port == effective.db_port,
            c.user@ == self.snapshot().db_user@,
            c.password@ == self.snapshot().db_password@,
            c.dbname@ == effective.db_name@,
    {
        DbConfig::from_settings(&self.settings, effective)
    }

    /// The line that says that the address of the interface is taken.
    pub fn address_in_use_line(&self, effective: &Effective) -> (r: String)
        ensures
            r@ == address_in_use(self.snapshot(), *effective),
    {
        let address = self.bind_address(effective);
        let mut p = no_pieces();
        push_text(&mut p, "address already in use (");
        push_text(&mut p, address.as_str());
        push_text(&mut p, "): another process is already bound");
        assert(texts(p@) =~= seq![
            "address already in use ("@,
            address@,
            "): another process is already bound"@,
        ]);
        join(&p)
    }

    /// The line that says that the address of the interface is no
    /// address.
    pub fn invalid_bind_line(error: &str) -> (r: String)
        ensures
            r@ == invalid_bind(error@),
    {
        let mut p = no_pieces();
        push_text(&mut p, "invalid bind address: ");
        push_text(&mut p, error);
        assert(texts(p@) =~= seq!["invalid bind address: "@, error@]);
        join(&p)
    }
}

} // verus!

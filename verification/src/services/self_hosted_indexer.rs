//! The block and transaction indexer.
//!
//! The indexer reads from the node over wRPC and writes to the database.
//! It is started once its listen address is free, the database answers
//! and its executable is found.

use crate::launcher::{
    candidate_views, check_views, checking, failing, no_candidates, no_checks, place,
    push_candidate, push_check, Base, Candidate, CandidateView, Check, CheckView, Failure, Gate,
    GateView, Launch,
};
use crate::log_store::LogLevel;
use crate::network::Network;
use crate::readiness::{Announcement, WaitPolicy};
use crate::services::self_hosted_postgres::{conn_str, connection_string};
use crate::services::{action_views, render_all, rendered_all, Action, ServiceTexts};
use crate::settings::{Effective, NodeSettings, SelfHostedSettings, Settings};
use crate::supervisor::{step, Event, Model, StartOutcome, Supervisor};
use crate::text::{
    ascii_lower, ascii_lower_chars, chars_of, concat, count_char, count_char_chars, decimal, find,
    find_char_chars, join, no_pieces, push_chars, push_number, push_piece, push_str, push_text,
    rfind_char, rfind_char_chars, slice_of, starts_with, starts_with_str, string_of, strs, texts,
    trim, trim_chars, trimmed, words, words_chars,
};
use vstd::prelude::*;
use vstd::string::StringExecFns;

verus! {

// ---------------------------------------------------------------------------
// The node's endpoint
// ---------------------------------------------------------------------------

/// The port of the node's wRPC server on a network.
pub open spec fn wrpc_port(network: Network) -> u16 {
    match network {
        Network::Mainnet => 17110,
        _ => 17210,
    }
}

pub fn default_wrpc_port(network: Network) -> (p: u16)
    ensures
        p == wrpc_port(network),
{
    match network {
        Network::Mainnet => 17110,
        Network::Testnet10 => 17210,
        Network::Testnet12 => 17210,
    }
}

/// The name under which the indexer knows a network. The indexer knows
/// one test network only.
pub open spec fn indexer_network(network: Network) -> Seq<char> {
    match network {
        Network::Mainnet => "mainnet"@,
        _ => "testnet-10"@,
    }
}

pub fn indexer_network_arg(node: &NodeSettings) -> (r: &'static str)
    ensures
        r@ == indexer_network(node.network),
{
    match node.network {
        Network::Mainnet => "mainnet",
        Network::Testnet10 => "testnet-10",
        Network::Testnet12 => "testnet-10",
    }
}

/// A text without the `ws://` or `wss://` before it.
pub open spec fn without_ws_scheme(t: Seq<char>) -> Seq<char> {
    if starts_with(t, "ws://"@) {
        t.skip(5)
    } else if starts_with(t, "wss://"@) {
        t.skip(6)
    } else {
        t
    }
}

/// A text up to its first slash.
pub open spec fn before_slash(t: Seq<char>) -> Seq<char> {
    match find(t, seq!['/']) {
        Some(i) => t.take(i),
        None => t,
    }
}

/// The host of a wRPC address: the address without scheme, path and
/// port. An address in square brackets is kept with its brackets; an
/// address with several colons and no brackets is kept whole.
pub open spec fn wrpc_host(value: Seq<char>) -> Seq<char> {
    let h = before_slash(without_ws_scheme(trim(value)));
    if h.len() > 0 && h[0] == '[' {
        match find(h, seq![']']) {
            Some(e) => h.take(e + 1),
            None => h,
        }
    } else if count_char(h, ':') == 1 {
        match rfind_char(h, ':') {
            Some(i) => h.take(i),
            None => h,
        }
    } else {
        h
    }
}

fn wrpc_host_chars(value: &str) -> (r: Vec<char>)
    ensures
        r@ == wrpc_host(value@),
{
    let t = trimmed(value);
    proof {
        reveal_strlit("ws://");
        reveal_strlit("wss://");
    }
    let bare = if starts_with_str(&t, "ws://") {
        let b = slice_of(&t, 5, t.len());
        assert(b@ == t@.skip(5));
        b
    } else if starts_with_str(&t, "wss://") {
        let b = slice_of(&t, 6, t.len());
        assert(b@ == t@.skip(6));
        b
    } else {
        t
    };
    let h = match find_char_chars(&bare, '/') {
        Some(i) => {
            let h = slice_of(&bare, 0, i);
            assert(h@ == bare@.take(i as int));
            h
        },
        None => bare,
    };
    if h.len() > 0 && h[0] == '[' {
        return match find_char_chars(&h, ']') {
            Some(e) => {
                let r = slice_of(&h, 0, e + 1);
                assert(r@ == h@.take(e + 1));
                r
            },
            None => h,
        };
    }
    if count_char_chars(&h, ':') == 1 {
        return match rfind_char_chars(&h, ':') {
            Some(i) => {
                let r = slice_of(&h, 0, i);
                assert(r@ == h@.take(i as int));
                r
            },
            None => h,
        };
    }
    h
}

pub fn sanitize_wrpc_host(value: &str) -> (r: String)
    ensures
        r@ == wrpc_host(value@),
{
    string_of(&wrpc_host_chars(value))
}

/// Whether the indexer's endpoint follows the node: it does where the
/// settings name none or name the node's default on this machine.
pub open spec fn follows_node(url: Seq<char>) -> bool {
    let n = ascii_lower(trim(url));
    ||| n.len() == 0
    ||| starts_with(n, "ws://127.0.0.1:17110"@)
    ||| starts_with(n, "ws://127.0.0.1:17210"@)
    ||| starts_with(n, "ws://localhost:17110"@)
    ||| starts_with(n, "ws://localhost:17210"@)
    ||| starts_with(n, "ws://[::1]:17110"@)
    ||| starts_with(n, "ws://[::1]:17210"@)
}

pub fn should_auto_adjust_indexer_rpc_url(url: &str) -> (b: bool)
    ensures
        b == follows_node(url@),
{
    let n = ascii_lower_chars(&trimmed(url));
    n.len() == 0 || starts_with_str(&n, "ws://127.0.0.1:17110") || starts_with_str(
        &n,
        "ws://127.0.0.1:17210",
    ) || starts_with_str(&n, "ws://localhost:17110") || starts_with_str(&n, "ws://localhost:17210")
        || starts_with_str(&n, "ws://[::1]:17110") || starts_with_str(&n, "ws://[::1]:17210")
}

/// The endpoint at which the indexer reaches the node: the endpoint of
/// the settings, or, where that follows the node, the node's host on the
/// wRPC port of the network.
pub open spec fn indexer_rpc_url(s: SelfHostedSettings, node: NodeSettings) -> Seq<char> {
    if !follows_node(s.indexer_rpc_url@) {
        concat(seq![s.indexer_rpc_url@])
    } else {
        let host = if trim(wrpc_host(node.wrpc_url@)).len() == 0 {
            "127.0.0.1"@
        } else {
            wrpc_host(node.wrpc_url@)
        };
        concat(seq!["ws://"@, host, ":"@, decimal(wrpc_port(node.network) as nat)])
    }
}

pub fn effective_indexer_rpc_url(settings: &SelfHostedSettings, node: &NodeSettings) -> (r: String)
    ensures
        r@ == indexer_rpc_url(*settings, *node),
{
    let mut p = no_pieces();
    if !should_auto_adjust_indexer_rpc_url(settings.indexer_rpc_url.as_str()) {
        push_text(&mut p, settings.indexer_rpc_url.as_str());
        assert(texts(p@) =~= seq![settings.indexer_rpc_url@]);
        return join(&p);
    }
    let sanitized = wrpc_host_chars(node.wrpc_url.as_str());
    let host = if trim_chars(&sanitized).len() == 0 {
        chars_of("127.0.0.1")
    } else {
        sanitized
    };
    push_text(&mut p, "ws://");
    push_piece(&mut p, &host);
    push_text(&mut p, ":");
    push_number(&mut p, default_wrpc_port(node.network) as u64);
    assert(texts(p@) =~= seq![
        "ws://"@,
        host@,
        ":"@,
        decimal(wrpc_port(node.network) as nat),
    ]);
    join(&p)
}

// ---------------------------------------------------------------------------
// The database
// ---------------------------------------------------------------------------

/// The address of the database as the indexer takes it.
pub open spec fn database_url(s: SelfHostedSettings, e: Effective) -> Seq<char> {
    concat(
        seq![
            "postgres://"@,
            s.db_user@,
            ":"@,
            s.db_password@,
            "@"@,
            s.db_host@,
            ":"@,
            decimal(e.db_port as nat),
            "/"@,
            e.db_name@,
        ],
    )
}

pub fn build_database_url(settings: &SelfHostedSettings, effective: &Effective) -> (r: String)
    ensures
        r@ == database_url(*settings, *effective),
{
    let mut p = no_pieces();
    push_text(&mut p, "postgres://");
    push_text(&mut p, settings.db_user.as_str());
    push_text(&mut p, ":");
    push_text(&mut p, settings.db_password.as_str());
    push_text(&mut p, "@");
    push_text(&mut p, settings.db_host.as_str());
    push_text(&mut p, ":");
    push_number(&mut p, effective.db_port as u64);
    push_text(&mut p, "/");
    push_text(&mut p, effective.db_name.as_str());
    assert(texts(p@) =~= seq![
        "postgres://"@,
        settings.db_user@,
        ":"@,
        settings.db_password@,
        "@"@,
        settings.db_host@,
        ":"@,
        decimal(effective.db_port as nat),
        "/"@,
        effective.db_name@,
    ]);
    join(&p)
}

/// What the indexer waits for before it starts: the database server
/// must accept a connection, the database must exist, and it must accept
/// a connection itself. Every connect is given three seconds.
pub open spec fn database_gate(s: SelfHostedSettings, e: Effective) -> GateView {
    GateView::Database {
        server: conn_str(s.db_host@, e.db_port, s.db_user@, Some(s.db_password@), "postgres"@, 3),
        database: Some(e.db_name@),
        target: conn_str(s.db_host@, e.db_port, s.db_user@, Some(s.db_password@), e.db_name@, 3),
        policy: WaitPolicy::database_spec(),
    }
}

/// The query that tells whether the database exists, with the name of
/// the database as its one parameter.
pub const DATABASE_EXISTS_SQL: &'static str = "SELECT 1 FROM pg_database WHERE datname = $1";

pub fn wait_for_database(settings: &SelfHostedSettings, effective: &Effective) -> (g: Gate)
    ensures
        g@ == database_gate(*settings, *effective),
{
    Gate::Database {
        server: connection_string(
            settings.db_host.as_str(),
            effective.db_port,
            settings.db_user.as_str(),
            Some(settings.db_password.as_str()),
            "postgres",
            3,
        ),
        database: Some(effective.db_name.clone()),
        target: connection_string(
            settings.db_host.as_str(),
            effective.db_port,
            settings.db_user.as_str(),
            Some(settings.db_password.as_str()),
            effective.db_name.as_str(),
            3,
        ),
        policy: WaitPolicy::database(),
    }
}

/// The line that tells the operator that the database is waited for.
pub open spec fn database_waiting(a: Announcement) -> Seq<char> {
    match a {
        Announcement::Waiting => "waiting for database"@,
        Announcement::StillWaiting => "still waiting for database"@,
    }
}

pub fn database_waiting_line(a: Announcement) -> (r: &'static str)
    ensures
        r@ == database_waiting(a),
{
    match a {
        Announcement::Waiting => "waiting for database",
        Announcement::StillWaiting => "still waiting for database",
    }
}

/// The line that says that the database exists on no server yet.
pub open spec fn database_missing(name: Seq<char>) -> Seq<char> {
    concat(seq!["database '"@, name, "' is not ready yet"@])
}

pub fn database_missing_line(name: &str) -> (r: String)
    ensures
        r@ == database_missing(name@),
{
    let mut p = no_pieces();
    push_text(&mut p, "database '");
    push_text(&mut p, name);
    push_text(&mut p, "' is not ready yet");
    assert(texts(p@) =~= seq!["database '"@, name@, "' is not ready yet"@]);
    join(&p)
}

/// The line that says that the wait for the database was given up;
/// `last_error` is what the last attempt failed with.
pub open spec fn database_not_ready(last_error: Option<Seq<char>>) -> Seq<char> {
    match last_error {
        Some(e) => concat(seq!["database not ready after retries: "@, e]),
        None => concat(seq!["database not ready after retries"@]),
    }
}

pub fn database_not_ready_line(last_error: Option<&str>) -> (r: String)
    ensures
        r@ == database_not_ready(
            match last_error {
                Some(e) => Some(e@),
                None => None,
            },
        ),
{
    let mut p = no_pieces();
    match last_error {
        Some(e) => {
            push_text(&mut p, "database not ready after retries: ");
            push_text(&mut p, e);
            assert(texts(p@) =~= seq!["database not ready after retries: "@, e@]);
        },
        None => {
            push_text(&mut p, "database not ready after retries");
            assert(texts(p@) =~= seq!["database not ready after retries"@]);
        },
    }
    join(&p)
}

// ---------------------------------------------------------------------------
// Starting the indexer
// ---------------------------------------------------------------------------

/// Where the indexer's executable may lie: at the path of the settings,
/// then in the build output of the indexer under the working directory,
/// then in the same under the directory of the application's executable.
pub open spec fn indexer_places(s: SelfHostedSettings) -> Seq<CandidateView> {
    (if trim(s.indexer_binary@).len() > 0 {
        seq![place(Base::AsGiven, trim(s.indexer_binary@))]
    } else {
        Seq::empty()
    }) + seq![
        place(Base::WorkingDir, "simply-kaspa-indexer/target/release/simply-kaspa-indexer"@),
        place(Base::WorkingDir, "simply-kaspa-indexer/target/debug/simply-kaspa-indexer"@),
        place(Base::ExeDir, "simply-kaspa-indexer/target/release/simply-kaspa-indexer"@),
        place(Base::ExeDir, "simply-kaspa-indexer/target/debug/simply-kaspa-indexer"@),
    ]
}

pub fn find_indexer_binary(settings: &SelfHostedSettings) -> (v: Vec<Candidate>)
    ensures
        candidate_views(v@) == indexer_places(*settings),
{
    let mut v = no_candidates();
    let own = trimmed(settings.indexer_binary.as_str());
    if own.len() > 0 {
        push_candidate(&mut v, Base::AsGiven, string_of(&own));
    }
    push_candidate(
        &mut v,
        Base::WorkingDir,
        String::from_str("simply-kaspa-indexer/target/release/simply-kaspa-indexer"),
    );
    push_candidate(
        &mut v,
        Base::WorkingDir,
        String::from_str("simply-kaspa-indexer/target/debug/simply-kaspa-indexer"),
    );
    push_candidate(
        &mut v,
        Base::ExeDir,
        String::from_str("simply-kaspa-indexer/target/release/simply-kaspa-indexer"),
    );
    push_candidate(
        &mut v,
        Base::ExeDir,
        String::from_str("simply-kaspa-indexer/target/debug/simply-kaspa-indexer"),
    );
    assert(candidate_views(v@) =~= indexer_places(*settings));
    v
}

/// The line that says that the listen address is taken.
pub open spec fn listen_taken(listen: Seq<char>) -> Seq<char> {
    concat(seq!["listen address already in use ("@, listen, "); refusing to start indexer"@])
}

/// What must hold before the indexer is started, in order: its listen
/// address is free, the database answers, its executable is found.
pub open spec fn indexer_checks(s: SelfHostedSettings, e: Effective) -> Seq<CheckView> {
    seq![
        checking(
            GateView::PortFree { address: e.indexer_listen@ },
            failing(StartOutcome::PortInUse, LogLevel::Error, listen_taken(e.indexer_listen@)),
        ),
        checking(database_gate(s, e), failing(StartOutcome::NotReady, LogLevel::Warn, ""@)),
        checking(
            GateView::Located { candidates: indexer_places(s) },
            failing(
                StartOutcome::BinaryMissing,
                LogLevel::Error,
                "binary not found; unable to start simply-kaspa-indexer"@,
            ),
        ),
    ]
}

/// The arguments that the indexer is started with.
pub open spec fn indexer_args(s: SelfHostedSettings, node: NodeSettings, e: Effective) -> Seq<
    Seq<char>,
> {
    seq![
        "-s"@,
        indexer_rpc_url(s, node),
        "-n"@,
        indexer_network(node.network),
        "-d"@,
        database_url(s, e),
        "-l"@,
        e.indexer_listen@,
    ] + (if s.indexer_upgrade_db {
        seq!["-u"@]
    } else {
        Seq::empty()
    }) + words(s.indexer_extra_args@)
}

/// What the operator is told once the indexer runs.
pub open spec fn indexer_started_lines(s: SelfHostedSettings, node: NodeSettings) -> Seq<Seq<char>> {
    seq![
        concat(seq!["using indexer rpc endpoint: "@, indexer_rpc_url(s, node)]),
        if node.network == Network::Testnet12 {
            "using indexer network: testnet-10 (testnet-12 compatibility mode)"@
        } else {
            concat(seq!["using indexer network: "@, indexer_network(node.network)])
        },
        concat(seq!["selected app network: "@, node.network.name()]),
    ]
}

/// The arguments for the indexer.
pub fn indexer_arguments(settings: &SelfHostedSettings, node: &NodeSettings, effective: &Effective) -> (args:
    Vec<String>)
    ensures
        strs(args@) == indexer_args(*settings, *node, *effective),
{
    let mut args: Vec<String> = Vec::new();
    assert(strs(args@) =~= Seq::<Seq<char>>::empty());
    push_str(&mut args, "-s");
    push_str(&mut args, effective_indexer_rpc_url(settings, node).as_str());
    push_str(&mut args, "-n");
    push_str(&mut args, indexer_network_arg(node));
    push_str(&mut args, "-d");
    push_str(&mut args, build_database_url(settings, effective).as_str());
    push_str(&mut args, "-l");
    push_str(&mut args, effective.indexer_listen.as_str());
    if settings.indexer_upgrade_db {
        push_str(&mut args, "-u");
    }
    let ghost fixed = strs(args@);
    let extra = words_chars(&chars_of(settings.indexer_extra_args.as_str()));
    let ghost all = words(settings.indexer_extra_args@);
    let mut i: usize = 0;
    while i < extra.len()
        invariant
            i <= extra.len(),
            extra.len() == all.len(),
            forall|k: int| 0 <= k < extra.len() ==> (#[trigger] extra@[k])@ == all[k],
            strs(args@) == fixed + all.take(i as int),
        decreases extra.len() - i,
    {
        push_chars(&mut args, &extra[i]);
        assert(strs(args@) =~= fixed + all.take(i + 1));
        i = i + 1;
    }
    assert(all.take(extra.len() as int) =~= all);
    assert(strs(args@) =~= indexer_args(*settings, *node, *effective));
    args
}

// ---------------------------------------------------------------------------
// The service
// ---------------------------------------------------------------------------

/// What the settings ask of the service.
#[derive(Clone, Debug, PartialEq, Eq)]
pub enum SelfHostedIndexerEvents {
    Enable,
    Disable,
    UpdateSettings(SelfHostedSettings),
    UpdateNodeSettings(NodeSettings),
    Exit,
}

/// The words of the indexer.
pub open spec fn indexer_texts() -> ServiceTexts {
    ServiceTexts {
        label: "indexer",
        started: "started",
        exit_open: ": exited (",
        exit_close: ")",
        monitor_open: ": monitor error (",
        monitor_close: ")",
        binary_missing: "binary not found",
        spawn_failed: "failed to start",
        exited: "indexer exited",
        monitor_error: "indexer monitor error",
    }
}

/// Whether the settings ask for the indexer.
pub open spec fn indexer_wanted(s: SelfHostedSettings) -> bool {
    s.enabled && s.indexer_enabled
}

/// The indexer under supervision.
pub struct SelfHostedIndexerService {
    core: Supervisor,
    settings: SelfHostedSettings,
    node_settings: NodeSettings,
}

impl SelfHostedIndexerService {
    /// The state of the lifecycle.
    pub closed spec fn state(&self) -> Model {
        self.core@
    }

    /// The self-hosted settings of the stored snapshot.
    pub closed spec fn snapshot(&self) -> SelfHostedSettings {
        self.settings
    }

    /// The node settings of the stored snapshot.
    pub closed spec fn node(&self) -> NodeSettings {
        self.node_settings
    }

    /// The line that says why the service is not started on the stored
    /// snapshot: a service that the settings switch off says nothing.
    pub open spec fn obstacle(&self) -> Seq<char> {
        Seq::empty()
    }

    fn obstacle_line(&self) -> (r: String)
        ensures
            r@ == self.obstacle(),
    {
        String::new()
    }

    fn texts() -> (t: ServiceTexts)
        ensures
            t == indexer_texts(),
    {
        ServiceTexts {
            label: "indexer",
            started: "started",
            exit_open: ": exited (",
            exit_close: ")",
            monitor_open: ": monitor error (",
            monitor_close: ")",
            binary_missing: "binary not found",
            spawn_failed: "failed to start",
            exited: "indexer exited",
            monitor_error: "indexer monitor error",
        }
    }

    /// The indexer as the settings describe it. Nothing runs yet.
    pub fn new(settings: &Settings) -> (s: Self)
        ensures
            s.snapshot() == settings.self_hosted,
            s.node() == settings.node,
            s.state() == (Model {
                enabled: indexer_wanted(settings.self_hosted),
                applicable: indexer_wanted(settings.self_hosted),
                starting: false,
                restart_pending: false,
                live: false,
                done: false,
            }),
    {
        let wanted = settings.self_hosted.enabled && settings.self_hosted.indexer_enabled;
        SelfHostedIndexerService {
            core: Supervisor::new(wanted, wanted),
            settings: settings.self_hosted.duplicate(),
            node_settings: settings.node.duplicate(),
        }
    }

    pub fn is_enabled(&self) -> (b: bool)
        ensures
            b == self.state().enabled,
    {
        self.core.is_enabled()
    }

    pub fn is_running(&self) -> (b: bool)
        ensures
            b == self.state().live,
    {
        self.core.is_running()
    }

    /// Takes an event of the lifecycle. `detail` is the exit status or
    /// the error that came with it, in the words of the operating system.
    pub fn handle(&mut self, e: Event, detail: &str) -> (out: Vec<Action>)
        ensures
            final(self).snapshot() == old(self).snapshot(),
            final(self).node() == old(self).node(),
            final(self).state() == step(old(self).state(), e).0,
            action_views(out@) == rendered_all(
                indexer_texts(),
                step(old(self).state(), e).1,
                detail@,
                final(self).obstacle(),
            ),
    {
        let cmds = self.core.handle(e);
        let obstacle = self.obstacle_line();
        render_all(&Self::texts(), &cmds, detail, obstacle.as_str())
    }

    /// The event of the lifecycle that a request stands for, on the
    /// settings `s` that are stored when it arrives.
    pub open spec fn event_of(request: SelfHostedIndexerEvents, s: SelfHostedSettings) -> Event {
        match request {
            SelfHostedIndexerEvents::Enable => Event::Enable { applicable: indexer_wanted(s) },
            SelfHostedIndexerEvents::Disable => Event::Disable,
            SelfHostedIndexerEvents::UpdateSettings(n) => Event::UpdateSettings {
                applicable: indexer_wanted(n),
            },
            SelfHostedIndexerEvents::UpdateNodeSettings(_) => Event::UpdateSettings {
                applicable: indexer_wanted(s),
            },
            SelfHostedIndexerEvents::Exit => Event::Exit,
        }
    }

    /// Switches the indexer on or off.
    pub fn enable(&mut self, enable: bool) -> (out: Vec<Action>)
        ensures
            final(self).snapshot() == old(self).snapshot(),
            final(self).node() == old(self).node(),
            final(self).state() == step(
                old(self).state(),
                if enable {
                    Event::Enable { applicable: indexer_wanted(old(self).snapshot()) }
                } else {
                    Event::Disable
                },
            ).0,
            action_views(out@) == rendered_all(
                indexer_texts(),
                step(
                    old(self).state(),
                    if enable {
                        Event::Enable { applicable: indexer_wanted(old(self).snapshot()) }
                    } else {
                        Event::Disable
                    },
                ).1,
                ""@,
                final(self).obstacle(),
            ),
    {
        let e = if enable {
            Event::Enable { applicable: self.settings.enabled && self.settings.indexer_enabled }
        } else {
            Event::Disable
        };
        self.handle(e, "")
    }

    /// Replaces the self-hosted settings of the snapshot. An indexer that
    /// is switched on is stopped and started again.
    pub fn update_settings(&mut self, settings: SelfHostedSettings) -> (out: Vec<Action>)
        ensures
            final(self).snapshot() == settings,
            final(self).node() == old(self).node(),
            final(self).state() == step(
                old(self).state(),
                Event::UpdateSettings { applicable: indexer_wanted(settings) },
            ).0,
            action_views(out@) == rendered_all(
                indexer_texts(),
                step(
                    old(self).state(),
                    Event::UpdateSettings { applicable: indexer_wanted(settings) },
                ).1,
                ""@,
                final(self).obstacle(),
            ),
    {
        let applicable = settings.enabled && settings.indexer_enabled;
        self.settings = settings;
        self.handle(Event::UpdateSettings { applicable }, "")
    }

    /// Replaces the node settings of the snapshot. An indexer that is
    /// switched on is stopped and started again.
    pub fn update_node_settings(&mut self, settings: NodeSettings) -> (out: Vec<Action>)
        ensures
            final(self).snapshot() == old(self).snapshot(),
            final(self).node() == settings,
            final(self).state() == step(
                old(self).state(),
                Event::UpdateSettings { applicable: indexer_wanted(old(self).snapshot()) },
            ).0,
            action_views(out@) == rendered_all(
                indexer_texts(),
                step(
                    old(self).state(),
                    Event::UpdateSettings { applicable: indexer_wanted(old(self).snapshot()) },
                ).1,
                ""@,
                final(self).obstacle(),
            ),
    {
        let applicable = self.settings.enabled && self.settings.indexer_enabled;
        self.node_settings = settings;
        self.handle(Event::UpdateSettings { applicable }, "")
    }

    /// Ends the supervision: an indexer that runs is stopped.
    pub fn terminate(&mut self) -> (out: Vec<Action>)
        ensures
            final(self).snapshot() == old(self).snapshot(),
            final(self).node() == old(self).node(),
            final(self).state() == step(old(self).state(), Event::Exit).0,
            action_views(out@) == rendered_all(
                indexer_texts(),
                step(old(self).state(), Event::Exit).1,
                ""@,
                final(self).obstacle(),
            ),
    {
        self.handle(Event::Exit, "")
    }

    /// Takes a request, in the order in which the requests arrive.
    pub fn dispatch(&mut self, request: SelfHostedIndexerEvents) -> (out: Vec<Action>)
        ensures
            final(self).state() == step(
                old(self).state(),
                Self::event_of(request, old(self).snapshot()),
            ).0,
            action_views(out@) == rendered_all(
                indexer_texts(),
                step(old(self).state(), Self::event_of(request, old(self).snapshot())).1,
                ""@,
                final(self).obstacle(),
            ),
            final(self).snapshot() == match request {
                SelfHostedIndexerEvents::UpdateSettings(n) => n,
                _ => old(self).snapshot(),
            },
            final(self).node() == match request {
                SelfHostedIndexerEvents::UpdateNodeSettings(n) => n,
                _ => old(self).node(),
            },
    {
        match request {
            SelfHostedIndexerEvents::Enable => self.enable(true),
            SelfHostedIndexerEvents::Disable => self.enable(false),
            SelfHostedIndexerEvents::UpdateSettings(n) => self.update_settings(n),
            SelfHostedIndexerEvents::UpdateNodeSettings(n) => self.update_node_settings(n),
            SelfHostedIndexerEvents::Exit => self.terminate(),
        }
    }

    /// What must hold before the indexer is started on the stored
    /// snapshot, in the order in which it is tested.
    pub fn checks(&self, effective: &Effective) -> (v: Vec<Check>)
        ensures
            check_views(v@) == indexer_checks(self.snapshot(), *effective),
    {
        let mut taken = no_pieces();
        push_text(&mut taken, "listen address already in use (");
        push_text(&mut taken, effective.indexer_listen.as_str());
        push_text(&mut taken, "); refusing to start indexer");
        assert(texts(taken@) =~= seq![
            "listen address already in use ("@,
            effective.indexer_listen@,
            "); refusing to start indexer"@,
        ]);
        let mut v = no_checks();
        push_check(
            &mut v,
            Gate::PortFree { address: effective.indexer_listen.clone() },
            Failure {
                outcome: StartOutcome::PortInUse,
                level: LogLevel::Error,
                message: join(&taken),
            },
        );
        push_check(
            &mut v,
            wait_for_database(&self.settings, effective),
            Failure {
                outcome: StartOutcome::NotReady,
                level: LogLevel::Warn,
                message: String::from_str(""),
            },
        );
        push_check(
            &mut v,
            Gate::Located { candidates: find_indexer_binary(&self.settings) },
            Failure {
                outcome: StartOutcome::BinaryMissing,
                level: LogLevel::Error,
                message: String::from_str("binary not found; unable to start simply-kaspa-indexer"),
            },
        );
        assert(check_views(v@) =~= indexer_checks(self.snapshot(), *effective));
        v
    }

    /// How the indexer is started from the executable at `binary`, on
    /// the stored snapshot. The indexer leads a process group of its own.
    pub fn command(&self, binary: &str, effective: &Effective) -> (l: Launch)
        ensures
            l.program@ == binary@,
            l.argv() == indexer_args(self.snapshot(), self.node(), *effective),
            l.env() == Seq::<(Seq<char>, Seq<char>)>::empty(),
            l.current_dir is None,
            l.own_process_group,
    {
        let l = Launch {
            program: String::from_str(binary),
            args: indexer_arguments(&self.settings, &self.node_settings, effective),
            envs: Vec::new(),
            current_dir: None,
            own_process_group: true,
        };
        assert(l.env() =~= Seq::<(Seq<char>, Seq<char>)>::empty());
        l
    }

    /// What the operator is told once the indexer runs.
    pub fn started_lines(&self) -> (lines: Vec<String>)
        ensures
            strs(lines@) == indexer_started_lines(self.snapshot(), self.node()),
    {
        let mut lines: Vec<String> = Vec::new();
        assert(strs(lines@) =~= Seq::<Seq<char>>::empty());
        let url = effective_indexer_rpc_url(&self.settings, &self.node_settings);
        let mut a = no_pieces();
        push_text(&mut a, "using indexer rpc endpoint: ");
        push_text(&mut a, url.as_str());
        assert(texts(a@) =~= seq![
            "using indexer rpc endpoint: "@,
            indexer_rpc_url(self.snapshot(), self.node()),
        ]);
        push_str(&mut lines, join(&a).as_str());
        match self.node_settings.network {
            Network::Testnet12 => {
                push_str(
                    &mut lines,
                    "using indexer network: testnet-10 (testnet-12 compatibility mode)",
                );
            },
            _ => {
                let mut b = no_pieces();
                push_text(&mut b, "using indexer network: ");
                push_text(&mut b, indexer_network_arg(&self.node_settings));
                assert(texts(b@) =~= seq![
                    "using indexer network: "@,
                    indexer_network(self.node().network),
                ]);
                push_str(&mut lines, join(&b).as_str());
            },
        }
        let mut c = no_pieces();
        push_text(&mut c, "selected app network: ");
        push_text(&mut c, self.node_settings.network.as_str());
        assert(texts(c@) =~= seq!["selected app network: "@, self.node().network.name()]);
        push_str(&mut lines, join(&c).as_str());
        assert(strs(lines@) =~= indexer_started_lines(self.snapshot(), self.node()));
        lines
    }

    /// What follows where the process could not be started; `error` is
    /// the reason in the words of the operating system.
    pub fn spawn_failed(error: &str) -> (f: Failure)
        ensures
            f.outcome == StartOutcome::SpawnFailed,
            f.level == LogLevel::Error,
            f.message@ == concat(seq!["failed to start ("@, error@, ")"@]),
    {
        let mut p = no_pieces();
        push_text(&mut p, "failed to start (");
        push_text(&mut p, error);
        push_text(&mut p, ")");
        assert(texts(p@) =~= seq!["failed to start ("@, error@, ")"@]);
        Failure { outcome: StartOutcome::SpawnFailed, level: LogLevel::Error, message: join(&p) }
    }
}

} // verus!

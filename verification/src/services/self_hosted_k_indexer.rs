//! The social indexer: a transaction processor and a web server.
//!
//! The two processes work on the same database and stand under one
//! switch, but each has a lifecycle of its own. A periodic tick starts
//! whichever of them is missing. The service runs on the main network
//! only.

use crate::launcher::{
    binary_file, binary_name, candidate_views, check_views, checking, failing, no_candidates,
    no_checks, place, push_candidate, push_check, Base, Candidate, CandidateView, Check, CheckView,
    Failure, Gate, GateView, Launch,
};
use crate::log_store::LogLevel;
use crate::network::Network;
use crate::readiness::WaitPolicy;
use crate::services::self_hosted_postgres::{conn_str, connection_string};
use crate::services::{
    action_views, drop_done, host_port, join_host_port, reachable_host, render_all, rendered_all,
    resolve_bind_host, without_done, Action, Pair, Part, PartActions, PartEvent, ServiceTexts,
    SharedEvent,
};
use crate::settings::{Effective, NodeSettings, SelfHostedSettings, Settings};
use crate::supervisor::{step, Event, Model, StartOutcome};
use crate::text::{
    bool_text, concat, decimal, decimal_string, join, no_pieces, push_bool, push_number, push_str,
    push_text, str_eq, strs, texts,
};
use vstd::prelude::*;
use vstd::string::StringExecFns;

verus! {

/// What the log gets when the periodic reconciliation starts a part
/// anew.
pub const RETRY_LINE: &'static str =
    "retrying K-indexer startup (some child processes are not running)";

/// The name under which the social indexer knows the network, where it
/// knows it: it runs on the main network only.
pub open spec fn k_network_name(network: Network) -> Option<Seq<char>> {
    match network {
        Network::Mainnet => Some("mainnet"@),
        _ => None,
    }
}

pub fn k_network(node: &NodeSettings) -> (r: Option<&'static str>)
    ensures
        match r {
            Some(n) => k_network_name(node.network) == Some(n@),
            None => k_network_name(node.network) is None,
        },
{
    match node.network {
        Network::Mainnet => Some("mainnet"),
        Network::Testnet10 => None,
        Network::Testnet12 => None,
    }
}

/// Whether the settings ask for the social indexer and the network
/// allows it.
pub open spec fn k_wanted(s: SelfHostedSettings, node: NodeSettings) -> bool {
    s.enabled && s.k_enabled && node.network == Network::Mainnet
}

/// The words of the transaction processor.
pub open spec fn processor_texts() -> ServiceTexts {
    ServiceTexts {
        label: "K-transaction-processor",
        started: "started",
        exit_open: " exited with status: ",
        exit_close: "",
        monitor_open: " state check failed: ",
        monitor_close: "",
        binary_missing: "binary not found",
        spawn_failed: "failed to start",
        exited: "process exited",
        monitor_error: "state check failed",
    }
}

/// The words of the web server.
pub open spec fn webserver_texts() -> ServiceTexts {
    ServiceTexts {
        label: "K-webserver",
        started: "started",
        exit_open: " exited with status: ",
        exit_close: "",
        monitor_open: " state check failed: ",
        monitor_close: "",
        binary_missing: "binary not found",
        spawn_failed: "failed to start",
        exited: "process exited",
        monitor_error: "state check failed",
    }
}

pub open spec fn k_texts(part: Part) -> ServiceTexts {
    match part {
        Part::First => processor_texts(),
        Part::Second => webserver_texts(),
    }
}

/// The file name of a part's executable, without what the platform adds.
pub open spec fn k_binary(part: Part) -> Seq<char> {
    match part {
        Part::First => "K-transaction-processor"@,
        Part::Second => "K-webserver"@,
    }
}

/// Why a part is not started on the given snapshot, if it is not. The
/// web server says nothing about the network: the processor has said it.
pub open spec fn k_obstacle(part: Part, s: SelfHostedSettings, node: NodeSettings) -> Seq<char> {
    if !s.enabled || !s.k_enabled {
        match part {
            Part::First => "K-indexer disabled by settings (self-hosted or k_enabled is false)"@,
            Part::Second => "K-webserver disabled by settings (self-hosted or k_enabled is false)"@,
        }
    } else if node.network != Network::Mainnet {
        match part {
            Part::First => "K-indexer is only available on Mainnet"@,
            Part::Second => Seq::empty(),
        }
    } else {
        Seq::empty()
    }
}

/// The address on which the web server listens.
pub open spec fn k_listen(s: SelfHostedSettings) -> Seq<char> {
    host_port(reachable_host(s.api_bind@), s.k_web_port)
}

/// What a part waits for before it starts: the database must accept a
/// connection.
pub open spec fn k_database_gate(s: SelfHostedSettings, e: Effective) -> GateView {
    GateView::Database {
        server: conn_str(s.db_host@, s.db_port, s.db_user@, Some(s.db_password@), e.db_name@, 3),
        database: None,
        target: conn_str(s.db_host@, s.db_port, s.db_user@, Some(s.db_password@), e.db_name@, 3),
        policy: WaitPolicy::database_spec(),
    }
}

/// Where a part's executable may lie: in the build output of the social
/// indexer and of the application under the working directory, then
/// beside the application's executable and in the build output under it.
pub open spec fn k_places(file: Seq<char>) -> Seq<CandidateView> {
    seq![
        place(Base::WorkingDir, concat(seq!["K-indexer/target/release/"@, file])),
        place(Base::WorkingDir, concat(seq!["target/release/"@, file])),
        place(Base::ExeDir, concat(seq![file])),
        place(Base::ExeDir, concat(seq!["K-indexer/target/release/"@, file])),
    ]
}

/// The line that says that the web server's port is taken.
pub open spec fn k_port_taken(listen: Seq<char>) -> Seq<char> {
    concat(seq!["K-webserver port already in use on "@, listen, "; refusing to start"@])
}

/// The line that says that no executable was found.
pub open spec fn k_binary_missing(part: Part) -> Seq<char> {
    concat(seq![k_binary(part), " binary not found"@])
}

/// What must hold before a part is started, in order. Only the web
/// server binds a port.
pub open spec fn k_checks(part: Part, s: SelfHostedSettings, e: Effective, windows: bool) -> Seq<
    CheckView,
> {
    (match part {
        Part::First => Seq::empty(),
        Part::Second => seq![
            checking(
                GateView::PortFree { address: k_listen(s) },
                failing(StartOutcome::PortInUse, LogLevel::Warn, k_port_taken(k_listen(s))),
            ),
        ],
    }) + seq![
        checking(k_database_gate(s, e), failing(StartOutcome::NotReady, LogLevel::Warn, ""@)),
        checking(
            GateView::Located { candidates: k_places(binary_file(k_binary(part), windows)) },
            failing(StartOutcome::BinaryMissing, LogLevel::Warn, k_binary_missing(part)),
        ),
    ]
}

/// The arguments that a part is started with.
pub open spec fn k_args(part: Part, s: SelfHostedSettings, e: Effective) -> Seq<Seq<char>> {
    match part {
        Part::First => seq![
            "-H"@,
            s.db_host@,
            "-P"@,
            decimal(s.db_port as nat),
            "-d"@,
            e.db_name@,
            "-U"@,
            s.db_user@,
            "-p"@,
            s.db_password@,
            "-n"@,
            "mainnet"@,
        ] + (if s.indexer_upgrade_db {
            seq!["-u"@]
        } else {
            Seq::empty()
        }),
        Part::Second => seq![
            "-H"@,
            s.db_host@,
            "-P"@,
            decimal(s.db_port as nat),
            "-d"@,
            e.db_name@,
            "-u"@,
            s.db_user@,
            "-p"@,
            s.db_password@,
            "-b"@,
            k_listen(s),
        ],
    }
}

/// What the operator is told once a part runs.
pub open spec fn k_started_line(part: Part, s: SelfHostedSettings, e: Effective) -> Seq<char> {
    match part {
        Part::First => concat(
            seq![
                "started K-transaction-processor (network=mainnet, db="@,
                s.db_host@,
                ":"@,
                decimal(s.db_port as nat),
                ":"@,
                e.db_name@,
                ")"@,
            ],
        ),
        Part::Second => concat(seq!["K-webserver listening on "@, k_listen(s)]),
    }
}

/// The line that a line of a part's output is kept as.
pub open spec fn k_output_line(part: Part, line: Seq<char>) -> Seq<char> {
    match part {
        Part::First => concat(seq!["processor: "@, line]),
        Part::Second => concat(seq!["webserver: "@, line]),
    }
}

/// The line that says that a start was asked for, and on what settings.
pub open spec fn k_start_requested(s: SelfHostedSettings, node: NodeSettings) -> Seq<char> {
    concat(
        seq![
            "start requested (enabled="@,
            bool_text(s.enabled),
            ", k_enabled="@,
            bool_text(s.k_enabled),
            ", network="@,
            node.network.name(),
            ", k_web_port="@,
            decimal(s.k_web_port as nat),
            ")"@,
        ],
    )
}

/// The line that says why nothing is started when the service begins.
pub open spec fn k_not_starting(s: SelfHostedSettings) -> Seq<char> {
    concat(
        seq![
            "not starting: is_enabled=false (self-hosted="@,
            bool_text(s.enabled),
            ", k_enabled="@,
            bool_text(s.k_enabled),
            ")"@,
        ],
    )
}

/// The line that says that the database is still waited for; `error` is
/// what the wait ended with.
pub open spec fn k_waiting_for_database(error: Seq<char>) -> Seq<char> {
    concat(seq!["waiting for database: "@, error])
}

/// What the settings ask of the service.
#[derive(Clone, Debug, PartialEq, Eq)]
pub enum SelfHostedKIndexerEvents {
    Enable,
    Disable,
    UpdateSettings(SelfHostedSettings),
    UpdateNodeSettings(NodeSettings),
    Exit,
}

/// The social indexer under supervision.
pub struct SelfHostedKIndexerService {
    pair: Pair,
    settings: SelfHostedSettings,
    node_settings: NodeSettings,
    last_blocked_reason: Option<String>,
}

impl SelfHostedKIndexerService {
    /// The state of a part's lifecycle.
    pub closed spec fn state(&self, part: Part) -> Model {
        self.pair.part(part)
    }

    /// The self-hosted settings of the stored snapshot.
    pub closed spec fn snapshot(&self) -> SelfHostedSettings {
        self.settings
    }

    /// The node settings of the stored snapshot.
    pub closed spec fn node(&self) -> NodeSettings {
        self.node_settings
    }

    /// The reason that was last given for not starting a part.
    pub closed spec fn blocked_reason(&self) -> Option<Seq<char>> {
        match self.last_blocked_reason {
            Some(r) => Some(r@),
            None => None,
        }
    }

    /// The line that says why a part is not started on the stored
    /// snapshot; empty where nothing stands in its way.
    pub open spec fn obstacle(&self, part: Part) -> Seq<char> {
        k_obstacle(part, self.snapshot(), self.node())
    }

    fn texts(part: Part) -> (t: ServiceTexts)
        ensures
            t == k_texts(part),
    {
        match part {
            Part::First => ServiceTexts {
                label: "K-transaction-processor",
                started: "started",
                exit_open: " exited with status: ",
                exit_close: "",
                monitor_open: " state check failed: ",
                monitor_close: "",
                binary_missing: "binary not found",
                spawn_failed: "failed to start",
                exited: "process exited",
                monitor_error: "state check failed",
            },
            Part::Second => ServiceTexts {
                label: "K-webserver",
                started: "started",
                exit_open: " exited with status: ",
                exit_close: "",
                monitor_open: " state check failed: ",
                monitor_close: "",
                binary_missing: "binary not found",
                spawn_failed: "failed to start",
                exited: "process exited",
                monitor_error: "state check failed",
            },
        }
    }

    fn wanted(&self) -> (b: bool)
        ensures
            b == k_wanted(self.snapshot(), self.node()),
    {
        self.settings.enabled && self.settings.k_enabled && match self.node_settings.network {
            Network::Mainnet => true,
            _ => false,
        }
    }

    fn obstacle_line(&self, part: Part) -> (r: String)
        ensures
            r@ == self.obstacle(part),
    {
        if !self.settings.enabled || !self.settings.k_enabled {
            match part {
                Part::First => String::from_str(
                    "K-indexer disabled by settings (self-hosted or k_enabled is false)",
                ),
                Part::Second => String::from_str(
                    "K-webserver disabled by settings (self-hosted or k_enabled is false)",
                ),
            }
        } else if k_network(&self.node_settings).is_none() {
            match part {
                Part::First => String::from_str("K-indexer is only available on Mainnet"),
                Part::Second => String::new(),
            }
        } else {
            String::new()
        }
    }

    /// The service as the settings describe it. Nothing runs yet.
    pub fn new(settings: &Settings) -> (s: Self)
        ensures
            s.snapshot() == settings.self_hosted,
            s.node() == settings.node,
            s.blocked_reason() is None,
            s.state(Part::First) == s.state(Part::Second),
            s.state(Part::First) == (Model {
                enabled: k_wanted(settings.self_hosted, settings.node),
                applicable: k_wanted(settings.self_hosted, settings.node),
                starting: false,
                restart_pending: false,
                live: false,
                done: false,
            }),
    {
        let wanted = settings.self_hosted.enabled && settings.self_hosted.k_enabled
            && match settings.node.network {
            Network::Mainnet => true,
            _ => false,
        };
        SelfHostedKIndexerService {
            pair: Pair::new(wanted, wanted),
            settings: settings.self_hosted.duplicate(),
            node_settings: settings.node.duplicate(),
            last_blocked_reason: None,
        }
    }

    pub fn is_enabled(&self) -> (b: bool)
        ensures
            b == self.state(Part::First).enabled,
            b == self.state(Part::Second).enabled,
    {
        self.pair.is_enabled()
    }

    pub fn is_running(&self, part: Part) -> (b: bool)
        ensures
            b == self.state(part).live,
    {
        self.pair.is_running(part)
    }

    /// The line that the log gets when a request arrives to switch the
    /// service on or off: a request that changes the switch is told, one
    /// that leaves it as it is is not.
    pub open spec fn request_text(enabled: bool, enable: bool) -> Option<Seq<char>> {
        if enabled == enable {
            None
        } else if enable {
            Some("enable requested"@)
        } else {
            Some("disable requested"@)
        }
    }

    /// The line that the log gets before a request to switch the service
    /// on or off is taken.
    pub fn request_line(&self, enable: bool) -> (r: Option<&'static str>)
        ensures
            match r {
                Some(line) => Self::request_text(self.state(Part::First).enabled, enable) == Some(
                    line@,
                ),
                None => Self::request_text(self.state(Part::First).enabled, enable) is None,
            },
    {
        if self.is_enabled() == enable {
            None
        } else if enable {
            Some("enable requested")
        } else {
            Some("disable requested")
        }
    }

    /// Whether the periodic reconciliation finds something to do: the
    /// service is switched on and one of its parts does not run.
    pub open spec fn lacks_a_part(&self) -> bool {
        self.state(Part::First).enabled && (!self.state(Part::First).live || !self.state(
            Part::Second,
        ).live)
    }

    /// The line that the log gets before the periodic reconciliation,
    /// where a part is missing.
    pub fn retry_line(&self) -> (r: Option<&'static str>)
        ensures
            r is Some <==> self.lacks_a_part(),
            r matches Some(line) ==> line@ == RETRY_LINE@,
    {
        if self.is_enabled() && (!self.is_running(Part::First) || !self.is_running(Part::Second)) {
            Some(RETRY_LINE)
        } else {
            None
        }
    }

    /// Whether the service has taken the event `e` that concerns both
    /// parts since it was `old`, and `out` is what the caller has to do:
    /// each part has made its transition, and the actions are those that
    /// the parts' supervisors command. The signal that the service has
    /// ended is given once, among the actions of the first part.
    pub open spec fn follows(&self, old: Self, e: Event, out: PartActions) -> bool {
        &&& self.state(Part::First) == step(old.state(Part::First), e).0
        &&& self.state(Part::Second) == step(old.state(Part::Second), e).0
        &&& action_views(out.first@) == rendered_all(
            processor_texts(),
            step(old.state(Part::First), e).1,
            ""@,
            self.obstacle(Part::First),
        )
        &&& action_views(out.second@) == rendered_all(
            webserver_texts(),
            without_done(step(old.state(Part::Second), e).1),
            ""@,
            self.obstacle(Part::Second),
        )
    }

    /// Takes an event that concerns both parts.
    pub fn broadcast(&mut self, e: SharedEvent) -> (out: PartActions)
        ensures
            final(self).snapshot() == old(self).snapshot(),
            final(self).node() == old(self).node(),
            final(self).blocked_reason() == old(self).blocked_reason(),
            final(self).follows(*old(self), e.event(), out),
    {
        let cmds = self.pair.broadcast(e);
        let second = drop_done(&cmds.1);
        let a = self.obstacle_line(Part::First);
        let b = self.obstacle_line(Part::Second);
        PartActions {
            first: render_all(&Self::texts(Part::First), &cmds.0, "", a.as_str()),
            second: render_all(&Self::texts(Part::Second), &second, "", b.as_str()),
        }
    }

    /// Takes an event that concerns one part. `detail` is the exit status
    /// or the error that came with it, in the words of the operating
    /// system.
    pub fn notify(&mut self, part: Part, e: PartEvent, detail: &str) -> (out: Vec<Action>)
        ensures
            final(self).snapshot() == old(self).snapshot(),
            final(self).node() == old(self).node(),
            final(self).blocked_reason() == old(self).blocked_reason(),
            final(self).state(part) == step(old(self).state(part), e.event()).0,
            part == Part::First ==> final(self).state(Part::Second) == old(self).state(Part::Second),
            part == Part::Second ==> final(self).state(Part::First) == old(self).state(Part::First),
            action_views(out@) == rendered_all(
                k_texts(part),
                step(old(self).state(part), e.event()).1,
                detail@,
                final(self).obstacle(part),
            ),
    {
        let cmds = self.pair.notify(part, e);
        let obstacle = self.obstacle_line(part);
        render_all(&Self::texts(part), &cmds, detail, obstacle.as_str())
    }

    /// Switches the service on or off.
    pub fn enable(&mut self, enable: bool) -> (out: PartActions)
        ensures
            final(self).snapshot() == old(self).snapshot(),
            final(self).node() == old(self).node(),
            final(self).blocked_reason() == old(self).blocked_reason(),
            final(self).follows(
                *old(self),
                Self::enable_event(enable, old(self).snapshot(), old(self).node()),
                out,
            ),
    {
        let e = if enable {
            SharedEvent::Enable { applicable: self.wanted() }
        } else {
            SharedEvent::Disable
        };
        self.broadcast(e)
    }

    /// The event that a request to switch the service on or off stands
    /// for.
    pub open spec fn enable_event(enable: bool, s: SelfHostedSettings, node: NodeSettings) -> Event {
        if enable {
            Event::Enable { applicable: k_wanted(s, node) }
        } else {
            Event::Disable
        }
    }

    /// Replaces the self-hosted settings of the snapshot. Parts of a
    /// service that is switched on are stopped and started again.
    pub fn update_settings(&mut self, settings: SelfHostedSettings) -> (out: PartActions)
        ensures
            final(self).snapshot() == settings,
            final(self).node() == old(self).node(),
            final(self).blocked_reason() == old(self).blocked_reason(),
            final(self).follows(
                *old(self),
                Event::UpdateSettings { applicable: k_wanted(settings, old(self).node()) },
                out,
            ),
    {
        self.settings = settings;
        let e = SharedEvent::UpdateSettings { applicable: self.wanted() };
        self.broadcast(e)
    }

    /// Replaces the node settings of the snapshot. Parts of a service
    /// that is switched on are stopped and started again.
    pub fn update_node_settings(&mut self, settings: NodeSettings) -> (out: PartActions)
        ensures
            final(self).snapshot() == old(self).snapshot(),
            final(self).node() == settings,
            final(self).blocked_reason() == old(self).blocked_reason(),
            final(self).follows(
                *old(self),
                Event::UpdateSettings { applicable: k_wanted(old(self).snapshot(), settings) },
                out,
            ),
    {
        self.node_settings = settings;
        let e = SharedEvent::UpdateSettings { applicable: self.wanted() };
        self.broadcast(e)
    }

    /// Ends the supervision: parts that run are stopped.
    pub fn terminate(&mut self) -> (out: PartActions)
        ensures
            final(self).snapshot() == old(self).snapshot(),
            final(self).node() == old(self).node(),
            final(self).blocked_reason() == old(self).blocked_reason(),
            final(self).follows(*old(self), Event::Exit, out),
    {
        self.broadcast(SharedEvent::Exit)
    }

    /// The periodic reconciliation: a part that is missing is started.
    pub fn tick(&mut self) -> (out: PartActions)
        ensures
            final(self).snapshot() == old(self).snapshot(),
            final(self).node() == old(self).node(),
            final(self).blocked_reason() == old(self).blocked_reason(),
            final(self).follows(*old(self), Event::Tick, out),
    {
        self.broadcast(SharedEvent::Tick)
    }

    /// The event of the lifecycle that a request stands for, on the
    /// settings that are stored when it arrives.
    pub open spec fn event_of(
        request: SelfHostedKIndexerEvents,
        s: SelfHostedSettings,
        node: NodeSettings,
    ) -> Event {
        match request {
            SelfHostedKIndexerEvents::Enable => Event::Enable { applicable: k_wanted(s, node) },
            SelfHostedKIndexerEvents::Disable => Event::Disable,
            SelfHostedKIndexerEvents::UpdateSettings(n) => Event::UpdateSettings {
                applicable: k_wanted(n, node),
            },
            SelfHostedKIndexerEvents::UpdateNodeSettings(n) => Event::UpdateSettings {
                applicable: k_wanted(s, n),
            },
            SelfHostedKIndexerEvents::Exit => Event::Exit,
        }
    }

    /// Takes a request, in the order in which the requests arrive.
    pub fn dispatch(&mut self, request: SelfHostedKIndexerEvents) -> (out: PartActions)
        ensures
            final(self).follows(
                *old(self),
                Self::event_of(request, old(self).snapshot(), old(self).node()),
                out,
            ),
            final(self).snapshot() == match request {
                SelfHostedKIndexerEvents::UpdateSettings(n) => n,
                _ => old(self).snapshot(),
            },
            final(self).node() == match request {
                SelfHostedKIndexerEvents::UpdateNodeSettings(n) => n,
                _ => old(self).node(),
            },
    {
        match request {
            SelfHostedKIndexerEvents::Enable => self.enable(true),
            SelfHostedKIndexerEvents::Disable => self.enable(false),
            SelfHostedKIndexerEvents::UpdateSettings(n) => self.update_settings(n),
            SelfHostedKIndexerEvents::UpdateNodeSettings(n) => self.update_node_settings(n),
            SelfHostedKIndexerEvents::Exit => self.terminate(),
        }
    }

    /// Notes a reason for not starting a part, and answers whether the
    /// operator is to be told: a reason is told once, not again while it
    /// stays the same.
    pub fn log_blocked_once(&mut self, message: &str) -> (tell: bool)
        ensures
            tell == (old(self).blocked_reason() != Some(message@)),
            final(self).blocked_reason() == Some(message@),
            final(self).snapshot() == old(self).snapshot(),
            final(self).node() == old(self).node(),
            final(self).state(Part::First) == old(self).state(Part::First),
            final(self).state(Part::Second) == old(self).state(Part::Second),
    {
        let same = match &self.last_blocked_reason {
            Some(r) => str_eq(r.as_str(), message),
            None => false,
        };
        if same {
            return false;
        }
        self.last_blocked_reason = Some(String::from_str(message));
        true
    }

    /// Forgets the reason that was last given: a part was started.
    pub fn clear_blocked_reason(&mut self)
        ensures
            final(self).blocked_reason() is None,
            final(self).snapshot() == old(self).snapshot(),
            final(self).node() == old(self).node(),
            final(self).state(Part::First) == old(self).state(Part::First),
            final(self).state(Part::Second) == old(self).state(Part::Second),
    {
        self.last_blocked_reason = None;
    }

    /// The address on which the web server listens.
    pub fn listen_address(&self) -> (r: String)
        ensures
            r@ == k_listen(self.snapshot()),
    {
        let host = resolve_bind_host(self.settings.api_bind.as_str());
        join_host_port(host.as_str(), self.settings.k_web_port)
    }

    /// Where a part's executable may lie, in the order in which the
    /// places are looked at.
    pub fn find_binary(part: Part, windows: bool) -> (v: Vec<Candidate>)
        ensures
            candidate_views(v@) == k_places(binary_file(k_binary(part), windows)),
    {
        let file = match part {
            Part::First => binary_name("K-transaction-processor", windows),
            Part::Second => binary_name("K-webserver", windows),
        };
        let mut a = no_pieces();
        push_text(&mut a, "K-indexer/target/release/");
        push_text(&mut a, file.as_str());
        assert(texts(a@) =~= seq!["K-indexer/target/release/"@, file@]);
        let mut b = no_pieces();
        push_text(&mut b, "target/release/");
        push_text(&mut b, file.as_str());
        assert(texts(b@) =~= seq!["target/release/"@, file@]);
        let mut c = no_pieces();
        push_text(&mut c, file.as_str());
        assert(texts(c@) =~= seq![file@]);
        let mut v = no_candidates();
        push_candidate(&mut v, Base::WorkingDir, join(&a));
        push_candidate(&mut v, Base::WorkingDir, join(&b));
        push_candidate(&mut v, Base::ExeDir, join(&c));
        push_candidate(&mut v, Base::ExeDir, join(&a));
        assert(candidate_views(v@) =~= k_places(file@));
        v
    }

    fn database_gate(&self, effective: &Effective) -> (g: Gate)
        ensures
            g@ == k_database_gate(self.snapshot(), *effective),
    {
        let conn = connection_string(
            self.settings.db_host.as_str(),
            self.settings.db_port,
            self.settings.db_user.as_str(),
            Some(self.settings.db_password.as_str()),
            effective.db_name.as_str(),
            3,
        );
        Gate::Database {
            server: conn.clone(),
            database: None,
            target: conn,
            policy: WaitPolicy::database(),
        }
    }

    /// What must hold before a part is started on the stored snapshot, in
    /// the order in which it is tested.
    pub fn checks(&self, part: Part, effective: &Effective, windows: bool) -> (v: Vec<Check>)
        ensures
            check_views(v@) == k_checks(part, self.snapshot(), *effective, windows),
    {
        let mut v = no_checks();
        match part {
            Part::First => {},
            Part::Second => {
                let listen = self.listen_address();
                let mut p = no_pieces();
                push_text(&mut p, "K-webserver port already in use on ");
                push_text(&mut p, listen.as_str());
                push_text(&mut p, "; refusing to start");
                assert(texts(p@) =~= seq![
                    "K-webserver port already in use on "@,
                    listen@,
                    "; refusing to start"@,
                ]);
                push_check(
                    &mut v,
                    Gate::PortFree { address: listen },
                    Failure {
                        outcome: StartOutcome::PortInUse,
                        level: LogLevel::Warn,
                        message: join(&p),
                    },
                );
            },
        }
        push_check(
            &mut v,
            self.database_gate(effective),
            Failure {
                outcome: StartOutcome::NotReady,
                level: LogLevel::Warn,
                message: String::from_str(""),
            },
        );
        let mut m = no_pieces();
        match part {
            Part::First => {
                push_text(&mut m, "K-transaction-processor");
            },
            Part::Second => {
                push_text(&mut m, "K-webserver");
            },
        }
        push_text(&mut m, " binary not found");
        assert(texts(m@) =~= seq![k_binary(part), " binary not found"@]);
        push_check(
            &mut v,
            Gate::Located { candidates: Self::find_binary(part, windows) },
            Failure {
                outcome: StartOutcome::BinaryMissing,
                level: LogLevel::Warn,
                message: join(&m),
            },
        );
        assert(check_views(v@) =~= k_checks(part, self.snapshot(), *effective, windows));
        v
    }

    /// How a part is started from the executable at `binary`, on the
    /// stored snapshot. Each part leads a process group of its own.
    pub fn command(&self, part: Part, binary: &str, effective: &Effective) -> (l: Launch)
        ensures
            l.program@ == binary@,
            l.argv() == k_args(part, self.snapshot(), *effective),
            l.env() == Seq::<(Seq<char>, Seq<char>)>::empty(),
            l.current_dir is None,
            l.own_process_group,
    {
        let mut args: Vec<String> = Vec::new();
        assert(strs(args@) =~= Seq::<Seq<char>>::empty());
        push_str(&mut args, "-H");
        push_str(&mut args, self.settings.db_host.as_str());
        push_str(&mut args, "-P");
        push_str(&mut args, decimal_string(self.settings.db_port as u64).as_str());
        push_str(&mut args, "-d");
        push_str(&mut args, effective.db_name.as_str());
        match part {
            Part::First => {
                push_str(&mut args, "-U");
                push_str(&mut args, self.settings.db_user.as_str());
                push_str(&mut args, "-p");
                push_str(&mut args, self.settings.db_password.as_str());
                push_str(&mut args, "-n");
                push_str(&mut args, "mainnet");
                if self.settings.indexer_upgrade_db {
                    push_str(&mut args, "-u");
                }
            },
            Part::Second => {
                push_str(&mut args, "-u");
                push_str(&mut args, self.settings.db_user.as_str());
                push_str(&mut args, "-p");
                push_str(&mut args, self.settings.db_password.as_str());
                push_str(&mut args, "-b");
                push_str(&mut args, self.listen_address().as_str());
            },
        }
        assert(strs(args@) =~= k_args(part, self.snapshot(), *effective));
        let l = Launch {
            program: String::from_str(binary),
            args,
            envs: Vec::new(),
            current_dir: None,
            own_process_group: true,
        };
        assert(l.env() =~= Seq::<(Seq<char>, Seq<char>)>::empty());
        l
    }

    /// What the operator is told once a part runs.
    pub fn started_line(&self, part: Part, effective: &Effective) -> (r: String)
        ensures
            r@ == k_started_line(part, self.snapshot(), *effective),
    {
        let mut p = no_pieces();
        match part {
            Part::First => {
                push_text(&mut p, "started K-transaction-processor (network=mainnet, db=");
                push_text(&mut p, self.settings.db_host.as_str());
                push_text(&mut p, ":");
                push_number(&mut p, self.settings.db_port as u64);
                push_text(&mut p, ":");
                push_text(&mut p, effective.db_name.as_str());
                push_text(&mut p, ")");
                assert(texts(p@) =~= seq![
                    "started K-transaction-processor (network=mainnet, db="@,
                    self.snapshot().db_host@,
                    ":"@,
                    decimal(self.snapshot().db_port as nat),
                    ":"@,
                    effective.db_name@,
                    ")"@,
                ]);
            },
            Part::Second => {
                push_text(&mut p, "K-webserver listening on ");
                push_text(&mut p, self.listen_address().as_str());
                assert(texts(p@) =~= seq![
                    "K-webserver listening on "@,
                    k_listen(self.snapshot()),
                ]);
            },
        }
        join(&p)
    }

    /// The line that a line of a part's output is kept as.
    pub fn output_line(part: Part, line: &str) -> (r: String)
        ensures
            r@ == k_output_line(part, line@),
    {
        let mut p = no_pieces();
        match part {
            Part::First => {
                push_text(&mut p, "processor: ");
                push_text(&mut p, line);
                assert(texts(p@) =~= seq!["processor: "@, line@]);
            },
            Part::Second => {
                push_text(&mut p, "webserver: ");
                push_text(&mut p, line);
                assert(texts(p@) =~= seq!["webserver: "@, line@]);
            },
        }
        join(&p)
    }

    /// The line that says that a start was asked for, and on what
    /// settings.
    pub fn start_requested_line(&self) -> (r: String)
        ensures
            r@ == k_start_requested(self.snapshot(), self.node()),
    {
        let mut p = no_pieces();
        push_text(&mut p, "start requested (enabled=");
        push_bool(&mut p, self.settings.enabled);
        push_text(&mut p, ", k_enabled=");
        push_bool(&mut p, self.settings.k_enabled);
        push_text(&mut p, ", network=");
        push_text(&mut p, self.node_settings.network.as_str());
        push_text(&mut p, ", k_web_port=");
        push_number(&mut p, self.settings.k_web_port as u64);
        push_text(&mut p, ")");
        assert(texts(p@) =~= seq![
            "start requested (enabled="@,
            bool_text(self.snapshot().enabled),
            ", k_enabled="@,
            bool_text(self.snapshot().k_enabled),
            ", network="@,
            self.node().network.name(),
            ", k_web_port="@,
            decimal(self.snapshot().k_web_port as nat),
            ")"@,
        ]);
        join(&p)
    }

    /// The line that says why nothing is started when the service
    /// begins.
    pub fn not_starting_line(&self) -> (r: String)
        ensures
            r@ == k_not_starting(self.snapshot()),
    {
        let mut p = no_pieces();
        push_text(&mut p, "not starting: is_enabled=false (self-hosted=");
        push_bool(&mut p, self.settings.enabled);
        push_text(&mut p, ", k_enabled=");
        push_bool(&mut p, self.settings.k_enabled);
        push_text(&mut p, ")");
        assert(texts(p@) =~= seq![
            "not starting: is_enabled=false (self-hosted="@,
            bool_text(self.snapshot().enabled),
            ", k_enabled="@,
            bool_text(self.snapshot().k_enabled),
            ")"@,
        ]);
        join(&p)
    }

    /// The line that says that the database is still waited for.
    pub fn waiting_for_database_line(error: &str) -> (r: String)
        ensures
            r@ == k_waiting_for_database(error@),
    {
        let mut p = no_pieces();
        push_text(&mut p, "waiting for database: ");
        push_text(&mut p, error);
        assert(texts(p@) =~= seq!["waiting for database: "@, error@]);
        join(&p)
    }

    /// What follows where a part could not be started; `error` is the
    /// reason in the words of the operating system.
    pub fn spawn_failed(part: Part, error: &str) -> (f: Failure)
        ensures
            f.outcome == StartOutcome::SpawnFailed,
            f.level == LogLevel::Warn,
            f.message@ == concat(seq!["failed to start "@, k_binary(part), " ("@, error@, ")"@]),
    {
        let mut p = no_pieces();
        push_text(&mut p, "failed to start ");
        match part {
            Part::First => {
                push_text(&mut p, "K-transaction-processor");
            },
            Part::Second => {
                push_text(&mut p, "K-webserver");
            },
        }
        push_text(&mut p, " (");
        push_text(&mut p, error);
        push_text(&mut p, ")");
        assert(texts(p@) =~= seq!["failed to start "@, k_binary(part), " ("@, error@, ")"@]);
        Failure { outcome: StartOutcome::SpawnFailed, level: LogLevel::Warn, message: join(&p) }
    }
}

} // verus!

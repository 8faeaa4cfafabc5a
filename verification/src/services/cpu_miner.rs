//! The solo CPU miner.
//!
//! The miner runs on the test networks only, and only where a mining
//! address is set. It is restarted when it exits.

use crate::launcher::{
    binary_file, binary_name, build_output_candidates, build_places, candidate_views, Candidate,
    Failure, Launch,
};
use crate::log_store::LogLevel;
use crate::network::Network;
use crate::services::{
    action_views, exit_line, lemma_exit_arms_one_restart, lemma_start_is_told_once, render_all,
    rendered_all, restart_line, started_line, Action, ActionView, ServiceTexts,
};
use crate::settings::{CpuMinerSettings, Settings};
use crate::supervisor::{
    reason_of_exit, step, valid, Event, ExitKind, Model, RestartReason, StartOutcome, Supervisor,
    RESTART_DELAY_SECS,
};
use crate::text::{
    concat, decimal, decimal_string, is_blank, join, no_pieces, push_chars, push_str, push_text,
    strs, texts, trim, trimmed,
};
use vstd::prelude::*;
use vstd::string::StringExecFns;

verus! {

/// The words of the miner.
pub open spec fn miner_texts() -> ServiceTexts {
    ServiceTexts {
        label: "CPU Miner",
        started: "started",
        exit_open: ": exited (",
        exit_close: ")",
        monitor_open: ": monitor error (",
        monitor_close: ")",
        binary_missing: "kaspa-miner binary not found",
        spawn_failed: "failed to start",
        exited: "miner exited",
        monitor_error: "miner monitor error",
    }
}

/// Whether the miner can run on the network.
pub open spec fn miner_supported(network: Network) -> bool {
    network.is_testnet()
}

pub fn is_supported_network(network: Network) -> (b: bool)
    ensures
        b == miner_supported(network),
{
    network.is_test()
}

/// The event that a request to switch the miner on or off stands for.
pub open spec fn miner_enable_event(enabled: bool, network: Network) -> Event {
    if enabled {
        Event::Enable { applicable: miner_supported(network) }
    } else {
        Event::Disable
    }
}

/// The arguments that the miner is started with.
pub open spec fn miner_args(s: CpuMinerSettings) -> Seq<Seq<char>> {
    seq!["--testnet"@, "--mining-address"@, trim(s.mining_address@)] + (if trim(
        s.kaspad_address@,
    ).len() > 0 {
        seq!["--kaspad-address"@, trim(s.kaspad_address@)]
    } else {
        Seq::empty()
    }) + (if s.kaspad_port > 0 {
        seq!["--port"@, decimal(s.kaspad_port as nat)]
    } else {
        Seq::empty()
    }) + (if s.threads > 0 {
        seq!["--threads"@, decimal(s.threads as nat)]
    } else {
        Seq::empty()
    }) + (if s.mine_when_not_synced {
        seq!["--mine-when-not-synced"@]
    } else {
        Seq::empty()
    })
}

/// Why the miner is not started on the given snapshot, if it is not: the
/// network is not a test network, or no mining address is set.
pub open spec fn miner_obstacle(network: Network, s: CpuMinerSettings) -> Option<Seq<char>> {
    if !miner_supported(network) {
        Some("CPU Miner: available only on Testnet 10 and Testnet 12."@)
    } else if trim(s.mining_address@).len() == 0 {
        Some("CPU Miner: mining address is not set (configure it in Settings)."@)
    } else {
        None
    }
}

/// The line that says that the process could not be started; `error` is
/// the reason in the words of the operating system.
pub open spec fn miner_spawn_error(error: Seq<char>) -> Seq<char> {
    concat(seq!["CPU Miner: failed to start ("@, error, ")"@])
}

/// The arguments for the miner on the given settings.
pub fn miner_arguments(s: &CpuMinerSettings) -> (args: Vec<String>)
    ensures
        strs(args@) == miner_args(*s),
{
    let mut args: Vec<String> = Vec::new();
    assert(strs(args@) =~= Seq::<Seq<char>>::empty());
    push_str(&mut args, "--testnet");
    push_str(&mut args, "--mining-address");
    push_chars(&mut args, &trimmed(s.mining_address.as_str()));
    let node = trimmed(s.kaspad_address.as_str());
    if node.len() > 0 {
        push_str(&mut args, "--kaspad-address");
        push_chars(&mut args, &node);
    }
    if s.kaspad_port > 0 {
        push_str(&mut args, "--port");
        let port = decimal_string(s.kaspad_port as u64);
        push_str(&mut args, port.as_str());
    }
    if s.threads > 0 {
        push_str(&mut args, "--threads");
        let threads = decimal_string(s.threads as u64);
        push_str(&mut args, threads.as_str());
    }
    if s.mine_when_not_synced {
        push_str(&mut args, "--mine-when-not-synced");
    }
    assert(strs(args@) =~= miner_args(*s));
    args
}

/// The CPU miner under supervision.
pub struct CpuMinerService {
    core: Supervisor,
    network: Network,
    settings: CpuMinerSettings,
}

impl CpuMinerService {
    /// The state of the lifecycle.
    pub closed spec fn state(&self) -> Model {
        self.core@
    }

    /// The network of the stored snapshot.
    pub closed spec fn net(&self) -> Network {
        self.network
    }

    /// The settings of the stored snapshot.
    pub closed spec fn snapshot(&self) -> CpuMinerSettings {
        self.settings
    }

    /// The line that says why the miner is not started on the stored
    /// snapshot; empty where nothing stands in its way.
    pub open spec fn obstacle(&self) -> Seq<char> {
        match miner_obstacle(self.net(), self.snapshot()) {
            Some(m) => m,
            None => Seq::empty(),
        }
    }

    fn obstacle_line(&self) -> (r: String)
        ensures
            r@ == self.obstacle(),
    {
        match self.preflight() {
            Some(f) => f.message,
            None => String::new(),
        }
    }

    fn texts() -> (t: ServiceTexts)
        ensures
            t == miner_texts(),
    {
        ServiceTexts {
            label: "CPU Miner",
            started: "started",
            exit_open: ": exited (",
            exit_close: ")",
            monitor_open: ": monitor error (",
            monitor_close: ")",
            binary_missing: "kaspa-miner binary not found",
            spawn_failed: "failed to start",
            exited: "miner exited",
            monitor_error: "miner monitor error",
        }
    }

    /// The miner as the settings describe it. Nothing runs yet: where the
    /// miner is switched on, the first thing to hand it is a tick.
    pub fn new(settings: &Settings) -> (s: Self)
        ensures
            s.net() == settings.node.network,
            s.snapshot() == settings.node.cpu_miner,
            s.state() == (Model {
                enabled: settings.node.cpu_miner_enabled,
                applicable: miner_supported(settings.node.network),
                starting: false,
                restart_pending: false,
                live: false,
                done: false,
            }),
    {
        let network = settings.node.network;
        CpuMinerService {
            core: Supervisor::new(settings.node.cpu_miner_enabled, is_supported_network(network)),
            network,
            settings: settings.node.cpu_miner.duplicate(),
        }
    }

    pub fn is_enabled(&self) -> (b: bool)
        ensures
            b == self.state().enabled,
    {
        self.core.is_enabled()
    }

    pub fn is_running(&self) -> (b: bool)
        ensures
            b == self.state().live,
    {
        self.core.is_running()
    }

    pub fn is_restart_pending(&self) -> (b: bool)
        ensures
            b == self.state().restart_pending,
    {
        self.core.is_restart_pending()
    }

    /// Takes an event of the lifecycle. `detail` is the exit status or
    /// the error that came with it, in the words of the operating system.
    pub fn handle(&mut self, e: Event, detail: &str) -> (out: Vec<Action>)
        ensures
            final(self).net() == old(self).net(),
            final(self).snapshot() == old(self).snapshot(),
            final(self).state() == step(old(self).state(), e).0,
            action_views(out@) == rendered_all(
                miner_texts(),
                step(old(self).state(), e).1,
                detail@,
                final(self).obstacle(),
            ),
    {
        let cmds = self.core.handle(e);
        let obstacle = self.obstacle_line();
        render_all(&Self::texts(), &cmds, detail, obstacle.as_str())
    }

    /// Switches the miner on or off, with a new snapshot of the settings.
    /// A miner that runs is stopped first, so that the new settings
    /// apply.
    pub fn enable(&mut self, enabled: bool, network: Network, settings: &CpuMinerSettings) -> (out:
        Vec<Action>)
        ensures
            final(self).net() == network,
            final(self).snapshot() == *settings,
            final(self).state() == step(old(self).state(), miner_enable_event(enabled, network)).0,
            action_views(out@) == rendered_all(
                miner_texts(),
                step(old(self).state(), miner_enable_event(enabled, network)).1,
                ""@,
                final(self).obstacle(),
            ),
    {
        self.network = network;
        self.settings = settings.duplicate();
        let e = if enabled {
            Event::Enable { applicable: is_supported_network(network) }
        } else {
            Event::Disable
        };
        self.handle(e, "")
    }

    /// Replaces the snapshot of the settings. A miner that is switched on
    /// is stopped and started again.
    pub fn update_settings(&mut self, network: Network, settings: &CpuMinerSettings) -> (out: Vec<
        Action,
    >)
        ensures
            final(self).net() == network,
            final(self).snapshot() == *settings,
            final(self).state() == step(
                old(self).state(),
                Event::UpdateSettings { applicable: miner_supported(network) },
            ).0,
            action_views(out@) == rendered_all(
                miner_texts(),
                step(
                    old(self).state(),
                    Event::UpdateSettings { applicable: miner_supported(network) },
                ).1,
                ""@,
                final(self).obstacle(),
            ),
    {
        self.network = network;
        self.settings = settings.duplicate();
        self.handle(Event::UpdateSettings { applicable: is_supported_network(network) }, "")
    }

    /// Ends the supervision: a miner that runs is stopped.
    pub fn terminate(&mut self) -> (out: Vec<Action>)
        ensures
            final(self).snapshot() == old(self).snapshot(),
            final(self).net() == old(self).net(),
            final(self).state() == step(old(self).state(), Event::Exit).0,
            action_views(out@) == rendered_all(
                miner_texts(),
                step(old(self).state(), Event::Exit).1,
                ""@,
                final(self).obstacle(),
            ),
    {
        self.handle(Event::Exit, "")
    }

    /// Why the miner is not started on the stored snapshot, if it is not.
    /// The obstacle is told to the operator, and the attempt ends as
    /// unsupported: it is not an error and is not retried.
    pub fn preflight(&self) -> (r: Option<Failure>)
        ensures
            match r {
                Some(f) => miner_obstacle(self.net(), self.snapshot()) == Some(f.message@)
                    && f.outcome == StartOutcome::Unsupported && f.level == LogLevel::Info,
                None => miner_obstacle(self.net(), self.snapshot()) is None,
            },
    {
        if !is_supported_network(self.network) {
            Some(
                Failure {
                    outcome: StartOutcome::Unsupported,
                    level: LogLevel::Info,
                    message: String::from_str(
                        "CPU Miner: available only on Testnet 10 and Testnet 12.",
                    ),
                },
            )
        } else if is_blank(self.settings.mining_address.as_str()) {
            Some(
                Failure {
                    outcome: StartOutcome::Unsupported,
                    level: LogLevel::Info,
                    message: String::from_str(
                        "CPU Miner: mining address is not set (configure it in Settings).",
                    ),
                },
            )
        } else {
            None
        }
    }

    /// Where the miner's executable may lie, in the order in which the
    /// places are looked at.
    pub fn candidates(windows: bool) -> (v: Vec<Candidate>)
        ensures
            candidate_views(v@) == build_places(binary_file("kaspa-miner"@, windows), "cpuminer"@),
    {
        let file = binary_name("kaspa-miner", windows);
        build_output_candidates(file.as_str(), "cpuminer")
    }

    /// What follows where no executable was found: the operator is told,
    /// and a restart is scheduled.
    pub fn binary_missing() -> (f: Failure)
        ensures
            f.outcome == StartOutcome::BinaryMissing,
            f.level == LogLevel::Info,
            f.message@ == "CPU Miner: kaspa-miner binary not found (build cpuminer first)"@,
    {
        Failure {
            outcome: StartOutcome::BinaryMissing,
            level: LogLevel::Info,
            message: String::from_str(
                "CPU Miner: kaspa-miner binary not found (build cpuminer first)",
            ),
        }
    }

    /// What follows where the process could not be started; `error` is
    /// the reason in the words of the operating system.
    pub fn spawn_failed(error: &str) -> (f: Failure)
        ensures
            f.outcome == StartOutcome::SpawnFailed,
            f.level == LogLevel::Info,
            f.message@ == miner_spawn_error(error@),
    {
        let mut p = no_pieces();
        push_text(&mut p, "CPU Miner: failed to start (");
        push_text(&mut p, error);
        push_text(&mut p, ")");
        assert(texts(p@) =~= seq!["CPU Miner: failed to start ("@, error@, ")"@]);
        Failure { outcome: StartOutcome::SpawnFailed, level: LogLevel::Info, message: join(&p) }
    }

    /// How the miner is started from the executable at `binary`, on the
    /// stored snapshot.
    pub fn command(&self, binary: &str) -> (l: Launch)
        ensures
            l.program@ == binary@,
            l.argv() == miner_args(self.snapshot()),
            l.env() == Seq::<(Seq<char>, Seq<char>)>::empty(),
            l.current_dir is None,
            !l.own_process_group,
    {
        let l = Launch {
            program: String::from_str(binary),
            args: miner_arguments(&self.settings),
            envs: Vec::new(),
            current_dir: None,
            own_process_group: false,
        };
        assert(l.env() =~= Seq::<(Seq<char>, Seq<char>)>::empty());
        l
    }
}

/// Three pieces written one after the other.
proof fn lemma_concat_three(a: Seq<char>, b: Seq<char>, c: Seq<char>)
    ensures
        concat(seq![a, b, c]) == a + b + c,
{
    let abc = seq![a, b, c];
    let ab = seq![a, b];
    let one = seq![a];
    assert(abc.drop_last() =~= ab);
    assert(ab.drop_last() =~= one);
    assert(one.drop_last() =~= Seq::<Seq<char>>::empty());
    assert(concat(Seq::<Seq<char>>::empty()) =~= Seq::<char>::empty());
    assert(concat(one) == concat(one.drop_last()) + one.last());
    assert(concat(one) =~= a);
    assert(concat(ab) == concat(ab.drop_last()) + ab.last());
    assert(concat(ab) =~= a + b);
    assert(concat(abc) == concat(abc.drop_last()) + abc.last());
    assert(concat(abc) =~= a + b + c);
}

/// The lines that the miner's log gets for a start and for a restart
/// after an exit: the first says that the miner has started, the second
/// names the reason and the fixed delay of three seconds.
pub proof fn lemma_miner_lines()
    ensures
        started_line(miner_texts()) == "CPU Miner: started"@,
        restart_line(miner_texts(), RestartReason::Exited)
            == "CPU Miner: miner exited; restarting in 3s"@,
{
    reveal_strlit("CPU Miner");
    reveal_strlit(": ");
    reveal_strlit("started");
    reveal_strlit("CPU Miner: started");
    reveal_strlit("miner exited");
    reveal_strlit("; restarting in ");
    reveal_strlit("s");
    reveal_strlit("CPU Miner: miner exited; restarting in 3s");
    lemma_concat_three("CPU Miner"@, ": "@, "started"@);
    assert("CPU Miner"@ + ": "@ + "started"@ =~= "CPU Miner: started"@);
    let three = decimal(RESTART_DELAY_SECS as nat);
    assert(three =~= seq!['3']);
    let pieces = seq!["CPU Miner"@, ": "@, "miner exited"@, "; restarting in "@, three, "s"@];
    let five = seq!["CPU Miner"@, ": "@, "miner exited"@, "; restarting in "@, three];
    let four = seq!["CPU Miner"@, ": "@, "miner exited"@, "; restarting in "@];
    let head = seq!["CPU Miner"@, ": "@, "miner exited"@];
    assert(pieces.drop_last() =~= five);
    assert(five.drop_last() =~= four);
    assert(four.drop_last() =~= head);
    lemma_concat_three("CPU Miner"@, ": "@, "miner exited"@);
    assert(concat(four) == concat(four.drop_last()) + four.last());
    assert(concat(five) == concat(five.drop_last()) + five.last());
    assert(concat(pieces) == concat(pieces.drop_last()) + pieces.last());
    assert(concat(pieces) =~= "CPU Miner: miner exited; restarting in 3s"@);
}

/// The miner's share of the law on starts and exits: a start that
/// succeeded adds the one line that says so, and the loss of the running
/// miner is followed by exactly one line that names the restart in three
/// seconds and by one armed restart.
pub proof fn lemma_miner_start_and_exit(m: Model, kind: ExitKind, detail: Seq<char>, obstacle: Seq<char>)
    requires
        valid(m),
    ensures
        m.starting && m.enabled ==> rendered_all(
            miner_texts(),
            step(m, Event::Started(StartOutcome::Spawned)).1,
            detail,
            obstacle,
        ) == seq![crate::services::log(LogLevel::Info, "CPU Miner: started"@)],
        m.live && m.applicable && !m.restart_pending ==> rendered_all(
            miner_texts(),
            step(m, Event::ChildExited(kind)).1,
            detail,
            obstacle,
        ) == seq![
            crate::services::log(LogLevel::Warn, exit_line(miner_texts(), kind, detail)),
            crate::services::log(
                LogLevel::Info,
                restart_line(miner_texts(), reason_of_exit(kind)),
            ),
            ActionView::ArmRestart { delay_secs: RESTART_DELAY_SECS },
        ],
{
    lemma_miner_lines();
    if m.starting && m.enabled {
        lemma_start_is_told_once(miner_texts(), m, detail, obstacle);
    }
    if m.live && m.applicable && !m.restart_pending {
        lemma_exit_arms_one_restart(miner_texts(), m, kind, detail, obstacle);
    }
}

} // verus!

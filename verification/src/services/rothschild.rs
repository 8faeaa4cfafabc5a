//! The transaction generator.
//!
//! The generator runs on the test networks only, and only where a private
//! key and an address are set. It is restarted when it exits.

use crate::launcher::{
    binary_file, binary_name, build_output_candidates, build_places, candidate_views, Candidate,
    Failure, Launch,
};
use crate::log_store::LogLevel;
use crate::network::Network;
use crate::services::{action_views, render_all, rendered_all, Action, ServiceTexts};
use crate::settings::{RothschildSettings, Settings};
use crate::supervisor::{step, Event, Model, StartOutcome, Supervisor};
use crate::text::{
    concat, decimal, decimal_string, is_blank, join, no_pieces, push_chars, push_str, push_text,
    strs, texts, trim, trimmed,
};
use vstd::prelude::*;
use vstd::string::StringExecFns;

verus! {

/// The words of the generator.
pub open spec fn rothschild_texts() -> ServiceTexts {
    ServiceTexts {
        label: "Rothschild",
        started: "started",
        exit_open: ": exited (",
        exit_close: ")",
        monitor_open: ": monitor error (",
        monitor_close: ")",
        binary_missing: "binary not found",
        spawn_failed: "failed to start",
        exited: "rothschild exited",
        monitor_error: "rothschild monitor error",
    }
}

/// Whether the generator can run on the network.
pub open spec fn rothschild_supported(network: Network) -> bool {
    network.is_testnet()
}

pub fn is_supported_network(network: Network) -> (b: bool)
    ensures
        b == rothschild_supported(network),
{
    network.is_test()
}

/// The event that a request to switch the generator on or off stands for.
pub open spec fn rothschild_enable_event(enabled: bool, network: Network) -> Event {
    if enabled {
        Event::Enable { applicable: rothschild_supported(network) }
    } else {
        Event::Disable
    }
}

/// The rate at which transactions are generated: at least one a second.
pub open spec fn effective_tps(tps: u64) -> u64 {
    if tps < 1 {
        1
    } else {
        tps
    }
}

/// The arguments that the generator is started with.
pub open spec fn rothschild_args(s: RothschildSettings) -> Seq<Seq<char>> {
    seq!["--tps"@, decimal(effective_tps(s.tps) as nat)] + (if trim(s.rpc_server@).len() > 0 {
        seq!["--rpcserver"@, trim(s.rpc_server@)]
    } else {
        Seq::empty()
    }) + (if s.threads > 0 {
        seq!["--threads"@, decimal(s.threads as nat)]
    } else {
        Seq::empty()
    }) + seq!["--private-key"@, trim(s.private_key@), "--to-addr"@, trim(s.address@)]
}

/// Why the generator is not started on the given snapshot, if it is
/// not: the network is not a test network, or the private key or the
/// address is not set.
pub open spec fn rothschild_obstacle(network: Network, s: RothschildSettings) -> Option<Seq<char>> {
    if !rothschild_supported(network) {
        Some("Rothschild: available only on Testnet 10 and Testnet 12."@)
    } else if trim(s.private_key@).len() == 0 {
        Some("Rothschild: private key is not set (configure it in Settings)."@)
    } else if trim(s.address@).len() == 0 {
        Some("Rothschild: address is not set (configure it in Settings)."@)
    } else {
        None
    }
}

/// The line that says that the process could not be started; `error` is
/// the reason in the words of the operating system.
pub open spec fn rothschild_spawn_error(error: Seq<char>) -> Seq<char> {
    concat(seq!["Rothschild: failed to start ("@, error, ")"@])
}

/// The arguments for the generator on the given settings.
pub fn rothschild_arguments(s: &RothschildSettings) -> (args: Vec<String>)
    ensures
        strs(args@) == rothschild_args(*s),
{
    let mut args: Vec<String> = Vec::new();
    assert(strs(args@) =~= Seq::<Seq<char>>::empty());
    push_str(&mut args, "--tps");
    let tps: u64 = if s.tps < 1 {
        1
    } else {
        s.tps
    };
    let rate = decimal_string(tps);
    push_str(&mut args, rate.as_str());
    let server = trimmed(s.rpc_server.as_str());
    if server.len() > 0 {
        push_str(&mut args, "--rpcserver");
        push_chars(&mut args, &server);
    }
    if s.threads > 0 {
        push_str(&mut args, "--threads");
        let threads = decimal_string(s.threads as u64);
        push_str(&mut args, threads.as_str());
    }
    push_str(&mut args, "--private-key");
    push_chars(&mut args, &trimmed(s.private_key.as_str()));
    push_str(&mut args, "--to-addr");
    push_chars(&mut args, &trimmed(s.address.as_str()));
    assert(strs(args@) =~= rothschild_args(*s));
    args
}

/// The transaction generator under supervision.
pub struct RothschildService {
    core: Supervisor,
    network: Network,
    settings: RothschildSettings,
}

impl RothschildService {
    /// The state of the lifecycle.
    pub closed spec fn state(&self) -> Model {
        self.core@
    }

    /// The network of the stored snapshot.
    pub closed spec fn net(&self) -> Network {
        self.network
    }

    /// The settings of the stored snapshot.
    pub closed spec fn snapshot(&self) -> RothschildSettings {
        self.settings
    }

    /// The line that says why the generator is not started on the stored
    /// snapshot; empty where nothing stands in its way.
    pub open spec fn obstacle(&self) -> Seq<char> {
        match rothschild_obstacle(self.net(), self.snapshot()) {
            Some(m) => m,
            None => Seq::empty(),
        }
    }

    fn obstacle_line(&self) -> (r: String)
        ensures
            r@ == self.obstacle(),
    {
        match self.preflight() {
            Some(f) => f.message,
            None => String::new(),
        }
    }

    fn texts() -> (t: ServiceTexts)
        ensures
            t == rothschild_texts(),
    {
        ServiceTexts {
            label: "Rothschild",
            started: "started",
            exit_open: ": exited (",
            exit_close: ")",
            monitor_open: ": monitor error (",
            monitor_close: ")",
            binary_missing: "binary not found",
            spawn_failed: "failed to start",
            exited: "rothschild exited",
            monitor_error: "rothschild monitor error",
        }
    }

    /// The generator as the settings describe it. Nothing runs yet: where
    /// it is switched on, the first thing to hand it is a tick.
    pub fn new(settings: &Settings) -> (s: Self)
        ensures
            s.net() == settings.node.network,
            s.snapshot() == settings.node.rothschild,
            s.state() == (Model {
                enabled: settings.node.rothschild_enabled,
                applicable: rothschild_supported(settings.node.network),
                starting: false,
                restart_pending: false,
                live: false,
                done: false,
            }),
    {
        let network = settings.node.network;
        RothschildService {
            core: Supervisor::new(settings.node.rothschild_enabled, is_supported_network(network)),
            network,
            settings: settings.node.rothschild.duplicate(),
        }
    }

    pub fn is_enabled(&self) -> (b: bool)
        ensures
            b == self.state().enabled,
    {
        self.core.is_enabled()
    }

    pub fn is_running(&self) -> (b: bool)
        ensures
            b == self.state().live,
    {
        self.core.is_running()
    }

    pub fn is_restart_pending(&self) -> (b: bool)
        ensures
            b == self.state().restart_pending,
    {
        self.core.is_restart_pending()
    }

    /// Takes an event of the lifecycle. `detail` is the exit status or
    /// the error that came with it, in the words of the operating system.
    pub fn handle(&mut self, e: Event, detail: &str) -> (out: Vec<Action>)
        ensures
            final(self).net() == old(self).net(),
            final(self).snapshot() == old(self).snapshot(),
            final(self).state() == step(old(self).state(), e).0,
            action_views(out@) == rendered_all(
                rothschild_texts(),
                step(old(self).state(), e).1,
                detail@,
                final(self).obstacle(),
            ),
    {
        let cmds = self.core.handle(e);
        let obstacle = self.obstacle_line();
        render_all(&Self::texts(), &cmds, detail, obstacle.as_str())
    }

    /// Switches the generator on or off, with a new snapshot of the
    /// settings. A generator that runs is stopped first, so that the new
    /// settings apply.
    pub fn enable(&mut self, enabled: bool, network: Network, settings: &RothschildSettings) -> (out:
        Vec<Action>)
        ensures
            final(self).net() == network,
            final(self).snapshot() == *settings,
            final(self).state() == step(old(self).state(), rothschild_enable_event(enabled, network)).0,
            action_views(out@) == rendered_all(
                rothschild_texts(),
                step(old(self).state(), rothschild_enable_event(enabled, network)).1,
                ""@,
                final(self).obstacle(),
            ),
    {
        self.network = network;
        self.settings = settings.duplicate();
        let e = if enabled {
            Event::Enable { applicable: is_supported_network(network) }
        } else {
            Event::Disable
        };
        self.handle(e, "")
    }

    /// Replaces the snapshot of the settings. A generator that is
    /// switched on is stopped and started again.
    pub fn update_settings(&mut self, network: Network, settings: &RothschildSettings) -> (out: Vec<
        Action,
    >)
        ensures
            final(self).net() == network,
            final(self).snapshot() == *settings,
            final(self).state() == step(
                old(self).state(),
                Event::UpdateSettings { applicable: rothschild_supported(network) },
            ).0,
            action_views(out@) == rendered_all(
                rothschild_texts(),
                step(
                    old(self).state(),
                    Event::UpdateSettings { applicable: rothschild_supported(network) },
                ).1,
                ""@,
                final(self).obstacle(),
            ),
    {
        self.network = network;
        self.settings = settings.duplicate();
        self.handle(Event::UpdateSettings { applicable: is_supported_network(network) }, "")
    }

    /// Ends the supervision: a generator that runs is stopped.
    pub fn terminate(&mut self) -> (out: Vec<Action>)
        ensures
            final(self).snapshot() == old(self).snapshot(),
            final(self).net() == old(self).net(),
            final(self).state() == step(old(self).state(), Event::Exit).0,
            action_views(out@) == rendered_all(
                rothschild_texts(),
                step(old(self).state(), Event::Exit).1,
                ""@,
                final(self).obstacle(),
            ),
    {
        self.handle(Event::Exit, "")
    }

    /// Why the generator is not started on the stored snapshot, if it is
    /// not.
    /// The obstacle is told to the operator, and the attempt ends as
    /// unsupported: it is not an error and is not retried.
    pub fn preflight(&self) -> (r: Option<Failure>)
        ensures
            match r {
                Some(f) => rothschild_obstacle(self.net(), self.snapshot()) == Some(f.message@)
                    && f.outcome == StartOutcome::Unsupported && f.level == LogLevel::Info,
                None => rothschild_obstacle(self.net(), self.snapshot()) is None,
            },
    {
        let message = if !is_supported_network(self.network) {
            "Rothschild: available only on Testnet 10 and Testnet 12."
        } else if is_blank(self.settings.private_key.as_str()) {
            "Rothschild: private key is not set (configure it in Settings)."
        } else if is_blank(self.settings.address.as_str()) {
            "Rothschild: address is not set (configure it in Settings)."
        } else {
            return None;
        };
        Some(
            Failure {
                outcome: StartOutcome::Unsupported,
                level: LogLevel::Info,
                message: String::from_str(message),
            },
        )
    }

    /// Where the generator's executable may lie, in the order in which the
    /// places are looked at.
    pub fn candidates(windows: bool) -> (v: Vec<Candidate>)
        ensures
            candidate_views(v@) == build_places(binary_file("rothschild"@, windows), "rusty-kaspa"@),
    {
        let file = binary_name("rothschild", windows);
        build_output_candidates(file.as_str(), "rusty-kaspa")
    }

    /// What follows where no executable was found: the operator is told,
    /// and a restart is scheduled.
    pub fn binary_missing() -> (f: Failure)
        ensures
            f.outcome == StartOutcome::BinaryMissing,
            f.level == LogLevel::Info,
            f.message@ == "Rothschild: binary not found (build rothschild first)"@,
    {
        Failure {
            outcome: StartOutcome::BinaryMissing,
            level: LogLevel::Info,
            message: String::from_str("Rothschild: binary not found (build rothschild first)"),
        }
    }

    /// What follows where the process could not be started; `error` is
    /// the reason in the words of the operating system.
    pub fn spawn_failed(error: &str) -> (f: Failure)
        ensures
            f.outcome == StartOutcome::SpawnFailed,
            f.level == LogLevel::Info,
            f.message@ == rothschild_spawn_error(error@),
    {
        let mut p = no_pieces();
        push_text(&mut p, "Rothschild: failed to start (");
        push_text(&mut p, error);
        push_text(&mut p, ")");
        assert(texts(p@) =~= seq!["Rothschild: failed to start ("@, error@, ")"@]);
        Failure { outcome: StartOutcome::SpawnFailed, level: LogLevel::Info, message: join(&p) }
    }

    /// How the generator is started from the executable at `binary`, on the
    /// stored snapshot.
    pub fn command(&self, binary: &str) -> (l: Launch)
        ensures
            l.program@ == binary@,
            l.argv() == rothschild_args(self.snapshot()),
            l.env() == Seq::<(Seq<char>, Seq<char>)>::empty(),
            l.current_dir is None,
            !l.own_process_group,
    {
        let l = Launch {
            program: String::from_str(binary),
            args: rothschild_arguments(&self.settings),
            envs: Vec::new(),
            current_dir: None,
            own_process_group: false,
        };
        assert(l.env() =~= Seq::<(Seq<char>, Seq<char>)>::empty());
        l
    }
}

} // verus!

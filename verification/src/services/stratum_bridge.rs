//! The stratum bridge, through which miners reach the local node.
//!
//! The bridge is started beside a local node whose gRPC server is
//! switched on, and waits for that server before it starts. It takes its
//! settings from a configuration file that is written before each start.

use crate::launcher::{
    binary_file, binary_name, build_output_candidates, build_places, candidate_views, Candidate,
    Failure, Launch,
};
use crate::log_store::LogLevel;
use crate::readiness::Announcement;
use crate::services::{action_views, render_all, rendered_all, Action, ServiceTexts};
use crate::settings::{NetworkInterfaceKind, NodeSettings, Settings, StratumBridgeSettings};
use crate::supervisor::{step, Event, Model, StartOutcome, Supervisor};
use crate::text::{
    all_digits, all_digits_chars, chars_of, concat, contains, decimal, find, find_char_chars,
    find_str, join, no_pieces, push_bool, push_number, push_piece, push_str, push_text,
    replace_char, replace_char_chars, slice_of, string_of, strip_end, strip_end_chars, strs, texts,
    bool_text, trim, trim_chars, trimmed, CharClass,
};
use vstd::prelude::*;
use vstd::string::StringExecFns;

verus! {

/// The port of the node's gRPC server where the settings name none.
pub const DEFAULT_GRPC_PORT: u16 = 16110;

/// The name of the configuration file, which lies in the directory for
/// temporary files.
pub const CONFIG_FILE_NAME: &'static str = "kaspa-ng-bridge-config.yaml";

// ---------------------------------------------------------------------------
// Addresses and ports
// ---------------------------------------------------------------------------

/// The address of the node's gRPC server as the bridge reaches it: the
/// loopback address unless the settings name another, on the default port
/// unless the address names one. `None` where the server is switched off.
pub open spec fn grpc_address(s: NodeSettings) -> Option<Seq<char>> {
    if !s.enable_grpc {
        None
    } else {
        let addr = match s.grpc_network_interface.kind {
            NetworkInterfaceKind::Local => "127.0.0.1"@,
            NetworkInterfaceKind::Any => "127.0.0.1"@,
            NetworkInterfaceKind::Custom => s.grpc_network_interface.custom@,
        };
        if contains(addr, seq![':']) {
            Some(concat(seq![addr]))
        } else {
            Some(concat(seq![addr, ":"@, decimal(DEFAULT_GRPC_PORT as nat)]))
        }
    }
}

pub fn grpc_address_from_settings(settings: &NodeSettings) -> (r: Option<String>)
    ensures
        match r {
            Some(a) => grpc_address(*settings) == Some(a@),
            None => grpc_address(*settings) is None,
        },
{
    if !settings.enable_grpc {
        return None;
    }
    let addr = match settings.grpc_network_interface.kind {
        NetworkInterfaceKind::Local => chars_of("127.0.0.1"),
        NetworkInterfaceKind::Any => chars_of("127.0.0.1"),
        NetworkInterfaceKind::Custom => chars_of(settings.grpc_network_interface.custom.as_str()),
    };
    let mut p = no_pieces();
    push_piece(&mut p, &addr);
    if find_char_chars(&addr, ':').is_some() {
        assert(texts(p@) =~= seq![addr@]);
    } else {
        push_text(&mut p, ":");
        push_number(&mut p, DEFAULT_GRPC_PORT as u64);
        assert(texts(p@) =~= seq![addr@, ":"@, decimal(DEFAULT_GRPC_PORT as nat)]);
    }
    Some(join(&p))
}

/// An address without the scheme before it and the slashes after it.
pub open spec fn bare_address(address: Seq<char>) -> Seq<char> {
    let t = trim(address);
    let rest = match find(t, "://"@) {
        Some(i) => t.skip(i + 3),
        None => t,
    };
    strip_end(rest, CharClass::Only('/'))
}

pub fn sanitize_grpc_address(address: &str) -> (r: String)
    ensures
        r@ == bare_address(address@),
{
    let t = trimmed(address);
    proof {
        reveal_strlit("://");
    }
    let rest = match find_str(&t, "://") {
        Some(i) => {
            let rest = slice_of(&t, i + 3, t.len());
            assert(rest@ == t@.skip(i + 3));
            rest
        },
        None => t,
    };
    let bare = strip_end_chars(&rest, CharClass::Only('/'));
    string_of(&bare)
}

/// A port as the bridge wants it written: with a colon before the
/// number. A text that is no number is left as it is.
pub open spec fn port_text(value: Seq<char>) -> Seq<char> {
    let t = trim(value);
    if t.len() == 0 {
        t
    } else if t[0] == ':' {
        t
    } else if all_digits(t) {
        seq![':'] + t
    } else {
        t
    }
}

pub fn normalize_port(value: &str) -> (r: String)
    ensures
        r@ == port_text(value@),
{
    let t = trimmed(value);
    if t.len() == 0 {
        return string_of(&t);
    }
    if t[0] == ':' {
        return string_of(&t);
    }
    if all_digits_chars(&t) {
        let mut out: Vec<char> = Vec::new();
        out.push(':');
        crate::text::extend_chars(&mut out, &t);
        assert(out@ =~= seq![':'] + t@);
        return string_of(&out);
    }
    string_of(&t)
}

/// A text as it stands between double quotes in the configuration: line
/// breaks become blanks, backslashes and double quotes are escaped.
pub open spec fn yaml_escaped(value: Seq<char>) -> Seq<char> {
    replace_char(
        replace_char(replace_char(replace_char(value, '\r', " "@), '\n', " "@), '\\', "\\\\"@),
        '"',
        "\\\""@,
    )
}

pub fn escape_yaml_str(value: &str) -> (r: String)
    ensures
        r@ == yaml_escaped(value@),
{
    let v = chars_of(value);
    let a = replace_char_chars(&v, '\r', " ");
    let b = replace_char_chars(&a, '\n', " ");
    let c = replace_char_chars(&b, '\\', "\\\\");
    let d = replace_char_chars(&c, '"', "\\\"");
    string_of(&d)
}

// ---------------------------------------------------------------------------
// The configuration file
// ---------------------------------------------------------------------------

/// The stratum port in the configuration: the port of the settings, or
/// `:5555` where they name none.
pub open spec fn stratum_port_text(b: StratumBridgeSettings) -> Seq<char> {
    if port_text(b.stratum_port@).len() == 0 {
        ":5555"@
    } else {
        port_text(b.stratum_port@)
    }
}

pub open spec fn at_least_one(n: nat) -> nat {
    if n < 1 {
        1
    } else {
        n
    }
}

pub open spec fn at_most_three(n: nat) -> nat {
    if n > 3 {
        3
    } else {
        n
    }
}

/// The head of the configuration: the node and the timing.
pub open spec fn config_head(kaspad_address: Seq<char>, b: StratumBridgeSettings) -> Seq<char> {
    concat(
        seq![
            "# Autogenerated by Kaspa-NG\nkaspad_address: \""@,
            yaml_escaped(kaspad_address),
            "\"\nblock_wait_time: "@,
            decimal(at_least_one(b.block_wait_time_ms as nat)),
            "\nprint_stats: "@,
            bool_text(b.print_stats),
            "\nlog_to_file: "@,
            bool_text(b.log_to_file),
            "\nhealth_check_port: \""@,
            port_text(b.health_check_port@),
            "\"\n"@,
        ],
    )
}

/// The middle of the configuration: the difficulty.
pub open spec fn config_difficulty(b: StratumBridgeSettings) -> Seq<char> {
    concat(
        seq![
            "var_diff: "@,
            bool_text(b.var_diff),
            "\nshares_per_min: "@,
            decimal(at_least_one(b.shares_per_min as nat)),
            "\nvar_diff_stats: "@,
            bool_text(b.var_diff_stats),
            "\npow2_clamp: "@,
            bool_text(b.pow2_clamp),
            "\nextranonce_size: "@,
            decimal(at_most_three(b.extranonce_size as nat)),
            "\n"@,
        ],
    )
}

/// The end of the configuration: the tag and the one instance.
pub open spec fn config_tail(b: StratumBridgeSettings) -> Seq<char> {
    concat(
        seq![
            "coinbase_tag_suffix: \""@,
            yaml_escaped(trim(b.coinbase_tag_suffix@)),
            "\"\n\ninstances:\n  - stratum_port: \""@,
            stratum_port_text(b),
            "\"\n    min_share_diff: "@,
            decimal(at_least_one(b.min_share_diff as nat)),
            "\n"@,
        ],
    )
}

/// The configuration that the bridge is started with.
pub open spec fn config_text(kaspad_address: Seq<char>, b: StratumBridgeSettings) -> Seq<char> {
    concat(seq![config_head(kaspad_address, b), config_difficulty(b), config_tail(b)])
}

fn config_head_chars(kaspad_address: &str, b: &StratumBridgeSettings) -> (r: Vec<char>)
    ensures
        r@ == config_head(kaspad_address@, *b),
{
    let address = escape_yaml_str(kaspad_address);
    let health = normalize_port(b.health_check_port.as_str());
    let wait: u64 = if b.block_wait_time_ms < 1 {
        1
    } else {
        b.block_wait_time_ms
    };
    let mut p = no_pieces();
    push_text(&mut p, "# Autogenerated by Kaspa-NG\nkaspad_address: \"");
    push_text(&mut p, address.as_str());
    push_text(&mut p, "\"\nblock_wait_time: ");
    push_number(&mut p, wait);
    push_text(&mut p, "\nprint_stats: ");
    push_bool(&mut p, b.print_stats);
    push_text(&mut p, "\nlog_to_file: ");
    push_bool(&mut p, b.log_to_file);
    push_text(&mut p, "\nhealth_check_port: \"");
    push_text(&mut p, health.as_str());
    push_text(&mut p, "\"\n");
    assert(texts(p@) =~= seq![
        "# Autogenerated by Kaspa-NG\nkaspad_address: \""@,
        yaml_escaped(kaspad_address@),
        "\"\nblock_wait_time: "@,
        decimal(at_least_one(b.block_wait_time_ms as nat)),
        "\nprint_stats: "@,
        bool_text(b.print_stats),
        "\nlog_to_file: "@,
        bool_text(b.log_to_file),
        "\nhealth_check_port: \""@,
        port_text(b.health_check_port@),
        "\"\n"@,
    ]);
    crate::text::join_chars(&p)
}

fn config_difficulty_chars(b: &StratumBridgeSettings) -> (r: Vec<char>)
    ensures
        r@ == config_difficulty(*b),
{
    let shares: u64 = if b.shares_per_min < 1 {
        1
    } else {
        b.shares_per_min as u64
    };
    let extranonce: u64 = if b.extranonce_size > 3 {
        3
    } else {
        b.extranonce_size as u64
    };
    let mut p = no_pieces();
    push_text(&mut p, "var_diff: ");
    push_bool(&mut p, b.var_diff);
    push_text(&mut p, "\nshares_per_min: ");
    push_number(&mut p, shares);
    push_text(&mut p, "\nvar_diff_stats: ");
    push_bool(&mut p, b.var_diff_stats);
    push_text(&mut p, "\npow2_clamp: ");
    push_bool(&mut p, b.pow2_clamp);
    push_text(&mut p, "\nextranonce_size: ");
    push_number(&mut p, extranonce);
    push_text(&mut p, "\n");
    assert(texts(p@) =~= seq![
        "var_diff: "@,
        bool_text(b.var_diff),
        "\nshares_per_min: "@,
        decimal(at_least_one(b.shares_per_min as nat)),
        "\nvar_diff_stats: "@,
        bool_text(b.var_diff_stats),
        "\npow2_clamp: "@,
        bool_text(b.pow2_clamp),
        "\nextranonce_size: "@,
        decimal(at_most_three(b.extranonce_size as nat)),
        "\n"@,
    ]);
    crate::text::join_chars(&p)
}

fn config_tail_chars(b: &StratumBridgeSettings) -> (r: Vec<char>)
    ensures
        r@ == config_tail(*b),
{
    let tag_trimmed = string_of(&trimmed(b.coinbase_tag_suffix.as_str()));
    let tag = escape_yaml_str(tag_trimmed.as_str());
    let port = normalize_port(b.stratum_port.as_str());
    let diff: u64 = if b.min_share_diff < 1 {
        1
    } else {
        b.min_share_diff as u64
    };
    let mut p = no_pieces();
    push_text(&mut p, "coinbase_tag_suffix: \"");
    push_text(&mut p, tag.as_str());
    push_text(&mut p, "\"\n\ninstances:\n  - stratum_port: \"");
    if port.as_str().is_empty() {
        push_text(&mut p, ":5555");
    } else {
        push_text(&mut p, port.as_str());
    }
    push_text(&mut p, "\"\n    min_share_diff: ");
    push_number(&mut p, diff);
    push_text(&mut p, "\n");
    assert(texts(p@) =~= seq![
        "coinbase_tag_suffix: \""@,
        yaml_escaped(trim(b.coinbase_tag_suffix@)),
        "\"\n\ninstances:\n  - stratum_port: \""@,
        stratum_port_text(*b),
        "\"\n    min_share_diff: "@,
        decimal(at_least_one(b.min_share_diff as nat)),
        "\n"@,
    ]);
    crate::text::join_chars(&p)
}

/// The contents of the configuration file for a bridge that reaches the
/// node at `kaspad_address`.
pub fn bridge_config(kaspad_address: &str, bridge: &StratumBridgeSettings) -> (r: String)
    ensures
        r@ == config_text(kaspad_address@, *bridge),
{
    let mut p = no_pieces();
    push_piece(&mut p, &config_head_chars(kaspad_address, bridge));
    push_piece(&mut p, &config_difficulty_chars(bridge));
    push_piece(&mut p, &config_tail_chars(bridge));
    assert(texts(p@) =~= seq![
        config_head(kaspad_address@, *bridge),
        config_difficulty(*bridge),
        config_tail(*bridge),
    ]);
    join(&p)
}

/// The stratum port as it is shown to the operator: the number alone,
/// `5555` where the settings hold no number.
pub open spec fn shown_port(raw: Seq<char>) -> Seq<char> {
    let t = trim(raw);
    if t.len() == 0 {
        "5555"@
    } else {
        let candidate = trim(
            match crate::text::rfind_char(t, ':') {
                Some(i) => t.skip(i + 1),
                None => t,
            },
        );
        if candidate.len() > 0 && all_digits(candidate) {
            candidate
        } else {
            "5555"@
        }
    }
}

pub fn stratum_port_for_display(raw: &str) -> (r: String)
    ensures
        r@ == shown_port(raw@),
{
    let t = trimmed(raw);
    if t.len() == 0 {
        return String::from_str("5555");
    }
    let tail = match crate::text::rfind_char_chars(&t, ':') {
        Some(i) => {
            let tail = slice_of(&t, i + 1, t.len());
            assert(tail@ == t@.skip(i + 1));
            tail
        },
        None => t,
    };
    let candidate = trim_chars(&tail);
    if candidate.len() > 0 && all_digits_chars(&candidate) {
        string_of(&candidate)
    } else {
        String::from_str("5555")
    }
}

// ---------------------------------------------------------------------------
// The service
// ---------------------------------------------------------------------------

/// The words of the bridge.
pub open spec fn bridge_texts() -> ServiceTexts {
    ServiceTexts {
        label: "RK Bridge",
        started: "started in external mode",
        exit_open: ": exited (",
        exit_close: ")",
        monitor_open: ": monitor error (",
        monitor_close: ")",
        binary_missing: "stratum-bridge binary not found",
        spawn_failed: "failed to start",
        exited: "bridge exited",
        monitor_error: "bridge monitor error",
    }
}

/// The event that a request to switch the bridge on or off stands for.
pub open spec fn bridge_enable_event(enabled: bool, s: NodeSettings) -> Event {
    if enabled {
        Event::Enable { applicable: s.node_kind.local() }
    } else {
        Event::Disable
    }
}

/// Why the bridge is not started on the given snapshot, if it is not: the
/// node does not run on this machine, or its gRPC server is switched off.
pub open spec fn bridge_obstacle(s: NodeSettings) -> Option<Seq<char>> {
    if !s.node_kind.local() {
        Some("RK Bridge: disabled (node is not local)"@)
    } else if !s.enable_grpc {
        Some("RK Bridge: gRPC is disabled; enable gRPC to start the bridge."@)
    } else {
        None
    }
}

/// The line that tells the operator that the node's gRPC server is
/// waited for.
pub open spec fn bridge_waiting_line(a: Announcement, address: Seq<char>) -> Seq<char> {
    match a {
        Announcement::Waiting => concat(
            seq!["RK Bridge: waiting for Kaspa node gRPC at "@, bare_address(address)],
        ),
        Announcement::StillWaiting => concat(
            seq!["RK Bridge: still waiting for Kaspa node gRPC at "@, bare_address(address)],
        ),
    }
}

/// The arguments that the bridge is started with.
pub open spec fn bridge_args(config_path: Seq<char>) -> Seq<Seq<char>> {
    seq!["--config"@, config_path, "--node-mode"@, "external"@]
}

/// The stratum bridge under supervision, with the blocks that it found.
pub struct StratumBridgeService {
    core: Supervisor,
    node_settings: NodeSettings,
}

impl StratumBridgeService {
    /// The state of the lifecycle.
    pub closed spec fn state(&self) -> Model {
        self.core@
    }

    /// The settings of the stored snapshot.
    pub closed spec fn snapshot(&self) -> NodeSettings {
        self.node_settings
    }

    /// The line that says why the bridge is not started on the stored
    /// snapshot; empty where nothing stands in its way.
    pub open spec fn obstacle(&self) -> Seq<char> {
        match bridge_obstacle(self.snapshot()) {
            Some(m) => m,
            None => Seq::empty(),
        }
    }

    fn obstacle_line(&self) -> (r: String)
        ensures
            r@ == self.obstacle(),
    {
        match self.preflight() {
            Some(f) => f.message,
            None => String::new(),
        }
    }

    fn texts() -> (t: ServiceTexts)
        ensures
            t == bridge_texts(),
    {
        ServiceTexts {
            label: "RK Bridge",
            started: "started in external mode",
            exit_open: ": exited (",
            exit_close: ")",
            monitor_open: ": monitor error (",
            monitor_close: ")",
            binary_missing: "stratum-bridge binary not found",
            spawn_failed: "failed to start",
            exited: "bridge exited",
            monitor_error: "bridge monitor error",
        }
    }

    /// The bridge as the settings describe it: switched on where the
    /// settings say so and the node runs on this machine. Nothing runs
    /// yet.
    pub fn new(settings: &Settings) -> (s: Self)
        ensures
            s.snapshot() == settings.node,
            s.state() == (Model {
                enabled: settings.node.stratum_bridge_enabled && settings.node.node_kind.local(),
                applicable: settings.node.node_kind.local(),
                starting: false,
                restart_pending: false,
                live: false,
                done: false,
            }),
    {
        let local = settings.node.node_kind.is_local();
        StratumBridgeService {
            core: Supervisor::new(settings.node.stratum_bridge_enabled && local, local),
            node_settings: settings.node.duplicate(),
        }
    }

    pub fn is_enabled(&self) -> (b: bool)
        ensures
            b == self.state().enabled,
    {
        self.core.is_enabled()
    }

    pub fn is_running(&self) -> (b: bool)
        ensures
            b == self.state().live,
    {
        self.core.is_running()
    }

    pub fn is_restart_pending(&self) -> (b: bool)
        ensures
            b == self.state().restart_pending,
    {
        self.core.is_restart_pending()
    }

    /// Takes an event of the lifecycle. `detail` is the exit status or
    /// the error that came with it, in the words of the operating system.
    pub fn handle(&mut self, e: Event, detail: &str) -> (out: Vec<Action>)
        ensures
            final(self).snapshot() == old(self).snapshot(),
            final(self).state() == step(old(self).state(), e).0,
            action_views(out@) == rendered_all(
                bridge_texts(),
                step(old(self).state(), e).1,
                detail@,
                final(self).obstacle(),
            ),
    {
        let cmds = self.core.handle(e);
        let obstacle = self.obstacle_line();
        render_all(&Self::texts(), &cmds, detail, obstacle.as_str())
    }

    /// Switches the bridge on or off, with a new snapshot of the
    /// settings.
    pub fn enable(&mut self, enabled: bool, node_settings: &NodeSettings) -> (out: Vec<Action>)
        ensures
            final(self).snapshot() == *node_settings,
            final(self).state() == step(
                old(self).state(),
                bridge_enable_event(enabled, *node_settings),
            ).0,
            action_views(out@) == rendered_all(
                bridge_texts(),
                step(old(self).state(), bridge_enable_event(enabled, *node_settings)).1,
                ""@,
                final(self).obstacle(),
            ),
    {
        self.node_settings = node_settings.duplicate();
        let e = if enabled {
            Event::Enable { applicable: node_settings.node_kind.is_local() }
        } else {
            Event::Disable
        };
        self.handle(e, "")
    }

    /// Replaces the snapshot of the settings. A bridge that is switched
    /// on is stopped and started again.
    pub fn update_settings(&mut self, node_settings: &NodeSettings) -> (out: Vec<Action>)
        ensures
            final(self).snapshot() == *node_settings,
            final(self).state() == step(
                old(self).state(),
                Event::UpdateSettings { applicable: node_settings.node_kind.local() },
            ).0,
            action_views(out@) == rendered_all(
                bridge_texts(),
                step(
                    old(self).state(),
                    Event::UpdateSettings { applicable: node_settings.node_kind.local() },
                ).1,
                ""@,
                final(self).obstacle(),
            ),
    {
        self.node_settings = node_settings.duplicate();
        self.handle(Event::UpdateSettings { applicable: node_settings.node_kind.is_local() }, "")
    }

    /// Ends the supervision: a bridge that runs is stopped.
    pub fn terminate(&mut self) -> (out: Vec<Action>)
        ensures
            final(self).snapshot() == old(self).snapshot(),
            final(self).state() == step(old(self).state(), Event::Exit).0,
            action_views(out@) == rendered_all(
                bridge_texts(),
                step(old(self).state(), Event::Exit).1,
                ""@,
                final(self).obstacle(),
            ),
    {
        self.handle(Event::Exit, "")
    }

    /// Why the bridge is not started on the stored snapshot, if it is
    /// not.
    pub fn preflight(&self) -> (r: Option<Failure>)
        ensures
            match r {
                Some(f) => bridge_obstacle(self.snapshot()) == Some(f.message@) && f.outcome
                    == StartOutcome::Unsupported && f.level == LogLevel::Info,
                None => bridge_obstacle(self.snapshot()) is None,
            },
    {
        let message = if !self.node_settings.node_kind.is_local() {
            "RK Bridge: disabled (node is not local)"
        } else if !self.node_settings.enable_grpc {
            "RK Bridge: gRPC is disabled; enable gRPC to start the bridge."
        } else {
            return None;
        };
        Some(
            Failure {
                outcome: StartOutcome::Unsupported,
                level: LogLevel::Info,
                message: String::from_str(message),
            },
        )
    }

    /// The address of the node's gRPC server on the stored snapshot.
    pub fn node_address(&self) -> (r: Option<String>)
        ensures
            match r {
                Some(a) => grpc_address(self.snapshot()) == Some(a@),
                None => grpc_address(self.snapshot()) is None,
            },
    {
        grpc_address_from_settings(&self.node_settings)
    }

    /// Where the bridge's executable may lie, in the order in which the
    /// places are looked at.
    pub fn candidates(windows: bool) -> (v: Vec<Candidate>)
        ensures
            candidate_views(v@) == build_places(
                binary_file("stratum-bridge"@, windows),
                "rusty-kaspa"@,
            ),
    {
        let file = binary_name("stratum-bridge", windows);
        build_output_candidates(file.as_str(), "rusty-kaspa")
    }

    /// What follows where no executable was found: the operator is told,
    /// and a restart is scheduled.
    pub fn binary_missing() -> (f: Failure)
        ensures
            f.outcome == StartOutcome::BinaryMissing,
            f.level == LogLevel::Info,
            f.message@
                == "RK Bridge: stratum-bridge binary not found (build kaspa-stratum-bridge first)"@,
    {
        Failure {
            outcome: StartOutcome::BinaryMissing,
            level: LogLevel::Info,
            message: String::from_str(
                "RK Bridge: stratum-bridge binary not found (build kaspa-stratum-bridge first)",
            ),
        }
    }

    /// What follows where the process could not be started; `error` is
    /// the reason in the words of the operating system.
    pub fn spawn_failed(error: &str) -> (f: Failure)
        ensures
            f.outcome == StartOutcome::SpawnFailed,
            f.level == LogLevel::Info,
            f.message@ == concat(seq!["RK Bridge: failed to start ("@, error@, ")"@]),
    {
        let mut p = no_pieces();
        push_text(&mut p, "RK Bridge: failed to start (");
        push_text(&mut p, error);
        push_text(&mut p, ")");
        assert(texts(p@) =~= seq!["RK Bridge: failed to start ("@, error@, ")"@]);
        Failure { outcome: StartOutcome::SpawnFailed, level: LogLevel::Info, message: join(&p) }
    }

    /// The line that tells the operator that the node's gRPC server at
    /// `address` is waited for.
    pub fn waiting_line(a: Announcement, address: &str) -> (r: String)
        ensures
            r@ == bridge_waiting_line(a, address@),
    {
        let bare = sanitize_grpc_address(address);
        let mut p = no_pieces();
        match a {
            Announcement::Waiting => {
                push_text(&mut p, "RK Bridge: waiting for Kaspa node gRPC at ");
                push_text(&mut p, bare.as_str());
                assert(texts(p@) =~= seq![
                    "RK Bridge: waiting for Kaspa node gRPC at "@,
                    bare_address(address@),
                ]);
            },
            Announcement::StillWaiting => {
                push_text(&mut p, "RK Bridge: still waiting for Kaspa node gRPC at ");
                push_text(&mut p, bare.as_str());
                assert(texts(p@) =~= seq![
                    "RK Bridge: still waiting for Kaspa node gRPC at "@,
                    bare_address(address@),
                ]);
            },
        }
        join(&p)
    }

    /// The contents of the configuration file for the stored snapshot and
    /// a node at `kaspad_address`.
    pub fn config(&self, kaspad_address: &str) -> (r: String)
        ensures
            r@ == config_text(kaspad_address@, self.snapshot().stratum_bridge),
    {
        bridge_config(kaspad_address, &self.node_settings.stratum_bridge)
    }

    /// How the bridge is started from the executable at `binary`, with
    /// the configuration file at `config_path`.
    pub fn command(binary: &str, config_path: &str) -> (l: Launch)
        ensures
            l.program@ == binary@,
            l.argv() == bridge_args(config_path@),
            l.env() == Seq::<(Seq<char>, Seq<char>)>::empty(),
            l.current_dir is None,
            !l.own_process_group,
    {
        let mut args: Vec<String> = Vec::new();
        assert(strs(args@) =~= Seq::<Seq<char>>::empty());
        push_str(&mut args, "--config");
        push_str(&mut args, config_path);
        push_str(&mut args, "--node-mode");
        push_str(&mut args, "external");
        assert(strs(args@) =~= bridge_args(config_path@));
        let l = Launch {
            program: String::from_str(binary),
            args,
            envs: Vec::new(),
            current_dir: None,
            own_process_group: false,
        };
        assert(l.env() =~= Seq::<(Seq<char>, Seq<char>)>::empty());
        l
    }
}

} // verus!

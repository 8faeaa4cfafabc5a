use kaspa_ng_core::modules::k_watch::{
    k_api_host, loading_line, must_reload, note_line, server_can_stay, server_started_line,
    view_availability, waiting_label_text, Availability, ProbeNote, ProbeWatch, DISABLED,
    MAINNET_ONLY, PROBE_INTERVAL_MS, SLOW_START_SECS,
};
use kaspa_ng_core::bridge::{summarize, BlockStatus, BridgeBlock, Tone};
use kaspa_ng_core::log_store::{LogLevel, LogStore};
use kaspa_ng_core::modules::log_views::{
    clipboard_text, shown_lines, BlockRow, CpuMinerLogs, Notice, NoticeTone, RkBlocks, RkBridgeLogs,
    RothschildLogs,
};
use kaspa_ng_core::modules::web_views::{Explorer, KSocial};
use kaspa_ng_core::network::Network;
use kaspa_ng_core::settings::{KaspadNodeKind, NodeSettings, SelfHostedSettings};

fn switched(enabled: bool, k_enabled: bool) -> SelfHostedSettings {
    let mut settings = SelfHostedSettings::default();
    settings.enabled = enabled;
    settings.k_enabled = k_enabled;
    settings
}

#[test]
fn social_view_is_for_the_main_network_only() {
    for network in [Network::Testnet10, Network::Testnet12] {
        for (enabled, k_enabled) in [(true, true), (false, true), (true, false), (false, false)] {
            assert_eq!(
                view_availability(network, &switched(enabled, k_enabled)),
                Availability::MainnetOnly
            );
        }
    }
    assert_eq!(view_availability(Network::Mainnet, &switched(true, true)), Availability::Available);
}

#[test]
fn social_view_needs_both_switches() {
    assert_eq!(view_availability(Network::Mainnet, &switched(false, true)), Availability::Disabled);
    assert_eq!(view_availability(Network::Mainnet, &switched(true, false)), Availability::Disabled);
    assert_eq!(view_availability(Network::Mainnet, &switched(false, false)), Availability::Disabled);
}

#[test]
fn blocked_view_says_why() {
    assert_eq!(
        Availability::MainnetOnly.blocked(),
        Some((MAINNET_ONLY, "K-Social: blocked (Mainnet only)"))
    );
    assert_eq!(
        Availability::Disabled.blocked(),
        Some((DISABLED, "K-Social: blocked (disabled in Settings)"))
    );
    assert_eq!(Availability::Available.blocked(), None);
    assert_eq!(MAINNET_ONLY, "K-Social is available only on Mainnet.");
    assert_eq!(DISABLED, "K-Social is disabled in Settings.");
}

#[test]
fn view_reaches_a_wildcard_bind_on_loopback() {
    assert_eq!(k_api_host("0.0.0.0"), "127.0.0.1");
    assert_eq!(k_api_host("::"), "127.0.0.1");
    assert_eq!(k_api_host("[::]"), "127.0.0.1");
    assert_eq!(k_api_host("10.0.0.2"), "10.0.0.2");
    // The address is taken as it is written.
    assert_eq!(k_api_host(" 0.0.0.0"), " 0.0.0.0");
    assert_eq!(k_api_host(""), "");
}

#[test]
fn indexer_is_tested_every_two_seconds() {
    assert_eq!(PROBE_INTERVAL_MS, 2000);
    let mut watch = ProbeWatch::new();
    assert!(watch.probe_due(0));
    assert!(watch.probe_due(u64::MAX));
    watch.record(1_000, false, "connection refused".to_string());
    assert!(!watch.probe_due(1_000));
    assert!(!watch.probe_due(2_999));
    assert!(watch.probe_due(3_000));
    // A clock that went back asks for no test.
    assert!(!watch.probe_due(999));
}

#[test]
fn a_change_of_the_result_is_told_once() {
    let mut watch = ProbeWatch::new();
    assert_eq!(watch.record(0, false, "a".to_string()), Some(ProbeNote::Waiting));
    assert_eq!(watch.record(2_000, false, "b".to_string()), None);
    assert_eq!(watch.last_probe_status.as_deref(), Some("b"));
    assert_eq!(watch.record(4_000, true, "ready".to_string()), Some(ProbeNote::Reachable));
    assert_eq!(watch.record(6_000, true, "ready".to_string()), None);
    assert_eq!(watch.record(8_000, false, "gone".to_string()), Some(ProbeNote::Waiting));
    assert_eq!(watch.last_probe_at, Some(8_000));
    assert_eq!(watch.last_probe_ok, Some(false));
}

#[test]
fn first_answer_is_told_of() {
    let mut watch = ProbeWatch::new();
    assert_eq!(watch.record(5, true, "ready".to_string()), Some(ProbeNote::Reachable));
    assert!(watch.is_ready());
    assert_eq!(watch.waiting_since, None);
}

#[test]
fn wait_is_dated_from_the_first_failure() {
    let mut watch = ProbeWatch::new();
    assert!(!watch.is_ready());
    watch.record(1_500, false, "a".to_string());
    watch.record(3_500, false, "a".to_string());
    watch.record(5_500, false, "a".to_string());
    assert_eq!(watch.waiting_since, Some(1_500));
    assert_eq!(watch.waited_secs(1_500), 0);
    assert_eq!(watch.waited_secs(2_499), 0);
    assert_eq!(watch.waited_secs(2_500), 1);
    assert_eq!(watch.waited_secs(31_499), 29);
    assert!(!watch.is_slow(31_499));
    assert!(watch.is_slow(31_500));
    assert_eq!(SLOW_START_SECS, 30);
    assert_eq!(watch.waited_secs(0), 0);
    watch.record(7_500, true, "ready".to_string());
    assert_eq!(watch.waiting_since, None);
    assert_eq!(watch.waited_secs(100_000), 0);
    assert!(!watch.is_slow(u64::MAX));
}

#[test]
fn reset_forgets_every_test() {
    let mut watch = ProbeWatch::new();
    watch.record(10, false, "a".to_string());
    watch.reset();
    assert_eq!(watch, ProbeWatch::new());
    assert!(watch.probe_due(10));
    assert_eq!(watch.record(11, false, "a".to_string()), Some(ProbeNote::Waiting));
}

#[test]
fn watch_lines() {
    assert_eq!(
        note_line(ProbeNote::Reachable, "127.0.0.1", 3000),
        "K-Social: K-indexer API reachable at http://127.0.0.1:3000/health"
    );
    assert_eq!(
        note_line(ProbeNote::Waiting, "127.0.0.1", 3000),
        "K-Social: waiting for K-indexer API at http://127.0.0.1:3000/health"
    );
    assert_eq!(
        waiting_label_text("127.0.0.1", 3000, 12),
        "Waiting for K-indexer API: http://127.0.0.1:3000/health (12s)"
    );
    assert_eq!(
        server_started_line("127.0.0.1", 51964, "10.0.0.2", 3000),
        "K-Social: local web server started on 127.0.0.1:51964 (api 10.0.0.2:3000)"
    );
    assert_eq!(
        loading_line("127.0.0.1", 3000),
        "K-Social: loading web app with API http://127.0.0.1:3000"
    );
}

#[test]
fn server_stays_while_the_indexer_stays() {
    assert!(server_can_stay(Some(("127.0.0.1", 3000)), "127.0.0.1", 3000));
    assert!(!server_can_stay(Some(("127.0.0.1", 3000)), "127.0.0.1", 3001));
    assert!(!server_can_stay(Some(("127.0.0.1", 3000)), "127.0.0.2", 3000));
    assert!(!server_can_stay(None, "127.0.0.1", 3000));
}

#[test]
fn front_end_is_loaded_anew_when_its_target_changes() {
    let loaded = Some((Network::Mainnet, "127.0.0.1", 3000u16));
    assert!(!must_reload(loaded, Network::Mainnet, "127.0.0.1", 3000));
    assert!(must_reload(loaded, Network::Testnet10, "127.0.0.1", 3000));
    assert!(must_reload(loaded, Network::Mainnet, "127.0.0.2", 3000));
    assert!(must_reload(loaded, Network::Mainnet, "127.0.0.1", 3001));
    assert!(must_reload(None, Network::Mainnet, "127.0.0.1", 3000));
}

// ------------------------------------------------------------ log views

fn synced_testnet_node() -> NodeSettings {
    let mut node = NodeSettings::default();
    node.network = Network::Testnet10;
    node.node_kind = KaspadNodeKind::IntegratedAsDaemon;
    node.enable_grpc = true;
    node.cpu_miner_enabled = true;
    node.cpu_miner.mining_address = "kaspatest:abc".to_string();
    node.rothschild_enabled = true;
    node.stratum_bridge_enabled = true;
    node
}

fn warn(text: &'static str) -> Notice {
    Notice { tone: NoticeTone::Warning, text }
}

fn info(text: &'static str) -> Notice {
    Notice { tone: NoticeTone::Info, text }
}

#[test]
fn log_views_have_their_titles() {
    assert_eq!(CpuMinerLogs::new().name(), "CPU Miner");
    assert_eq!(RothschildLogs::new().name(), "Rothschild");
    assert_eq!(RkBridgeLogs::new().name(), "RK Bridge");
    assert_eq!(RkBlocks::new().name(), "Blocks");
    assert_eq!(Explorer::new().name(), "Explorer");
    assert_eq!(KSocial::new().name(), "K-Social");
}

#[test]
fn a_miner_that_can_run_gets_no_notice() {
    let node = synced_testnet_node();
    assert_eq!(CpuMinerLogs::new().notices(&node), vec![]);
    assert_eq!(RothschildLogs::new().notices(&node), vec![]);
    assert_eq!(RkBridgeLogs::new().notices(&node), vec![]);
    assert_eq!(RkBlocks::new().notices(&node), vec![]);
}

#[test]
fn miner_notices_come_in_a_fixed_order() {
    let mut node = synced_testnet_node();
    node.cpu_miner_enabled = false;
    node.network = Network::Mainnet;
    node.cpu_miner.mining_address = " ".to_string();
    node.enable_grpc = false;
    assert_eq!(
        CpuMinerLogs::new().notices(&node),
        vec![
            warn("CPU Miner is disabled in Settings."),
            info("Please enable it in Settings only after the node is fully synced."),
            warn("CPU Miner is available only on Testnet 10 and Testnet 12."),
            warn("Mining address is not set."),
            warn("Enable gRPC in Node settings to use CPU Miner."),
        ]
    );
    let mut node = synced_testnet_node();
    node.cpu_miner.mining_address = String::new();
    assert_eq!(CpuMinerLogs::new().notices(&node), vec![warn("Mining address is not set.")]);
}

#[test]
fn grpc_is_asked_for_on_a_local_node_only() {
    let mut node = synced_testnet_node();
    node.enable_grpc = false;
    assert_eq!(
        CpuMinerLogs::new().notices(&node),
        vec![warn("Enable gRPC in Node settings to use CPU Miner.")]
    );
    assert_eq!(
        RothschildLogs::new().notices(&node),
        vec![warn("Enable gRPC in Node settings to use Rothschild.")]
    );
    for kind in [KaspadNodeKind::Remote, KaspadNodeKind::Disable] {
        node.node_kind = kind;
        assert_eq!(CpuMinerLogs::new().notices(&node), vec![]);
        assert_eq!(RothschildLogs::new().notices(&node), vec![]);
    }
}

#[test]
fn rothschild_notices_come_in_a_fixed_order() {
    let mut node = synced_testnet_node();
    node.rothschild_enabled = false;
    node.network = Network::Mainnet;
    node.enable_grpc = false;
    assert_eq!(
        RothschildLogs::new().notices(&node),
        vec![
            warn("Rothschild is disabled in Settings."),
            info("Please enable it in Settings only after the node is fully synced."),
            warn("Rothschild is available only on Testnet 10 and Testnet 12."),
            warn("Enable gRPC in Node settings to use Rothschild."),
        ]
    );
}

#[test]
fn bridge_views_say_when_the_bridge_is_off() {
    let mut node = synced_testnet_node();
    node.stratum_bridge_enabled = false;
    assert_eq!(RkBridgeLogs::new().notices(&node), vec![warn("RK Bridge is disabled in Settings.")]);
    assert_eq!(RkBlocks::new().notices(&node), vec![warn("RK Bridge is disabled in Settings.")]);
}

#[test]
fn lines_are_copied_with_line_feeds_between_them() {
    let lines = |v: &[&str]| v.iter().map(|s| s.to_string()).collect::<Vec<String>>();
    assert_eq!(clipboard_text(&lines(&[])), "");
    assert_eq!(clipboard_text(&lines(&["a"])), "a");
    assert_eq!(clipboard_text(&lines(&["a", "b", "c"])), "a\nb\nc");
    assert_eq!(clipboard_text(&lines(&["", ""])), "\n");
    assert_eq!(clipboard_text(&lines(&["a", "", "b\n"])), "a\n\nb\n");
    let many = lines(&["x"; 100]);
    assert_eq!(clipboard_text(&many), many.join("\n"));
}

fn found_block(hash: &str, status: BlockStatus) -> BridgeBlock {
    BridgeBlock {
        timestamp: None,
        hash: hash.to_string(),
        status,
        worker: None,
        wallet: None,
        line: String::new(),
    }
}

#[test]
fn blocks_are_listed_newest_first() {
    let view = RkBlocks::new();
    assert_eq!(view.rows(&Vec::new()), vec![]);
    let mut second = found_block("h2", BlockStatus::RejectedStale);
    second.timestamp = Some("2024-01-01 00:00:01".to_string());
    second.worker = Some("rig".to_string());
    second.wallet = Some("kaspa:q".to_string());
    let blocks = vec![found_block("h1", BlockStatus::Accepted), second, found_block("h3", BlockStatus::Found)];
    let rows = view.rows(&blocks);
    assert_eq!(rows.len(), 3);
    assert_eq!(
        rows[0],
        BlockRow {
            time: "-".to_string(),
            status: "Found",
            tone: Tone::Pending,
            hash: "h3".to_string(),
            worker: "-".to_string(),
            wallet: "-".to_string(),
        }
    );
    assert_eq!(
        rows[1],
        BlockRow {
            time: "2024-01-01 00:00:01".to_string(),
            status: "Rejected (Stale)",
            tone: Tone::Bad,
            hash: "h2".to_string(),
            worker: "rig".to_string(),
            wallet: "kaspa:q".to_string(),
        }
    );
    assert_eq!(rows[2].hash, "h1");
    assert_eq!(rows[2].status, "Accepted");
    assert_eq!(rows[2].tone, Tone::Good);
    assert_eq!(view.status_color(BlockStatus::RejectedInvalid), Tone::Bad);
}

#[test]
fn found_blocks_are_named_only_where_there_are_any() {
    let view = RkBlocks::new();
    let blocks = vec![found_block("h1", BlockStatus::Accepted), found_block("h2", BlockStatus::Rejected)];
    assert!(!view.shows_found(&summarize(&blocks)));
    let blocks = vec![found_block("h1", BlockStatus::Accepted), found_block("h2", BlockStatus::Found)];
    assert!(view.shows_found(&summarize(&blocks)));
}

// ------------------------------------------------------------ web views

#[test]
fn explorer_starts_its_server_once() {
    let mut view = Explorer::new();
    assert!(view.wants_server());
    assert_eq!(view.start_url("/blocks"), None);
    view.server_started("http://127.0.0.1:51963/".to_string());
    assert!(!view.wants_server());
    assert_eq!(view.start_url("/blocks"), Some("http://127.0.0.1:51963/blocks".to_string()));
    assert_eq!(view.start_url(""), Some("http://127.0.0.1:51963/".to_string()));
    let mut failed = Explorer::new();
    failed.server_failed("no build".to_string());
    // A start that failed is not tried again.
    assert!(!failed.wants_server());
    assert_eq!(failed.status.as_deref(), Some("no build"));
}

#[test]
fn explorer_remembers_the_path_that_is_shown() {
    let mut view = Explorer::new();
    let mut stored = "/blocks".to_string();
    // Without a server nothing is taken note of.
    assert!(!view.visited("http://127.0.0.1:51963/txs", &mut stored));
    assert_eq!(stored, "/blocks");
    view.server_started("http://127.0.0.1:51963/".to_string());
    view.attached("/blocks");
    assert_eq!(view.last_path.as_deref(), Some("/blocks"));
    // The path that was shown last changes nothing.
    assert!(!view.visited("http://127.0.0.1:51963/blocks", &mut stored));
    // A new path is remembered and stored.
    assert!(view.visited("http://127.0.0.1:51963/txs/1", &mut stored));
    assert_eq!(stored, "/txs/1");
    assert_eq!(view.last_path.as_deref(), Some("/txs/1"));
    assert!(!view.visited("http://127.0.0.1:51963/txs/1", &mut stored));
    // Another site is not the explorer's.
    assert!(!view.visited("https://example.org/x", &mut stored));
    assert_eq!(stored, "/txs/1");
    // A path that the settings hold already is remembered, not stored.
    let mut same = "/".to_string();
    assert!(!view.visited("http://127.0.0.1:51963/", &mut same));
    assert_eq!(view.last_path.as_deref(), Some("/"));
}

#[test]
fn explorer_shows_why_the_window_is_missing() {
    let mut view = Explorer::new();
    view.window_failed("no display");
    assert_eq!(view.status.as_deref(), Some("Explorer WebView error: no display"));
}

fn log_of(view: &KSocial) -> Vec<String> {
    view.logs.iter().cloned().collect()
}

#[test]
fn social_view_logs_why_it_is_blocked() {
    let mut view = KSocial::new();
    view.probed(0, false, "refused".to_string(), "127.0.0.1", 3000);
    assert_eq!(view.activate(Network::Testnet10, &switched(true, true)), Availability::MainnetOnly);
    assert_eq!(view.status.as_deref(), Some("K-Social is available only on Mainnet."));
    assert_eq!(view.watch.waiting_since, None);
    assert_eq!(view.watch.last_probe_status, None);
    assert_eq!(view.watch.last_probe_ok, Some(false));
    assert_eq!(
        log_of(&view),
        vec![
            "K-Social: waiting for K-indexer API at http://127.0.0.1:3000/health",
            "K-Social: activate requested",
            "K-Social: blocked (Mainnet only)",
        ]
    );
    assert_eq!(view.activate(Network::Mainnet, &switched(true, false)), Availability::Disabled);
    assert_eq!(view.status.as_deref(), Some("K-Social is disabled in Settings."));
    assert_eq!(log_of(&view).last().unwrap(), "K-Social: blocked (disabled in Settings)");
    assert_eq!(view.activate(Network::Mainnet, &switched(true, true)), Availability::Available);
    assert_eq!(view.status, None);
    assert_eq!(log_of(&view).last().unwrap(), "K-Social: activate requested");
}

#[test]
fn social_view_logs_a_change_of_the_indexer_once() {
    let mut view = KSocial::new();
    assert_eq!(view.probed(0, false, "a".to_string(), "h", 1), Some(ProbeNote::Waiting));
    assert_eq!(view.probed(2000, false, "a".to_string(), "h", 1), None);
    assert_eq!(view.probed(4000, true, "ready".to_string(), "h", 1), Some(ProbeNote::Reachable));
    assert_eq!(view.probed(6000, true, "ready".to_string(), "h", 1), None);
    assert_eq!(
        log_of(&view),
        vec![
            "K-Social: waiting for K-indexer API at http://h:1/health",
            "K-Social: K-indexer API reachable at http://h:1/health",
        ]
    );
    view.services_off();
    assert_eq!(view.watch, ProbeWatch::new());
    assert_eq!(log_of(&view).len(), 2);
}

#[test]
fn social_view_logs_its_server_and_window() {
    let mut view = KSocial::new();
    view.server_started("127.0.0.1", 51964, "127.0.0.1", 3000);
    view.loading("127.0.0.1", 3000);
    view.window_failed("no display");
    assert_eq!(view.status.as_deref(), Some("K-Social WebView error: no display"));
    view.probed(0, false, "a".to_string(), "h", 1);
    view.attached();
    assert_eq!(view.status, None);
    assert_eq!(view.watch.waiting_since, None);
    view.server_failed("bind failed".to_string());
    assert_eq!(view.status.as_deref(), Some("bind failed"));
    assert_eq!(
        log_of(&view),
        vec![
            "K-Social: local web server started on 127.0.0.1:51964 (api 127.0.0.1:3000)",
            "K-Social: loading web app with API http://127.0.0.1:3000",
            "K-Social: WebView error (no display)",
            "K-Social: waiting for K-indexer API at http://h:1/health",
            "K-Social: WebView attached",
            "K-Social: local web server failed to start",
        ]
    );
}

#[test]
fn social_view_keeps_its_newest_two_hundred_lines() {
    let mut view = KSocial::new();
    for n in 0..250 {
        view.push_log(format!("line {n}"));
    }
    assert_eq!(view.logs.len(), 200);
    assert_eq!(view.logs.front().unwrap(), "line 50");
    assert_eq!(view.logs.back().unwrap(), "line 249");
    view.attached();
    assert_eq!(view.logs.len(), 200);
    assert_eq!(view.logs.front().unwrap(), "line 51");
}

#[test]
fn log_views_show_the_lines_as_they_are() {
    let mut store = LogStore::new(8);
    store.push_at("t1".to_string(), LogLevel::Info, "CPU Miner: started");
    store.push_at("t2".to_string(), LogLevel::Warn, "CPU Miner: exited (exit status: 1)");
    store.push_at("t3".to_string(), LogLevel::Info, "CPU Miner: miner exited; restarting in 3s");
    let first = shown_lines(&store.snapshot(8));
    assert_eq!(
        first,
        vec![
            "CPU Miner: started",
            "CPU Miner: exited (exit status: 1)",
            "CPU Miner: miner exited; restarting in 3s",
        ]
    );
    // Looking again shows the same lines.
    assert_eq!(shown_lines(&store.snapshot(8)), first);
    assert_eq!(first.iter().filter(|l| l.contains("restarting in")).count(), 1);
    assert_eq!(shown_lines(&Vec::new()), Vec::<String>::new());
}

use kaspa_ng_core::launcher::{Base, Candidate, Gate, Platform};
use kaspa_ng_core::log_store::{classify, LogLevel, LogStore, LogStores};
use kaspa_ng_core::network::Network;
use kaspa_ng_core::readiness::{Announcement, WaitPolicy};
use kaspa_ng_core::services::cpu_miner::{is_supported_network, miner_arguments, CpuMinerService};
use kaspa_ng_core::services::rothschild::{rothschild_arguments, RothschildService};
use kaspa_ng_core::services::self_hosted_db::{
    assemble_status, clamp_log_limit, clamp_stream_interval, collect_stats, logs_for,
    table_from_row,
    table_totals, DbConfig, LogService, SelfHostedDbEvents, SelfHostedDbService, TableStats,
    METRICS_UNAVAILABLE, METRICS_UNAVAILABLE_STATUS,
};
use kaspa_ng_core::services::self_hosted_indexer::{
    build_database_url, database_missing_line, database_not_ready_line, default_wrpc_port, effective_indexer_rpc_url, find_indexer_binary,
    indexer_network_arg, sanitize_wrpc_host, should_auto_adjust_indexer_rpc_url,
    SelfHostedIndexerEvents, SelfHostedIndexerService,
};
use kaspa_ng_core::services::self_hosted_postgres::{
    admin_user_candidates, adoption_notes, adoption_wait, detect_log_level as level, startup_wait, bin_missing, build_conn_str, candidate_bin_dirs,
    debug_option_text, decide_adoption, ensure_error_line, ensure_failure, ensure_gave_up,
    ensure_sql, ensure_targets, escape_identifier, escape_literal, initdb_command,
    initdb_failed, next_ensure_move, password_file_name, postgres_bin_candidates,
    postgres_command, psql_command, readiness_probes, resolve_data_dir, should_ensure,
    socket_hosts, Adoption, EnsureMove, EnsureStage, PsqlTarget, SelfHostedPostgresEvents,
    SelfHostedPostgresService,
};
use kaspa_ng_core::services::stratum_bridge::{
    bridge_config, escape_yaml_str, grpc_address_from_settings, normalize_port,
    sanitize_grpc_address, stratum_port_for_display, StratumBridgeService,
};
use kaspa_ng_core::services::{join_host_port, resolve_bind_host, Action};
use kaspa_ng_core::settings::{
    CpuMinerSettings, Effective, NetworkInterfaceKind, NodeSettings, RothschildSettings,
    SelfHostedSettings, Settings, StratumBridgeSettings,
};
use kaspa_ng_core::supervisor::{Event, ExitKind, StartOutcome};

fn log(level: LogLevel, message: &str) -> Action {
    Action::Log { level, message: message.to_string() }
}

fn strings(v: &[&str]) -> Vec<String> {
    v.iter().map(|s| s.to_string()).collect()
}

// ---------------------------------------------------------------- miner

#[test]
fn miner_runs_on_test_networks_only() {
    assert!(!is_supported_network(Network::Mainnet));
    assert!(is_supported_network(Network::Testnet10));
    assert!(is_supported_network(Network::Testnet12));
}

#[test]
fn miner_arguments_come_in_a_fixed_order() {
    let s = CpuMinerSettings {
        mining_address: " kaspatest:abc ".to_string(),
        kaspad_address: "10.0.0.1".to_string(),
        kaspad_port: 16210,
        threads: 4,
        mine_when_not_synced: true,
    };
    assert_eq!(
        miner_arguments(&s),
        strings(&[
            "--testnet",
            "--mining-address",
            "kaspatest:abc",
            "--kaspad-address",
            "10.0.0.1",
            "--port",
            "16210",
            "--threads",
            "4",
            "--mine-when-not-synced",
        ])
    );
}

#[test]
fn miner_arguments_leave_out_what_is_not_set() {
    let s = CpuMinerSettings {
        mining_address: "kaspatest:abc".to_string(),
        kaspad_address: "  ".to_string(),
        kaspad_port: 0,
        threads: 0,
        mine_when_not_synced: false,
    };
    assert_eq!(miner_arguments(&s), strings(&["--testnet", "--mining-address", "kaspatest:abc"]));
}

#[test]
fn miner_on_mainnet_tells_why_it_does_not_start() {
    let mut settings = Settings::default();
    settings.node.cpu_miner_enabled = true;
    let mut miner = CpuMinerService::new(&settings);
    assert!(miner.is_enabled());
    assert_eq!(miner.handle(Event::Tick, ""), vec![]);
    let out = miner.enable(true, Network::Mainnet, &settings.node.cpu_miner);
    assert_eq!(out, vec![log(LogLevel::Info, "CPU Miner: available only on Testnet 10 and Testnet 12.")]);
    assert!(!miner.is_running());
    assert_eq!(
        miner.preflight().unwrap().message,
        "CPU Miner: available only on Testnet 10 and Testnet 12."
    );
}

#[test]
fn miner_without_address_is_unsupported_not_failed() {
    let mut miner = CpuMinerService::new(&Settings::default());
    let out = miner.enable(true, Network::Testnet10, &CpuMinerSettings::default());
    assert_eq!(out, vec![Action::Start]);
    let f = miner.preflight().unwrap();
    assert_eq!(f.outcome, StartOutcome::Unsupported);
    assert_eq!(f.message, "CPU Miner: mining address is not set (configure it in Settings).");
    assert_eq!(miner.handle(Event::Started(f.outcome), ""), vec![]);
    assert!(!miner.is_restart_pending());
    assert_eq!(miner.handle(Event::RestartDue, ""), vec![]);
}

#[test]
fn miner_candidates_and_failures() {
    let c = CpuMinerService::candidates(true);
    assert_eq!(c[0], Candidate { base: Base::ExeDir, path: "kaspa-miner.exe".to_string() });
    assert_eq!(c[2], Candidate { base: Base::WorkingDir, path: "cpuminer/target/debug/kaspa-miner.exe".to_string() });
    assert_eq!(c.len(), 5);
    assert_eq!(
        CpuMinerService::binary_missing().message,
        "CPU Miner: kaspa-miner binary not found (build cpuminer first)"
    );
    assert_eq!(CpuMinerService::binary_missing().outcome, StartOutcome::BinaryMissing);
    let f = CpuMinerService::spawn_failed("No such file");
    assert_eq!(f.message, "CPU Miner: failed to start (No such file)");
    assert_eq!(f.outcome, StartOutcome::SpawnFailed);
}

#[test]
fn miner_lifecycle_lines() {
    let mut miner = CpuMinerService::new(&Settings::default());
    let mut s = CpuMinerSettings::default();
    s.mining_address = "kaspatest:abc".to_string();
    assert_eq!(miner.enable(true, Network::Testnet12, &s), vec![Action::Start]);
    assert_eq!(
        miner.handle(Event::Started(StartOutcome::Spawned), ""),
        vec![log(LogLevel::Info, "CPU Miner: started")]
    );
    assert_eq!(
        miner.handle(Event::ChildExited(ExitKind::MonitorError), "broken pipe"),
        vec![
            log(LogLevel::Warn, "CPU Miner: monitor error (broken pipe)"),
            log(LogLevel::Info, "CPU Miner: miner monitor error; restarting in 3s"),
            Action::ArmRestart { delay_secs: 3 },
        ]
    );
    assert_eq!(miner.handle(Event::RestartDue, ""), vec![Action::Start]);
    assert_eq!(
        miner.handle(Event::Started(StartOutcome::BinaryMissing), ""),
        vec![
            log(LogLevel::Info, "CPU Miner: kaspa-miner binary not found; restarting in 3s"),
            Action::ArmRestart { delay_secs: 3 },
        ]
    );
    assert_eq!(miner.enable(false, Network::Testnet12, &s), vec![]);
    assert_eq!(miner.terminate(), vec![Action::Done]);
}

#[test]
fn miner_stop_is_announced() {
    let mut miner = CpuMinerService::new(&Settings::default());
    let mut s = CpuMinerSettings::default();
    s.mining_address = "kaspatest:abc".to_string();
    miner.enable(true, Network::Testnet10, &s);
    miner.handle(Event::Started(StartOutcome::Spawned), "");
    assert_eq!(
        miner.update_settings(Network::Testnet10, &s),
        vec![Action::Stop, Action::Start]
    );
    miner.handle(Event::Started(StartOutcome::Spawned), "");
    assert_eq!(
        miner.enable(false, Network::Testnet10, &s),
        vec![Action::Stop, log(LogLevel::Info, "CPU Miner: stopped")]
    );
}

// ----------------------------------------------------------- rothschild

#[test]
fn rothschild_arguments_come_in_a_fixed_order() {
    let s = RothschildSettings {
        mnemonic: String::new(),
        private_key: " key ".to_string(),
        address: "kaspatest:to".to_string(),
        tps: 0,
        rpc_server: "localhost:16210".to_string(),
        threads: 2,
    };
    assert_eq!(
        rothschild_arguments(&s),
        strings(&[
            "--tps",
            "1",
            "--rpcserver",
            "localhost:16210",
            "--threads",
            "2",
            "--private-key",
            "key",
            "--to-addr",
            "kaspatest:to",
        ])
    );
    let bare = RothschildSettings { tps: 25, rpc_server: " ".to_string(), threads: 0, ..s };
    assert_eq!(
        rothschild_arguments(&bare),
        strings(&["--tps", "25", "--private-key", "key", "--to-addr", "kaspatest:to"])
    );
}

#[test]
fn rothschild_needs_key_and_address() {
    let mut settings = Settings::default();
    settings.node.network = Network::Testnet10;
    let mut r = RothschildService::new(&settings);
    assert_eq!(
        r.preflight().unwrap().message,
        "Rothschild: private key is not set (configure it in Settings)."
    );
    let mut s = RothschildSettings::default();
    s.private_key = "k".to_string();
    r.update_settings(Network::Testnet10, &s);
    assert_eq!(
        r.preflight().unwrap().message,
        "Rothschild: address is not set (configure it in Settings)."
    );
    s.address = "kaspatest:a".to_string();
    r.update_settings(Network::Testnet10, &s);
    assert_eq!(r.preflight(), None);
    r.update_settings(Network::Mainnet, &s);
    assert_eq!(
        r.preflight().unwrap().message,
        "Rothschild: available only on Testnet 10 and Testnet 12."
    );
    assert_eq!(RothschildService::candidates(false)[4].path, "rusty-kaspa/target/release/rothschild");
    assert_eq!(
        RothschildService::binary_missing().message,
        "Rothschild: binary not found (build rothschild first)"
    );
}

#[test]
fn rothschild_restart_line() {
    let mut settings = Settings::default();
    settings.node.network = Network::Testnet10;
    settings.node.rothschild_enabled = true;
    let mut r = RothschildService::new(&settings);
    assert_eq!(r.handle(Event::Tick, ""), vec![Action::Start]);
    r.handle(Event::Started(StartOutcome::Spawned), "");
    assert_eq!(
        r.handle(Event::ChildExited(ExitKind::Exited { success: true }), "exit status: 0"),
        vec![
            log(LogLevel::Warn, "Rothschild: exited (exit status: 0)"),
            log(LogLevel::Info, "Rothschild: rothschild exited; restarting in 3s"),
            Action::ArmRestart { delay_secs: 3 },
        ]
    );
}

// --------------------------------------------------------------- bridge

#[test]
fn grpc_address_defaults_to_loopback_and_port() {
    let mut n = NodeSettings::default();
    assert_eq!(grpc_address_from_settings(&n).as_deref(), Some("127.0.0.1:16110"));
    n.grpc_network_interface.kind = NetworkInterfaceKind::Local;
    assert_eq!(grpc_address_from_settings(&n).as_deref(), Some("127.0.0.1:16110"));
    n.grpc_network_interface.kind = NetworkInterfaceKind::Custom;
    n.grpc_network_interface.custom = "192.168.1.5".to_string();
    assert_eq!(grpc_address_from_settings(&n).as_deref(), Some("192.168.1.5:16110"));
    n.grpc_network_interface.custom = "192.168.1.5:18110".to_string();
    assert_eq!(grpc_address_from_settings(&n).as_deref(), Some("192.168.1.5:18110"));
    n.enable_grpc = false;
    assert_eq!(grpc_address_from_settings(&n), None);
}

#[test]
fn grpc_address_is_freed_of_scheme_and_slashes() {
    assert_eq!(sanitize_grpc_address("  grpc://127.0.0.1:16110/ "), "127.0.0.1:16110");
    assert_eq!(sanitize_grpc_address("127.0.0.1:16110"), "127.0.0.1:16110");
    assert_eq!(sanitize_grpc_address("http://host:1//"), "host:1");
    assert_eq!(sanitize_grpc_address("a://b://c"), "b://c");
}

#[test]
fn ports_get_a_colon() {
    assert_eq!(normalize_port(" 5555 "), ":5555");
    assert_eq!(normalize_port(":5555"), ":5555");
    assert_eq!(normalize_port("0.0.0.0:5555"), "0.0.0.0:5555");
    assert_eq!(normalize_port(""), "");
    assert_eq!(normalize_port("   "), "");
    assert_eq!(normalize_port("abc"), "abc");
}

#[test]
fn shown_port_is_the_number_alone() {
    assert_eq!(stratum_port_for_display(":5555"), "5555");
    assert_eq!(stratum_port_for_display(" 0.0.0.0:6000 "), "6000");
    assert_eq!(stratum_port_for_display("7000"), "7000");
    assert_eq!(stratum_port_for_display(": 7001"), "7001");
    assert_eq!(stratum_port_for_display(""), "5555");
    assert_eq!(stratum_port_for_display("abc"), "5555");
    assert_eq!(stratum_port_for_display("host:"), "5555");
}

#[test]
fn yaml_text_is_escaped() {
    assert_eq!(escape_yaml_str("a\r\nb"), "a  b");
    assert_eq!(escape_yaml_str("say \"hi\" \\ bye"), "say \\\"hi\\\" \\\\ bye");
    assert_eq!(escape_yaml_str("plain"), "plain");
}

#[test]
fn bridge_config_for_default_settings() {
    let want = "# Autogenerated by Kaspa-NG\n\
kaspad_address: \"127.0.0.1:16110\"\n\
block_wait_time: 1000\n\
print_stats: true\n\
log_to_file: false\n\
health_check_port: \"\"\n\
var_diff: true\n\
shares_per_min: 20\n\
var_diff_stats: true\n\
pow2_clamp: true\n\
extranonce_size: 2\n\
coinbase_tag_suffix: \"KaspaNG\"\n\
\n\
instances:\n  - stratum_port: \":5555\"\n    min_share_diff: 2048\n";
    assert_eq!(bridge_config("127.0.0.1:16110", &StratumBridgeSettings::default()), want);
}

#[test]
fn bridge_config_keeps_values_in_range() {
    let b = StratumBridgeSettings {
        stratum_port: " ".to_string(),
        min_share_diff: 0,
        var_diff: false,
        shares_per_min: 0,
        var_diff_stats: false,
        pow2_clamp: false,
        block_wait_time_ms: 0,
        print_stats: false,
        log_to_file: true,
        health_check_port: "9090".to_string(),
        extranonce_size: 9,
        coinbase_tag_suffix: "  my \"tag\"  ".to_string(),
    };
    let got = bridge_config("node:1", &b);
    assert!(got.contains("block_wait_time: 1\n"));
    assert!(got.contains("shares_per_min: 1\n"));
    assert!(got.contains("extranonce_size: 3\n"));
    assert!(got.contains("health_check_port: \":9090\"\n"));
    assert!(got.contains("coinbase_tag_suffix: \"my \\\"tag\\\"\"\n"));
    assert!(got.contains("  - stratum_port: \":5555\"\n"));
    assert!(got.ends_with("    min_share_diff: 1\n"));
    assert!(got.contains("log_to_file: true\n"));
}

#[test]
fn bridge_needs_a_local_node_with_grpc() {
    let mut settings = Settings::default();
    let mut bridge = StratumBridgeService::new(&settings);
    assert!(bridge.is_enabled());
    assert_eq!(bridge.preflight(), None);
    assert_eq!(bridge.node_address().as_deref(), Some("127.0.0.1:16110"));
    settings.node.enable_grpc = false;
    assert_eq!(bridge.update_settings(&settings.node), vec![Action::Start]);
    assert_eq!(
        bridge.preflight().unwrap().message,
        "RK Bridge: gRPC is disabled; enable gRPC to start the bridge."
    );
    settings.node.node_kind = kaspa_ng_core::settings::KaspadNodeKind::Remote;
    assert_eq!(
        bridge.enable(true, &settings.node),
        vec![log(LogLevel::Info, "RK Bridge: disabled (node is not local)")]
    );
    let off = StratumBridgeService::new(&settings);
    assert!(!off.is_enabled());
}

#[test]
fn bridge_command_and_lines() {
    let l = StratumBridgeService::command("/bin/stratum-bridge", "/tmp/kaspa-ng-bridge-config.yaml");
    assert_eq!(l.program, "/bin/stratum-bridge");
    assert_eq!(l.args, strings(&["--config", "/tmp/kaspa-ng-bridge-config.yaml", "--node-mode", "external"]));
    assert!(l.envs.is_empty() && l.current_dir.is_none() && !l.own_process_group);
    assert_eq!(
        StratumBridgeService::waiting_line(Announcement::Waiting, "grpc://127.0.0.1:16110/"),
        "RK Bridge: waiting for Kaspa node gRPC at 127.0.0.1:16110"
    );
    assert_eq!(
        StratumBridgeService::waiting_line(Announcement::StillWaiting, "127.0.0.1:16110"),
        "RK Bridge: still waiting for Kaspa node gRPC at 127.0.0.1:16110"
    );
    assert_eq!(
        StratumBridgeService::binary_missing().message,
        "RK Bridge: stratum-bridge binary not found (build kaspa-stratum-bridge first)"
    );
    let mut b = StratumBridgeService::new(&Settings::default());
    b.handle(Event::Tick, "");
    assert_eq!(
        b.handle(Event::Started(StartOutcome::Spawned), ""),
        vec![log(LogLevel::Info, "RK Bridge: started in external mode")]
    );
    assert_eq!(StratumBridgeService::candidates(false)[0].path, "stratum-bridge");
}

// ------------------------------------------------------------- postgres

#[test]
fn postgres_levels() {
    assert_eq!(level("2024 FATAL:  role does not exist", LogLevel::Info), LogLevel::Error);
    assert_eq!(level("PANIC: oh no", LogLevel::Info), LogLevel::Error);
    assert_eq!(level("ERROR: x", LogLevel::Info), LogLevel::Error);
    assert_eq!(level("WARNING: x", LogLevel::Info), LogLevel::Warn);
    assert_eq!(level("WARNING: then ERROR: x", LogLevel::Info), LogLevel::Error);
    assert_eq!(level("something else", LogLevel::Warn), LogLevel::Warn);
    assert_eq!(level("something else", LogLevel::Info), LogLevel::Info);
    assert_eq!(level("something else", LogLevel::Error), LogLevel::Error);
    assert_eq!(level("ERROR without colon", LogLevel::Info), LogLevel::Info);
}

#[test]
fn postgres_lines_without_a_marker_have_the_level_of_their_stream() {
    assert_eq!(level("LOG:  checkpoint starting", LogLevel::Warn), LogLevel::Warn);
    assert_eq!(level("LOG:  checkpoint starting", LogLevel::Info), LogLevel::Info);
    assert_eq!(level("HINT: x", LogLevel::Warn), LogLevel::Warn);
    assert_eq!(level("TIPP: x", LogLevel::Warn), LogLevel::Warn);
    // Only the markers as they are written count.
    assert_eq!(level("FEHLER: x", LogLevel::Info), LogLevel::Info);
    assert_eq!(level("WARNUNG: x", LogLevel::Info), LogLevel::Info);
    assert_eq!(level("error: x", LogLevel::Info), LogLevel::Info);
    assert_eq!(level("Warning: x", LogLevel::Error), LogLevel::Error);
}

#[test]
fn postgres_lines_of_a_start_are_informational() {
    let line = "FATAL:  the database system is not yet accepting connections";
    assert_eq!(level(line, LogLevel::Warn), LogLevel::Info);
    assert_eq!(level(line, LogLevel::Error), LogLevel::Info);
    let line = "DETAIL:  Consistent recovery state has not been yet reached. ERROR: x";
    assert_eq!(level(line, LogLevel::Warn), LogLevel::Info);
}

#[test]
fn lines_are_classified_by_one_rule() {
    for fallback in [LogLevel::Info, LogLevel::Warn, LogLevel::Error] {
        assert_eq!(classify("FATAL: a", false, fallback), LogLevel::Error);
        assert_eq!(classify("x PANIC: a", false, fallback), LogLevel::Error);
        assert_eq!(classify("ERROR:", false, fallback), LogLevel::Error);
        assert_eq!(classify("WARNING: a", false, fallback), LogLevel::Warn);
        assert_eq!(classify("plain", false, fallback), fallback);
        assert_eq!(classify("", false, fallback), fallback);
        assert_eq!(classify("FATAL: a", true, fallback), LogLevel::Info);
        assert_eq!(classify("plain", true, fallback), LogLevel::Info);
    }
}

#[test]
fn postgres_boot_messages_are_not_errors() {
    assert_eq!(
        level("FATAL:  the database system is not yet accepting connections", LogLevel::Warn),
        LogLevel::Info
    );
    assert_eq!(
        level("DETAIL: Consistent recovery state has not been yet reached. ERROR:", LogLevel::Warn),
        LogLevel::Info
    );
}

#[test]
fn connection_strings() {
    assert_eq!(
        build_conn_str("127.0.0.1", 5432, "kaspa", Some("pw"), "postgres"),
        "host=127.0.0.1 port=5432 user=kaspa password=pw dbname=postgres connect_timeout=2"
    );
    assert_eq!(
        build_conn_str("db", 1, "admin", None, "postgres"),
        "host=db port=1 user=admin dbname=postgres connect_timeout=2"
    );
    let c = DbConfig { host: "h".into(), port: 5433, user: "u".into(), password: "p".into(), dbname: "d".into() };
    assert_eq!(c.to_conn_string(), "host=h port=5433 user=u password=p dbname=d connect_timeout=5");
}

#[test]
fn sql_is_escaped() {
    assert_eq!(escape_literal("o'brien"), "o''brien");
    assert_eq!(escape_literal("''"), "''''");
    assert_eq!(escape_identifier("we\"ird"), "we\"\"ird");
    let mut s = SelfHostedSettings::default();
    s.db_user = " ka'spa ".to_string();
    s.db_password = "p'w".to_string();
    s.db_name = "my\"db".to_string();
    assert_eq!(ensure_sql(EnsureStage::RoleExists, &s), "SELECT 1 FROM pg_roles WHERE rolname = 'ka''spa';");
    assert_eq!(ensure_sql(EnsureStage::CreateRole, &s), "CREATE ROLE \"ka'spa\" LOGIN PASSWORD 'p''w';");
    assert_eq!(ensure_sql(EnsureStage::DbExists, &s), "SELECT 1 FROM pg_database WHERE datname='my\"db';");
    assert_eq!(ensure_sql(EnsureStage::CreateDb, &s), "CREATE DATABASE \"my\"\"db\" OWNER \"ka'spa\";");
}

#[test]
fn postgres_is_looked_for_in_install_dirs_then_path() {
    assert_eq!(candidate_bin_dirs(Platform::Linux).len(), 5);
    assert_eq!(candidate_bin_dirs(Platform::MacOs).len(), 4);
    assert_eq!(candidate_bin_dirs(Platform::Windows).len(), 2);
    assert!(candidate_bin_dirs(Platform::Other).is_empty());
    let c = postgres_bin_candidates("psql", Platform::Linux);
    assert_eq!(c.len(), 6);
    assert_eq!(c[0], Candidate { base: Base::AsGiven, path: "/usr/lib/postgresql/15/bin/psql".to_string() });
    assert_eq!(c[4], Candidate { base: Base::AsGiven, path: "/usr/bin/psql".to_string() });
    assert_eq!(c[5], Candidate { base: Base::SearchPath, path: "psql".to_string() });
    let w = postgres_bin_candidates("initdb", Platform::Windows);
    assert_eq!(w[0].path, "C:\\Program Files\\PostgreSQL\\15\\bin/initdb.exe");
    assert_eq!(w[2], Candidate { base: Base::SearchPath, path: "initdb.exe".to_string() });
    assert_eq!(
        bin_missing("postgres", Platform::Linux).message,
        "postgres binary not found: postgres (searched common install paths and PATH)"
    );
}

#[test]
fn data_dir_comes_from_settings_or_storage() {
    let mut s = SelfHostedSettings::default();
    assert_eq!(resolve_data_dir(&s, "/home/u/.kaspa-ng"), "/home/u/.kaspa-ng/self-hosted/postgres");
    s.postgres_data_dir = "  /var/pg  ".to_string();
    assert_eq!(resolve_data_dir(&s, "/home/u/.kaspa-ng"), "/var/pg");
}

#[test]
fn running_server_is_adopted_and_stale_mark_removed() {
    assert_eq!(decide_adoption(false, false), Adoption::Fresh);
    assert_eq!(decide_adoption(false, true), Adoption::Fresh);
    assert_eq!(decide_adoption(true, true), Adoption::Adopt);
    assert_eq!(decide_adoption(true, false), Adoption::ClearStalePid);
    assert!(adoption_notes(Adoption::Fresh).is_empty());
    assert_eq!(
        adoption_notes(Adoption::Adopt),
        strings(&[
            "postmaster.pid exists; assuming postgres is already running",
            "external postgres detected; log streaming only available when started by Kaspa NG",
        ])
    );
    assert_eq!(
        adoption_notes(Adoption::ClearStalePid),
        strings(&["postmaster.pid exists but postgres is not reachable; removing stale pid"])
    );
}

#[test]
fn initdb_and_server_commands() {
    let s = SelfHostedSettings::default();
    assert_eq!(password_file_name(1700000000123456789), "kaspa-ng-pwfile-1700000000123456789");
    let i = initdb_command("/usr/bin/initdb", &s, "/data", "/tmp/pw");
    assert_eq!(
        i.args,
        strings(&["-D", "/data", "-U", "kaspa", "--auth=md5", "--encoding=UTF8", "--pwfile=/tmp/pw"])
    );
    assert_eq!(i.envs, vec![("LC_MESSAGES".to_string(), "C".to_string())]);
    assert_eq!(initdb_failed(true, "exit status: 1"), "initdb failed with status exit status: 1");
    assert_eq!(initdb_failed(false, "not found"), "initdb failed: not found");
    let p = postgres_command("/usr/bin/postgres", &s, "/data");
    assert_eq!(p.program, "/usr/bin/postgres");
    assert_eq!(
        p.args,
        strings(&[
            "-D",
            "/data",
            "-p",
            "5432",
            "-h",
            "127.0.0.1",
            "-c",
            "max_wal_size=4GB",
            "-c",
            "checkpoint_timeout=15min",
            "-c",
            "checkpoint_completion_target=0.9",
            "-c",
            "lc_messages=C",
        ])
    );
    assert_eq!(
        p.envs,
        vec![
            ("LANG".to_string(), "C".to_string()),
            ("LC_ALL".to_string(), "C".to_string()),
            ("LC_MESSAGES".to_string(), "C".to_string()),
        ]
    );
    assert!(!p.own_process_group);
}

#[test]
fn administrators_and_sockets() {
    assert_eq!(admin_user_candidates(Some("alice")), strings(&["alice", "postgres"]));
    assert_eq!(admin_user_candidates(Some("  ")), strings(&["postgres"]));
    assert_eq!(admin_user_candidates(None), strings(&["postgres"]));
    assert_eq!(
        socket_hosts(Platform::Linux),
        strings(&["/tmp", "/private/tmp", "/var/run/postgresql", "/run/postgresql"])
    );
    assert!(socket_hosts(Platform::Windows).is_empty());
}

#[test]
fn server_is_tried_as_user_then_as_administrators() {
    let t = |admin: &str, host: Option<&str>, use_tcp: bool| PsqlTarget {
        admin: Some(admin.to_string()),
        host: host.map(|h| h.to_string()),
        use_tcp,
    };
    let got = ensure_targets("kaspa", &strings(&["alice", "postgres"]), &strings(&["/tmp", "/run"]));
    assert_eq!(
        got,
        vec![
            t("kaspa", None, false),
            t("kaspa", Some("/tmp"), false),
            t("kaspa", Some("/run"), false),
            t("kaspa", None, true),
            t("alice", None, false),
            t("alice", Some("/tmp"), false),
            t("alice", Some("/run"), false),
            t("alice", None, true),
            t("postgres", None, false),
            t("postgres", Some("/tmp"), false),
            t("postgres", Some("/run"), false),
            t("postgres", None, true),
        ]
    );
    assert_eq!(
        ensure_targets("u", &Vec::new(), &Vec::new()),
        vec![t("u", None, false), t("u", None, true)]
    );
}

#[test]
fn psql_is_run_with_fixed_arguments() {
    let mut s = SelfHostedSettings::default();
    s.db_password = " pw ".to_string();
    s.db_host = "dbhost".to_string();
    let base = ["-X", "-v", "ON_ERROR_STOP=1", "-w", "-d", "postgres", "-tAc", "SELECT 1;", "-p", "5432"];
    let run = |target: &PsqlTarget| psql_command("/usr/bin/psql", &s, target, "SELECT 1;");
    let plain = run(&PsqlTarget { admin: Some("kaspa".into()), host: None, use_tcp: false });
    assert_eq!(plain.args, strings(&[&base[..], &["-U", "kaspa"]].concat()));
    assert_eq!(
        plain.envs,
        vec![("PGPASSWORD".to_string(), "pw".to_string()), ("LC_MESSAGES".to_string(), "C".to_string())]
    );
    let socket = run(&PsqlTarget { admin: Some("a".into()), host: Some("/tmp".into()), use_tcp: false });
    assert_eq!(socket.args, strings(&[&base[..], &["-h", "/tmp", "-U", "a"]].concat()));
    let tcp = run(&PsqlTarget { admin: None, host: None, use_tcp: true });
    assert_eq!(tcp.args, strings(&[&base[..], &["-h", "dbhost"]].concat()));
    let tcp_host = run(&PsqlTarget { admin: None, host: Some("other".into()), use_tcp: true });
    assert_eq!(tcp_host.args, strings(&[&base[..], &["-h", "other"]].concat()));
}

#[test]
fn role_and_database_are_created_only_where_missing() {
    let (done, failed) = (EnsureMove::Done, EnsureMove::Failed);
    let run = EnsureMove::Run;
    let (role_exists, create_role) = (EnsureStage::RoleExists, EnsureStage::CreateRole);
    let (db_exists, create_db) = (EnsureStage::DbExists, EnsureStage::CreateDb);
    assert_eq!(next_ensure_move(role_exists, true, "1\n"), run(db_exists));
    assert_eq!(next_ensure_move(role_exists, true, "  \n"), run(create_role));
    assert_eq!(next_ensure_move(role_exists, false, "1"), failed);
    assert_eq!(next_ensure_move(create_role, true, ""), run(db_exists));
    assert_eq!(next_ensure_move(create_role, false, ""), failed);
    assert_eq!(next_ensure_move(db_exists, true, "1"), done);
    assert_eq!(next_ensure_move(db_exists, true, ""), run(create_db));
    assert_eq!(next_ensure_move(db_exists, false, ""), failed);
    assert_eq!(next_ensure_move(create_db, true, "CREATE DATABASE"), done);
    assert_eq!(next_ensure_move(create_db, false, ""), failed);
    let mut s = SelfHostedSettings::default();
    assert!(should_ensure(&s));
    s.db_name = " ".to_string();
    assert!(!should_ensure(&s));
}

#[test]
fn ensure_failures_are_worded_with_the_target() {
    assert_eq!(debug_option_text(None), "None");
    assert_eq!(debug_option_text(Some("\"x\"")), "Some(\"x\")");
    assert_eq!(
        ensure_error_line(EnsureStage::RoleExists, "Some(\"kaspa\")", "None", false, " psql: refused \n"),
        "role check failed (admin=Some(\"kaspa\"), host=None, tcp=false): psql: refused"
    );
    let target = PsqlTarget { admin: Some("ka\"spa".into()), host: Some("/tmp".into()), use_tcp: true };
    assert_eq!(
        ensure_failure(EnsureStage::CreateDb, &target, "denied"),
        "db creation failed (admin=Some(\"ka\\\"spa\"), host=Some(\"/tmp\"), tcp=true): denied"
    );
    assert_eq!(
        ensure_failure(EnsureStage::CreateRole, &PsqlTarget { admin: None, host: None, use_tcp: false }, "e"),
        "role creation failed (admin=None, host=None, tcp=false): e"
    );
    assert_eq!(
        ensure_failure(EnsureStage::DbExists, &PsqlTarget { admin: None, host: None, use_tcp: false }, "e"),
        "db check failed (admin=None, host=None, tcp=false): e"
    );
    assert_eq!(
        ensure_gave_up(Some("x failed")),
        strings(&["unable to create role/database; ensure a superuser is available", "last error: x failed"])
    );
    assert_eq!(
        ensure_gave_up(None),
        strings(&["unable to create role/database; ensure a superuser is available"])
    );
}

#[test]
fn server_is_tested_as_user_and_as_first_administrator() {
    let mut s = SelfHostedSettings::default();
    s.db_password = "pw".to_string();
    assert_eq!(
        readiness_probes(&s, &strings(&["alice", "postgres"])),
        strings(&[
            "host=127.0.0.1 port=5432 user=kaspa password=pw dbname=postgres connect_timeout=2",
            "host=127.0.0.1 port=5432 user=alice dbname=postgres connect_timeout=2",
        ])
    );
    assert_eq!(readiness_probes(&s, &Vec::new()).len(), 1);
    assert_eq!(adoption_wait(), WaitPolicy::server(5));
    assert_eq!(startup_wait().max_attempts, Some(20));
}

#[test]
fn postgres_service_follows_requests() {
    let mut settings = Settings::default();
    let mut pg = SelfHostedPostgresService::new(&settings);
    assert!(!pg.is_enabled());
    assert_eq!(pg.dispatch(SelfHostedPostgresEvents::Enable), vec![]);
    assert!(pg.is_enabled());
    settings.self_hosted.enabled = true;
    assert_eq!(
        pg.dispatch(SelfHostedPostgresEvents::UpdateSettings(settings.self_hosted.clone())),
        vec![Action::Start]
    );
    assert_eq!(
        pg.handle(Event::Started(StartOutcome::Spawned), ""),
        vec![log(LogLevel::Info, "postgres: started")]
    );
    assert!(pg.is_running());
    assert_eq!(pg.dispatch(SelfHostedPostgresEvents::Enable), vec![Action::Stop, Action::Start]);
    pg.handle(Event::Started(StartOutcome::Spawned), "");
    assert_eq!(
        pg.dispatch(SelfHostedPostgresEvents::Disable),
        vec![Action::Stop, log(LogLevel::Info, "postgres: stopped")]
    );
    assert_eq!(pg.dispatch(SelfHostedPostgresEvents::Exit), vec![Action::Done]);
    assert_eq!(SelfHostedPostgresService::spawn_failed("x").message, "failed to start (x)");
    assert_eq!(pg.data_dir("/s"), "/s/self-hosted/postgres");
    assert_eq!(pg.command("/bin/postgres", "/d").args[1], "/d");
}

// -------------------------------------------------------------- indexer

#[test]
fn wrpc_hosts_are_freed_of_scheme_path_and_port() {
    assert_eq!(sanitize_wrpc_host(" ws://node.local:17110/path "), "node.local");
    assert_eq!(sanitize_wrpc_host("wss://node"), "node");
    assert_eq!(sanitize_wrpc_host("127.0.0.1"), "127.0.0.1");
    assert_eq!(sanitize_wrpc_host("[::1]:17110"), "[::1]");
    assert_eq!(sanitize_wrpc_host("[::1"), "[::1");
    assert_eq!(sanitize_wrpc_host("fe80::1:2"), "fe80::1:2");
    assert_eq!(sanitize_wrpc_host("http://x:1"), "http");
    assert_eq!(sanitize_wrpc_host(""), "");
    assert_eq!(sanitize_wrpc_host("ws://:17110"), "");
}

#[test]
fn default_endpoints_follow_the_node() {
    for url in ["", "  ", "ws://127.0.0.1:17110", "WS://LOCALHOST:17210/x", "ws://[::1]:17110"] {
        assert!(should_auto_adjust_indexer_rpc_url(url), "{url:?}");
    }
    for url in ["ws://10.0.0.1:17110", "wss://127.0.0.1:17110", "ws://127.0.0.1:18110"] {
        assert!(!should_auto_adjust_indexer_rpc_url(url), "{url:?}");
    }
}

#[test]
fn indexer_endpoint_and_network() {
    let mut s = SelfHostedSettings::default();
    let mut n = NodeSettings::default();
    assert_eq!(effective_indexer_rpc_url(&s, &n), "ws://127.0.0.1:17110");
    n.network = Network::Testnet10;
    n.wrpc_url = "wss://node.example:1234/x".to_string();
    assert_eq!(effective_indexer_rpc_url(&s, &n), "ws://node.example:17210");
    n.wrpc_url = "  ".to_string();
    assert_eq!(effective_indexer_rpc_url(&s, &n), "ws://127.0.0.1:17210");
    s.indexer_rpc_url = "ws://remote:9000".to_string();
    assert_eq!(effective_indexer_rpc_url(&s, &n), "ws://remote:9000");
    assert_eq!(default_wrpc_port(Network::Mainnet), 17110);
    assert_eq!(default_wrpc_port(Network::Testnet12), 17210);
    assert_eq!(indexer_network_arg(&n), "testnet-10");
    n.network = Network::Mainnet;
    assert_eq!(indexer_network_arg(&n), "mainnet");
}

#[test]
fn indexer_database_url_and_binary_places() {
    let mut s = SelfHostedSettings::default();
    s.db_password = "pw".to_string();
    let mut e = Effective::stored(&s);
    e.db_port = 5433;
    e.db_name = "kaspa_tn10".to_string();
    assert_eq!(build_database_url(&s, &e), "postgres://kaspa:pw@127.0.0.1:5433/kaspa_tn10");
    assert_eq!(find_indexer_binary(&s).len(), 4);
    s.indexer_binary = " /opt/indexer ".to_string();
    let c = find_indexer_binary(&s);
    assert_eq!(c[0], Candidate { base: Base::AsGiven, path: "/opt/indexer".to_string() });
    assert_eq!(
        c[1],
        Candidate {
            base: Base::WorkingDir,
            path: "simply-kaspa-indexer/target/release/simply-kaspa-indexer".to_string()
        }
    );
    assert_eq!(c[4].base, Base::ExeDir);
    assert_eq!(c[4].path, "simply-kaspa-indexer/target/debug/simply-kaspa-indexer");
}

#[test]
fn indexer_checks_come_in_order() {
    let mut settings = Settings::default();
    settings.self_hosted.enabled = true;
    settings.self_hosted.db_password = "pw".to_string();
    let indexer = SelfHostedIndexerService::new(&settings);
    let e = Effective::stored(&settings.self_hosted);
    let checks = indexer.checks(&e);
    assert_eq!(checks.len(), 3);
    assert_eq!(checks[0].gate, Gate::PortFree { address: "127.0.0.1:8500".to_string() });
    assert_eq!(checks[0].failure.outcome, StartOutcome::PortInUse);
    assert_eq!(checks[0].failure.level, LogLevel::Error);
    assert_eq!(
        checks[0].failure.message,
        "listen address already in use (127.0.0.1:8500); refusing to start indexer"
    );
    assert_eq!(
        checks[1].gate,
        Gate::Database {
            server: "host=127.0.0.1 port=5432 user=kaspa password=pw dbname=postgres connect_timeout=3".to_string(),
            database: Some("kaspa".to_string()),
            target: "host=127.0.0.1 port=5432 user=kaspa password=pw dbname=kaspa connect_timeout=3".to_string(),
            policy: WaitPolicy::database(),
        }
    );
    assert_eq!(checks[1].failure.outcome, StartOutcome::NotReady);
    assert!(matches!(checks[2].gate, Gate::Located { .. }));
    assert_eq!(checks[2].failure.outcome, StartOutcome::BinaryMissing);
    assert_eq!(checks[2].failure.message, "binary not found; unable to start simply-kaspa-indexer");
}

#[test]
fn indexer_command_and_started_lines() {
    let mut settings = Settings::default();
    settings.self_hosted.enabled = true;
    settings.self_hosted.db_password = "pw".to_string();
    settings.node.network = Network::Testnet12;
    let mut indexer = SelfHostedIndexerService::new(&settings);
    let e = Effective::stored(&settings.self_hosted);
    let l = indexer.command("/opt/indexer", &e);
    assert_eq!(
        l.args,
        strings(&[
            "-s",
            "ws://127.0.0.1:17210",
            "-n",
            "testnet-10",
            "-d",
            "postgres://kaspa:pw@127.0.0.1:5432/kaspa",
            "-l",
            "127.0.0.1:8500",
            "-u",
            "--prune-db",
            "--retention=7d",
            "--enable=transactions_inputs_resolve",
        ])
    );
    assert!(l.own_process_group);
    assert_eq!(
        indexer.started_lines(),
        strings(&[
            "using indexer rpc endpoint: ws://127.0.0.1:17210",
            "using indexer network: testnet-10 (testnet-12 compatibility mode)",
            "selected app network: testnet-12",
        ])
    );
    let mut node = settings.node.clone();
    node.network = Network::Mainnet;
    let mut sh = settings.self_hosted.clone();
    sh.indexer_upgrade_db = false;
    sh.indexer_extra_args = "  ".to_string();
    assert_eq!(indexer.handle(Event::Tick, ""), vec![Action::Start]);
    assert_eq!(indexer.dispatch(SelfHostedIndexerEvents::UpdateNodeSettings(node)), vec![]);
    indexer.dispatch(SelfHostedIndexerEvents::UpdateSettings(sh));
    assert_eq!(indexer.command("/opt/indexer", &e).args.len(), 8);
    assert_eq!(
        indexer.started_lines(),
        strings(&[
            "using indexer rpc endpoint: ws://127.0.0.1:17110",
            "using indexer network: mainnet",
            "selected app network: mainnet",
        ])
    );
    assert_eq!(SelfHostedIndexerService::spawn_failed("e").level, LogLevel::Error);
}

#[test]
fn database_wait_lines() {
    assert_eq!(database_missing_line("kaspa"), "database 'kaspa' is not ready yet");
    assert_eq!(database_not_ready_line(Some("refused")), "database not ready after retries: refused");
    assert_eq!(database_not_ready_line(None), "database not ready after retries");
}

// ------------------------------------------------------------ addresses

#[test]
fn wildcard_binds_are_reached_on_loopback() {
    for bind in ["", "  ", "0.0.0.0", "::", "[::]", " 0.0.0.0 "] {
        assert_eq!(resolve_bind_host(bind), "127.0.0.1", "{bind:?}");
    }
    assert_eq!(resolve_bind_host(" 10.1.2.3 "), "10.1.2.3");
    assert_eq!(resolve_bind_host("localhost"), "localhost");
    assert_eq!(join_host_port("h", 80), "h:80");
}

// ------------------------------------------------------------ status api

#[test]
fn stream_interval_is_kept_in_range() {
    assert_eq!(clamp_stream_interval(None), 10);
    assert_eq!(clamp_stream_interval(Some(0)), 5);
    assert_eq!(clamp_stream_interval(Some(5)), 5);
    assert_eq!(clamp_stream_interval(Some(30)), 30);
    assert_eq!(clamp_stream_interval(Some(60)), 60);
    assert_eq!(clamp_stream_interval(Some(61)), 60);
    assert_eq!(clamp_stream_interval(Some(u64::MAX)), 60);
}

#[test]
fn log_limit_is_kept_in_range() {
    assert_eq!(clamp_log_limit(None), 10);
    assert_eq!(clamp_log_limit(Some(0)), 10);
    assert_eq!(clamp_log_limit(Some(10)), 10);
    assert_eq!(clamp_log_limit(Some(500)), 500);
    assert_eq!(clamp_log_limit(Some(1000)), 1000);
    assert_eq!(clamp_log_limit(Some(1001)), 1000);
}

#[test]
fn logs_are_served_by_service_name() {
    let mut stores = LogStores {
        postgres: LogStore::new(100),
        indexer: LogStore::new(100),
        k_indexer: LogStore::new(100),
        rest: LogStore::new(100),
        socket: LogStore::new(100),
    };
    for i in 0..30 {
        stores.indexer.push(LogLevel::Info, &format!("i{i}"));
    }
    stores.k_indexer.push(LogLevel::Warn, "k");
    let got = logs_for(&stores, "indexer", None).unwrap();
    assert_eq!(got.len(), 10);
    assert_eq!(got[0].message, "i20");
    assert_eq!(got[9].message, "i29");
    assert_eq!(logs_for(&stores, "indexer", Some(5)).unwrap().len(), 10);
    assert_eq!(logs_for(&stores, "indexer", Some(5000)).unwrap().len(), 30);
    assert_eq!(logs_for(&stores, "k-indexer", None).unwrap()[0].message, "k");
    assert!(logs_for(&stores, "postgres", None).unwrap().is_empty());
    assert!(logs_for(&stores, "rest", None).unwrap().is_empty());
    assert!(logs_for(&stores, "socket", None).unwrap().is_empty());
    assert!(logs_for(&stores, "Indexer", None).is_none());
    assert!(logs_for(&stores, "", None).is_none());
    for s in [LogService::Postgres, LogService::Indexer, LogService::KIndexer, LogService::Rest, LogService::Socket] {
        assert_eq!(LogService::parse(s.as_str()), Some(s));
    }
}

#[test]
fn table_totals_add_up_and_saturate() {
    let t = |name: &str, rows: i64, bytes: i64| TableStats {
        table_name: name.to_string(),
        live_rows: rows,
        total_size_bytes: bytes,
    };
    let tables = vec![t("transactions", 1000, 5_000_000), t("blocks", 10, 20_000), t("vars", 1, 8192)];
    let totals = table_totals(&tables);
    assert_eq!((totals.live_rows, totals.total_size_bytes), (1011, 5_028_192));
    let none = table_totals(&Vec::new());
    assert_eq!((none.live_rows, none.total_size_bytes), (0, 0));
    let big = table_totals(&vec![t("a", i64::MAX, 1), t("b", 1, -5)]);
    assert_eq!((big.live_rows, big.total_size_bytes), (i64::MAX, -4));
    assert_eq!(table_from_row(None, 1, 2).table_name, "unknown");
    assert_eq!(table_from_row(Some("x".to_string()), 1, 2), t("x", 1, 2));
}

#[test]
fn status_names_the_largest_table() {
    let tables = vec![
        TableStats { table_name: "big".into(), live_rows: 5, total_size_bytes: 100 },
        TableStats { table_name: "small".into(), live_rows: 7, total_size_bytes: 10 },
    ];
    let p = assemble_status(110, 3, 2, 99, tables.clone(), "2024-01-01T00:00:00+00:00".to_string());
    assert_eq!(p.db_size_bytes, 110);
    assert_eq!((p.connected_clients, p.table_count, p.uptime_seconds), (3, 2, 99));
    assert_eq!(p.largest_table.as_deref(), Some("big"));
    assert_eq!((p.table_totals.live_rows, p.table_totals.total_size_bytes), (12, 110));
    assert_eq!(p.table_stats, tables);
    assert_eq!(p.timestamp, "2024-01-01T00:00:00+00:00");
    let empty = assemble_status(0, 0, 0, 0, Vec::new(), String::new());
    assert_eq!(empty.largest_table, None);
    assert_eq!(METRICS_UNAVAILABLE_STATUS, 503);
    assert_eq!(METRICS_UNAVAILABLE, "Unable to collect indexer metrics");
}

#[test]
fn status_api_service_follows_requests() {
    let mut settings = Settings::default();
    settings.self_hosted.enabled = true;
    settings.self_hosted.db_password = "pw".to_string();
    let mut api = SelfHostedDbService::new(&settings);
    assert!(api.is_enabled());
    assert_eq!(api.handle(Event::Tick, ""), vec![Action::Start]);
    api.handle(Event::Started(StartOutcome::Spawned), "");
    assert!(api.is_running());
    assert_eq!(
        api.dispatch(SelfHostedDbEvents::UpdateNodeSettings(settings.node.clone())),
        vec![Action::Stop, Action::Start]
    );
    let e = Effective::stored(&settings.self_hosted);
    assert_eq!(api.bind_address(&e), "127.0.0.1:19111");
    assert_eq!(
        api.address_in_use_line(&e),
        "address already in use (127.0.0.1:19111): another process is already bound"
    );
    assert_eq!(SelfHostedDbService::invalid_bind_line("bad"), "invalid bind address: bad");
    assert_eq!(
        api.database(&e).to_conn_string(),
        "host=127.0.0.1 port=5432 user=kaspa password=pw dbname=kaspa connect_timeout=5"
    );
    assert_eq!(api.dispatch(SelfHostedDbEvents::Exit), vec![Action::Done]);
}

#[test]
fn collected_stats_carry_a_time_stamp() {
    let tables = vec![
        TableStats { table_name: "blocks".to_string(), live_rows: 5, total_size_bytes: 100 },
        TableStats { table_name: "vars".to_string(), live_rows: 7, total_size_bytes: 10 },
    ];
    let p = collect_stats(110, 3, 2, 99, tables.clone());
    assert_eq!(p.db_size_bytes, 110);
    assert_eq!(p.connected_clients, 3);
    assert_eq!(p.table_count, 2);
    assert_eq!(p.uptime_seconds, 99);
    assert_eq!(p.table_stats, tables);
    assert_eq!((p.table_totals.live_rows, p.table_totals.total_size_bytes), (12, 110));
    assert_eq!(p.largest_table.as_deref(), Some("blocks"));
    // An RFC 3339 time stamp: date, `T`, time, offset.
    assert!(p.timestamp.len() >= 20);
    assert_eq!(&p.timestamp[4..5], "-");
    assert_eq!(&p.timestamp[10..11], "T");
    assert!(p.timestamp.ends_with("+00:00"));
    let empty = collect_stats(0, 0, 0, 0, Vec::new());
    assert_eq!(empty.largest_table, None);
}

#[test]
fn database_wait_is_announced_in_two_forms() {
    assert_eq!(
        kaspa_ng_core::services::self_hosted_indexer::database_waiting_line(
            kaspa_ng_core::readiness::Announcement::Waiting
        ),
        "waiting for database"
    );
    assert_eq!(
        kaspa_ng_core::services::self_hosted_indexer::database_waiting_line(
            kaspa_ng_core::readiness::Announcement::StillWaiting
        ),
        "still waiting for database"
    );
}

#[test]
fn views_are_told_of_new_lines_only_where_they_asked() {
    let headless = kaspa_ng_core::services::Context::headless();
    assert!(!headless.wants_update(1));
    let asked = kaspa_ng_core::services::Context { update_logs: true, attached: true };
    assert!(asked.wants_update(1));
    assert!(asked.wants_update(usize::MAX));
    assert!(!asked.wants_update(0));
    let detached = kaspa_ng_core::services::Context { update_logs: true, attached: false };
    assert!(!detached.wants_update(1));
    let silent = kaspa_ng_core::services::Context { update_logs: false, attached: true };
    assert!(!silent.wants_update(1));
}

#[test]
fn status_routes_are_those_of_the_interface() {
    assert_eq!(kaspa_ng_core::services::self_hosted_db::STATUS_ROUTE, "/status");
    assert_eq!(kaspa_ng_core::services::self_hosted_db::STATUS_STREAM_ROUTE, "/status/stream");
    assert_eq!(kaspa_ng_core::services::self_hosted_db::HEALTH_ROUTE, "/healthz");
    assert_eq!(kaspa_ng_core::services::self_hosted_db::LOGS_ROUTE, "/logs/:service");
}

#[test]
fn served_lines_hold_no_escape_sequences() {
    let mut stores = LogStores {
        postgres: LogStore::new(4),
        indexer: LogStore::new(4),
        k_indexer: LogStore::new(4),
        rest: LogStore::new(4),
        socket: LogStore::new(4),
    };
    stores.indexer.push(LogLevel::Info, "\u{1b}[31mred\u{1b}[0m and \u{1b}]0;title\u{7}plain");
    let lines = logs_for(&stores, "indexer", None).unwrap();
    assert_eq!(lines.len(), 1);
    assert_eq!(lines[0].message, "red and plain");
    assert!(!lines[0].message.contains('\u{1b}'));
}

use kaspa_ng_core::launcher::{Base, Candidate, Gate, Platform};
use kaspa_ng_core::log_store::LogLevel;
use kaspa_ng_core::network::Network;
use kaspa_ng_core::readiness::WaitPolicy;
use kaspa_ng_core::services::self_hosted_explorer::{
    apply_common_env, build_command, build_sql_uri, choose_runtime, detect_log_level,
    find_poetry_compatible_python, find_python, find_server_root, find_venv_python,
    network_type, poetry_env_use, poetry_install, python_module_available, Runtime,
    RuntimeFacts, SelfHostedExplorerEvents, SelfHostedExplorerService,
};
use kaspa_ng_core::services::self_hosted_k_indexer::{
    k_network, SelfHostedKIndexerEvents, SelfHostedKIndexerService,
};
use kaspa_ng_core::services::{Action, Pair, Part, PartActions, PartEvent, SharedEvent};
use kaspa_ng_core::settings::{Effective, NodeSettings, SelfHostedSettings, Settings};
use kaspa_ng_core::supervisor::{Command, ExitKind, StartOutcome};

fn log(level: LogLevel, message: &str) -> Action {
    Action::Log { level, message: message.to_string() }
}

fn strings(v: &[&str]) -> Vec<String> {
    v.iter().map(|s| s.to_string()).collect()
}

fn k_settings() -> Settings {
    let mut s = Settings::default();
    s.self_hosted.enabled = true;
    s.self_hosted.k_enabled = true;
    s.self_hosted.db_password = "pw".to_string();
    s
}

// ----------------------------------------------------------------- pair

#[test]
fn pair_shares_the_switch_but_not_the_children() {
    let mut p = Pair::new(false, true);
    let (a, b) = p.broadcast(SharedEvent::Enable { applicable: true });
    assert_eq!(a, vec![Command::Start]);
    assert_eq!(b, vec![Command::Start]);
    assert!(p.is_enabled());
    p.notify(Part::First, PartEvent::Started(StartOutcome::Spawned));
    assert!(p.is_running(Part::First));
    assert!(!p.is_running(Part::Second));
    p.notify(Part::Second, PartEvent::Started(StartOutcome::NotReady));
    let (a, b) = p.broadcast(SharedEvent::Tick);
    assert_eq!(a, vec![]);
    assert_eq!(b, vec![Command::Start]);
    p.notify(Part::Second, PartEvent::Started(StartOutcome::Spawned));
    let (a, b) = p.broadcast(SharedEvent::Disable);
    assert_eq!(a.len(), 2);
    assert_eq!(b.len(), 2);
    assert!(!p.is_enabled());
    assert!(!p.is_running(Part::First) && !p.is_running(Part::Second));
}

#[test]
fn one_part_crashing_leaves_the_other_alone() {
    let mut p = Pair::new(true, true);
    p.broadcast(SharedEvent::Tick);
    p.notify(Part::First, PartEvent::Started(StartOutcome::Spawned));
    p.notify(Part::Second, PartEvent::Started(StartOutcome::Spawned));
    let cmds = p.notify(Part::Second, PartEvent::ChildExited(ExitKind::Exited { success: false }));
    assert_eq!(cmds.len(), 2);
    assert!(p.is_running(Part::First));
    assert!(!p.is_running(Part::Second));
    assert_eq!(p.notify(Part::Second, PartEvent::RestartDue), vec![Command::Start]);
    assert_eq!(p.notify(Part::First, PartEvent::RestartDue), vec![]);
}

// ------------------------------------------------------------ k-indexer

#[test]
fn social_indexer_runs_on_mainnet_only() {
    let mut n = NodeSettings::default();
    assert_eq!(k_network(&n), Some("mainnet"));
    n.network = Network::Testnet10;
    assert_eq!(k_network(&n), None);
    let mut settings = k_settings();
    assert!(SelfHostedKIndexerService::new(&settings).is_enabled());
    settings.node.network = Network::Testnet12;
    assert!(!SelfHostedKIndexerService::new(&settings).is_enabled());
    settings.node.network = Network::Mainnet;
    settings.self_hosted.k_enabled = false;
    assert!(!SelfHostedKIndexerService::new(&settings).is_enabled());
}

#[test]
fn social_indexer_tells_why_it_does_not_start() {
    let mut settings = k_settings();
    settings.node.network = Network::Testnet10;
    let mut k = SelfHostedKIndexerService::new(&settings);
    let out = k.enable(true);
    assert_eq!(
        out,
        PartActions {
            first: vec![log(LogLevel::Info, "K-indexer is only available on Mainnet")],
            second: vec![],
        }
    );
    let mut off = settings.self_hosted.clone();
    off.k_enabled = false;
    let out = k.update_settings(off);
    assert_eq!(
        out,
        PartActions {
            first: vec![log(LogLevel::Info, "K-indexer disabled by settings (self-hosted or k_enabled is false)")],
            second: vec![log(LogLevel::Info, "K-webserver disabled by settings (self-hosted or k_enabled is false)")],
        }
    );
}

#[test]
fn social_indexer_starts_both_parts_and_heals() {
    let mut k = SelfHostedKIndexerService::new(&k_settings());
    let out = k.tick();
    assert_eq!(out, PartActions { first: vec![Action::Start], second: vec![Action::Start] });
    assert_eq!(
        k.notify(Part::First, PartEvent::Started(StartOutcome::Spawned), ""),
        vec![log(LogLevel::Info, "K-transaction-processor: started")]
    );
    assert_eq!(k.notify(Part::Second, PartEvent::Started(StartOutcome::NotReady), ""), vec![]);
    assert_eq!(k.tick(), PartActions { first: vec![], second: vec![Action::Start] });
    k.notify(Part::Second, PartEvent::Started(StartOutcome::Spawned), "");
    assert!(k.is_running(Part::First) && k.is_running(Part::Second));
    assert_eq!(k.tick(), PartActions { first: vec![], second: vec![] });
    assert_eq!(
        k.notify(Part::First, PartEvent::ChildExited(ExitKind::Exited { success: false }), "exit status: 1"),
        vec![
            log(LogLevel::Warn, "K-transaction-processor exited with status: exit status: 1"),
            log(LogLevel::Info, "K-transaction-processor: process exited; restarting in 3s"),
            Action::ArmRestart { delay_secs: 3 },
        ]
    );
    assert_eq!(
        k.notify(Part::Second, PartEvent::ChildExited(ExitKind::MonitorError), "gone"),
        vec![
            log(LogLevel::Warn, "K-webserver state check failed: gone"),
            log(LogLevel::Info, "K-webserver: state check failed; restarting in 3s"),
            Action::ArmRestart { delay_secs: 3 },
        ]
    );
}

#[test]
fn social_indexer_signals_its_end_once() {
    let mut k = SelfHostedKIndexerService::new(&k_settings());
    k.tick();
    k.notify(Part::First, PartEvent::Started(StartOutcome::Spawned), "");
    k.notify(Part::Second, PartEvent::Started(StartOutcome::Spawned), "");
    let out = k.dispatch(SelfHostedKIndexerEvents::Exit);
    assert_eq!(out, PartActions { first: vec![Action::Stop, Action::Done], second: vec![Action::Stop] });
    assert_eq!(k.dispatch(SelfHostedKIndexerEvents::Enable), PartActions { first: vec![], second: vec![] });
}

#[test]
fn social_indexer_checks_and_commands() {
    let settings = k_settings();
    let k = SelfHostedKIndexerService::new(&settings);
    let mut e = Effective::stored(&settings.self_hosted);
    e.db_name = "kaspa_main".to_string();
    assert_eq!(k.listen_address(), "127.0.0.1:3000");
    let first = k.checks(Part::First, &e, false);
    assert_eq!(first.len(), 2);
    let conn = "host=127.0.0.1 port=5432 user=kaspa password=pw dbname=kaspa_main connect_timeout=3";
    assert_eq!(
        first[0].gate,
        Gate::Database { server: conn.to_string(), database: None, target: conn.to_string(), policy: WaitPolicy::database() }
    );
    assert_eq!(first[1].failure.message, "K-transaction-processor binary not found");
    let second = k.checks(Part::Second, &e, true);
    assert_eq!(second.len(), 3);
    assert_eq!(second[0].gate, Gate::PortFree { address: "127.0.0.1:3000".to_string() });
    assert_eq!(second[0].failure.outcome, StartOutcome::PortInUse);
    assert_eq!(second[0].failure.message, "K-webserver port already in use on 127.0.0.1:3000; refusing to start");
    assert_eq!(
        second[2].gate,
        Gate::Located {
            candidates: vec![
                Candidate { base: Base::WorkingDir, path: "K-indexer/target/release/K-webserver.exe".to_string() },
                Candidate { base: Base::WorkingDir, path: "target/release/K-webserver.exe".to_string() },
                Candidate { base: Base::ExeDir, path: "K-webserver.exe".to_string() },
                Candidate { base: Base::ExeDir, path: "K-indexer/target/release/K-webserver.exe".to_string() },
            ]
        }
    );
    assert_eq!(
        k.command(Part::First, "/bin/proc", &e).args,
        strings(&["-H", "127.0.0.1", "-P", "5432", "-d", "kaspa_main", "-U", "kaspa", "-p", "pw", "-n", "mainnet", "-u"])
    );
    let web = k.command(Part::Second, "/bin/web", &e);
    assert_eq!(
        web.args,
        strings(&["-H", "127.0.0.1", "-P", "5432", "-d", "kaspa_main", "-u", "kaspa", "-p", "pw", "-b", "127.0.0.1:3000"])
    );
    assert!(web.own_process_group);
}

#[test]
fn social_indexer_lines() {
    let settings = k_settings();
    let mut k = SelfHostedKIndexerService::new(&settings);
    let e = Effective::stored(&settings.self_hosted);
    assert_eq!(
        k.started_line(Part::First, &e),
        "started K-transaction-processor (network=mainnet, db=127.0.0.1:5432:kaspa)"
    );
    assert_eq!(k.started_line(Part::Second, &e), "K-webserver listening on 127.0.0.1:3000");
    assert_eq!(SelfHostedKIndexerService::output_line(Part::First, "x"), "processor: x");
    assert_eq!(SelfHostedKIndexerService::output_line(Part::Second, "y"), "webserver: y");
    assert_eq!(
        k.start_requested_line(),
        "start requested (enabled=true, k_enabled=true, network=mainnet, k_web_port=3000)"
    );
    assert_eq!(k.not_starting_line(), "not starting: is_enabled=false (self-hosted=true, k_enabled=true)");
    assert_eq!(
        SelfHostedKIndexerService::waiting_for_database_line("database not ready after retries: refused"),
        "waiting for database: database not ready after retries: refused"
    );
    assert_eq!(
        SelfHostedKIndexerService::spawn_failed(Part::Second, "denied").message,
        "failed to start K-webserver (denied)"
    );
    assert!(k.log_blocked_once("a"));
    assert!(!k.log_blocked_once("a"));
    assert!(k.log_blocked_once("b"));
    assert!(k.log_blocked_once("a"));
    k.clear_blocked_reason();
    assert!(k.log_blocked_once("a"));
}

// ------------------------------------------------------------- explorer

#[test]
fn explorer_levels() {
    assert_eq!(detect_log_level("ERROR:    Exception in ASGI application", LogLevel::Info), LogLevel::Error);
    assert_eq!(detect_log_level("FATAL: boom", LogLevel::Info), LogLevel::Error);
    assert_eq!(detect_log_level("WARNING:  slow", LogLevel::Info), LogLevel::Warn);
    // A line without a marker has the level of its stream.
    assert_eq!(detect_log_level("INFO:     Started server", LogLevel::Warn), LogLevel::Warn);
    assert_eq!(detect_log_level("INFO:     Started server", LogLevel::Info), LogLevel::Info);
    assert_eq!(detect_log_level("[critical] boom", LogLevel::Info), LogLevel::Info);
    assert_eq!(detect_log_level("some error here", LogLevel::Warn), LogLevel::Warn);
    assert_eq!(detect_log_level("plain", LogLevel::Warn), LogLevel::Warn);
    assert_eq!(detect_log_level("plain", LogLevel::Info), LogLevel::Info);
}

#[test]
fn explorer_environment() {
    let mut s = SelfHostedSettings::default();
    s.db_password = "pw".to_string();
    let mut n = NodeSettings::default();
    let e = Effective::stored(&s);
    assert_eq!(build_sql_uri(&s, &e), "postgresql+asyncpg://kaspa:pw@127.0.0.1:5432/kaspa");
    assert_eq!(network_type(&n), "mainnet");
    let pair = |a: &str, b: &str| (a.to_string(), b.to_string());
    let mut envs = vec![pair("X", "1")];
    apply_common_env(&mut envs, &s, &n, &e);
    assert_eq!(
        envs,
        vec![
            pair("X", "1"),
            pair("SQL_URI", "postgresql+asyncpg://kaspa:pw@127.0.0.1:5432/kaspa"),
            pair("KASPAD_HOST_1", "127.0.0.1:16110"),
            pair("NETWORK_TYPE", "mainnet"),
            pair("DEBUG", "false"),
            pair("PYTHONUNBUFFERED", "1"),
        ]
    );
    n.enable_grpc = false;
    n.network = Network::Testnet12;
    let mut bare = Vec::new();
    apply_common_env(&mut bare, &s, &n, &e);
    assert_eq!(bare.len(), 4);
    assert_eq!(bare[1], pair("NETWORK_TYPE", "testnet"));
}

#[test]
fn server_sources_are_looked_for_near_the_application() {
    let c = find_server_root("kaspa-rest-server");
    let bases: Vec<Base> = c.iter().map(|c| c.base).collect();
    assert_eq!(
        bases,
        vec![
            Base::EnvDir,
            Base::WorkingDir,
            Base::WorkingAncestor(1),
            Base::WorkingAncestor(2),
            Base::WorkingAncestor(3),
            Base::WorkingAncestor(4),
            Base::ExeDir,
            Base::ExeAncestor(1),
            Base::ExeAncestor(2),
            Base::ExeAncestor(3),
            Base::ExeAncestor(4),
        ]
    );
    assert!(c.iter().all(|c| c.path == "kaspa-rest-server"));
    assert_eq!(find_venv_python(), strings(&[".venv/bin/python3", ".venv/bin/python", ".venv/Scripts/python.exe"]));
}

#[test]
fn pythons_are_looked_for_in_order() {
    let linux = find_python(Platform::Linux);
    assert_eq!(linux.len(), 10);
    assert_eq!(linux[0], Candidate { base: Base::AsGiven, path: "/usr/bin/python3.12".to_string() });
    assert_eq!(linux[7], Candidate { base: Base::AsGiven, path: "/usr/local/bin/python3".to_string() });
    assert_eq!(linux[8], Candidate { base: Base::SearchPath, path: "python3".to_string() });
    assert_eq!(linux[9], Candidate { base: Base::SearchPath, path: "python".to_string() });
    assert_eq!(find_python(Platform::MacOs).len(), 10);
    assert_eq!(find_python(Platform::MacOs)[6].path, "/opt/homebrew/opt/python/bin/python3");
    assert_eq!(find_python(Platform::Windows).len(), 5);
    assert_eq!(find_python(Platform::Other).len(), 2);
    let compat = find_poetry_compatible_python(Platform::Linux);
    assert_eq!(compat.len(), 6);
    assert_eq!(compat[2].path, "/usr/bin/python3.10");
    assert_eq!(compat[3], Candidate { base: Base::SearchPath, path: "python3.12".to_string() });
    assert_eq!(find_poetry_compatible_python(Platform::MacOs).len(), 9);
    assert_eq!(find_poetry_compatible_python(Platform::Windows).len(), 3);
}

#[test]
fn runtime_is_chosen_by_preference() {
    let none = RuntimeFacts {
        venv_python: false,
        pyproject: false,
        poetry: false,
        poetry_has_uvicorn: false,
        pipfile: false,
        pipenv: false,
        python: false,
    };
    assert_eq!(choose_runtime(&none), None);
    let all = RuntimeFacts {
        venv_python: true,
        pyproject: true,
        poetry: true,
        poetry_has_uvicorn: true,
        pipfile: true,
        pipenv: true,
        python: true,
    };
    assert_eq!(choose_runtime(&all), Some(Runtime::Venv));
    assert_eq!(choose_runtime(&RuntimeFacts { venv_python: false, ..all }), Some(Runtime::Poetry));
    assert_eq!(
        choose_runtime(&RuntimeFacts { venv_python: false, poetry_has_uvicorn: false, ..all }),
        Some(Runtime::Pipenv)
    );
    assert_eq!(
        choose_runtime(&RuntimeFacts { venv_python: false, pyproject: false, pipenv: false, ..all }),
        Some(Runtime::System)
    );
    assert_eq!(choose_runtime(&RuntimeFacts { python: true, ..none }), Some(Runtime::System));
    assert_eq!(choose_runtime(&RuntimeFacts { poetry: true, poetry_has_uvicorn: true, ..none }), None);
}

#[test]
fn server_commands_by_runtime() {
    assert_eq!(
        build_command(Runtime::Venv, "127.0.0.1", 19112),
        strings(&["-m", "gunicorn", "-w", "1", "-k", "uvicorn.workers.UvicornWorker", "main:app", "-b", "127.0.0.1:19112"])
    );
    let run = strings(&["run", "python", "-m", "uvicorn", "main:app", "--host", "0.0.0.0", "--port", "19113"]);
    assert_eq!(build_command(Runtime::Poetry, "0.0.0.0", 19113), run);
    assert_eq!(build_command(Runtime::Pipenv, "0.0.0.0", 19113), run);
    assert_eq!(
        build_command(Runtime::System, "h", 1),
        strings(&["-m", "uvicorn", "main:app", "--host", "h", "--port", "1"])
    );
    let use_py = poetry_env_use("/bin/poetry", "/usr/bin/python3.12", "/srv/rest");
    assert_eq!(use_py.args, strings(&["env", "use", "/usr/bin/python3.12"]));
    assert_eq!(use_py.current_dir.as_deref(), Some("/srv/rest"));
    assert_eq!(
        poetry_install("/bin/poetry", "/srv/rest").args,
        strings(&["install", "--only", "main", "--no-root", "--no-interaction"])
    );
    let check = python_module_available("/srv/rest", "/bin/poetry", &strings(&["run", "python"]), "uvicorn");
    assert_eq!(check.program, "/bin/poetry");
    assert_eq!(check.args, strings(&["run", "python", "-c", "import uvicorn"]));
}

#[test]
fn explorer_needs_grpc() {
    let mut settings = Settings::default();
    settings.self_hosted.enabled = true;
    settings.node.enable_grpc = false;
    let mut x = SelfHostedExplorerService::new(&settings);
    assert!(x.is_enabled());
    assert_eq!(x.broadcast(SharedEvent::Tick), PartActions { first: vec![], second: vec![] });
    assert_eq!(
        x.enable(true),
        PartActions {
            first: vec![log(LogLevel::Info, "gRPC is disabled; REST server not started")],
            second: vec![log(LogLevel::Info, "gRPC is disabled; socket server not started")],
        }
    );
    let mut node = settings.node.clone();
    node.enable_grpc = true;
    assert_eq!(
        x.dispatch(SelfHostedExplorerEvents::UpdateNodeSettings(node)),
        PartActions { first: vec![Action::Start], second: vec![Action::Start] }
    );
}

#[test]
fn explorer_checks_commands_and_lines() {
    let mut settings = Settings::default();
    settings.self_hosted.enabled = true;
    settings.self_hosted.db_password = "pw".to_string();
    let mut x = SelfHostedExplorerService::new(&settings);
    let e = Effective::stored(&settings.self_hosted);
    let rest = x.checks(Part::First, &e);
    assert_eq!(rest.len(), 2);
    assert_eq!(rest[0].gate, Gate::PortFree { address: "127.0.0.1:19112".to_string() });
    assert_eq!(
        rest[0].failure.message,
        "REST port already in use on 127.0.0.1:19112; refusing to start REST server"
    );
    assert_eq!(rest[1].failure.message, "kaspa-rest-server not found");
    let socket = x.checks(Part::Second, &e);
    assert_eq!(socket[0].gate, Gate::PortFree { address: "127.0.0.1:19113".to_string() });
    assert_eq!(
        socket[0].failure.message,
        "Socket port already in use on 127.0.0.1:19113; refusing to start socket server"
    );
    assert_eq!(socket[1].failure.message, "kaspa-socket-server not found");
    let l = x.command(Part::Second, Runtime::System, "/usr/bin/python3", "/srv/socket", &e);
    assert_eq!(l.program, "/usr/bin/python3");
    assert_eq!(l.args, strings(&["-m", "uvicorn", "main:app", "--host", "127.0.0.1", "--port", "19113"]));
    assert_eq!(l.envs.len(), 5);
    assert_eq!(l.current_dir.as_deref(), Some("/srv/socket"));
    assert!(l.own_process_group);
    assert_eq!(x.started_line(Part::First, &e), "REST API listening on 127.0.0.1:19112");
    assert_eq!(x.started_line(Part::Second, &e), "Socket server listening on 127.0.0.1:19113");
    assert_eq!(
        SelfHostedExplorerService::no_runtime(Part::First).message,
        "python runtime not found; REST server not started"
    );
    assert_eq!(
        SelfHostedExplorerService::spawn_failed(Part::Second, "e").message,
        "failed to start socket server (e)"
    );
    x.broadcast(SharedEvent::Tick);
    x.notify(Part::First, PartEvent::Started(StartOutcome::Spawned), "");
    assert_eq!(
        x.notify(Part::First, PartEvent::ChildExited(ExitKind::Exited { success: false }), "exit status: 3"),
        vec![
            log(LogLevel::Warn, "REST server: exited (exit status: 3)"),
            log(LogLevel::Info, "REST server: server exited; restarting in 3s"),
            Action::ArmRestart { delay_secs: 3 },
        ]
    );
    assert_eq!(x.terminate(), PartActions { first: vec![Action::Done], second: vec![] });
}

#[test]
fn social_indexer_tells_of_requests_that_change_the_switch() {
    let mut settings = Settings::default();
    settings.self_hosted.enabled = true;
    settings.self_hosted.k_enabled = true;
    let mut k = SelfHostedKIndexerService::new(&settings);
    let on = k.is_enabled();
    assert_eq!(k.request_line(on), None);
    assert_eq!(
        k.request_line(!on),
        Some(if on { "disable requested" } else { "enable requested" })
    );
    k.enable(false);
    assert_eq!(k.request_line(false), None);
    assert_eq!(k.request_line(true), Some("enable requested"));
    k.enable(true);
    assert_eq!(k.request_line(true), None);
    assert_eq!(k.request_line(false), Some("disable requested"));
}

#[test]
fn social_indexer_tells_of_a_retry_while_a_part_is_missing() {
    let mut settings = Settings::default();
    settings.self_hosted.enabled = true;
    settings.self_hosted.k_enabled = true;
    let mut k = SelfHostedKIndexerService::new(&settings);
    k.enable(false);
    assert_eq!(k.retry_line(), None);
    k.enable(true);
    assert_eq!(
        k.retry_line(),
        Some("retrying K-indexer startup (some child processes are not running)")
    );
}

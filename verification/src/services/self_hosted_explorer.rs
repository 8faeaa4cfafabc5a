//! The explorer backends: a REST server and a socket server.
//!
//! The two servers are Python programs that run from their source
//! directories. They work on the same database and reach the node over
//! gRPC; they stand under one switch, but each has a lifecycle of its
//! own.

use crate::launcher::{
    candidate_views, check_views, checking, failing, no_candidates, no_checks, place,
    push_candidate, push_check, push_env, Base, Candidate, CandidateView, Check, CheckView, Failure,
    Gate, GateView, Launch, Platform,
};
use crate::log_store::{classify, level_of, LogLevel};
use crate::network::Network;
use crate::services::stratum_bridge::{grpc_address, grpc_address_from_settings};
use crate::services::{
    action_views, drop_done, host_port, join_host_port, render_all, rendered_all, without_done,
    Action, Pair, Part, PartActions, PartEvent, ServiceTexts, SharedEvent,
};
use crate::settings::{Effective, NodeSettings, SelfHostedSettings, Settings};
use crate::supervisor::{step, Event, Model, StartOutcome};
use crate::text::{
    concat, decimal, decimal_string, join, no_pieces, push_number, push_str, push_text, strs, texts,
};
use vstd::prelude::*;
use vstd::string::StringExecFns;

verus! {

/// The variable of the environment that names the directory under which
/// the servers' source directories lie.
pub const SERVERS_ROOT_VAR: &'static str = "KASPA_NG_EXPLORER_SERVERS_ROOT";

/// The file that marks a server's source directory.
pub const SERVER_MARKER: &'static str = "main.py";

// ---------------------------------------------------------------------------
// Levels
// ---------------------------------------------------------------------------

/// The level of a line of a server's output: the level of the line's
/// marker, else `fallback`. The servers say nothing of their start that
/// would look like an error.
pub open spec fn explorer_level(line: Seq<char>, fallback: LogLevel) -> LogLevel {
    level_of(line, false, fallback)
}

/// Classifies a line of a server's output.
pub fn detect_log_level(line: &str, fallback: LogLevel) -> (r: LogLevel)
    ensures
        r == explorer_level(line@, fallback),
{
    classify(line, false, fallback)
}

// ---------------------------------------------------------------------------
// The environment of the servers
// ---------------------------------------------------------------------------

/// The kind of network as the servers know it.
pub open spec fn network_kind(network: Network) -> Seq<char> {
    match network {
        Network::Mainnet => "mainnet"@,
        _ => "testnet"@,
    }
}

pub fn network_type(settings: &NodeSettings) -> (r: &'static str)
    ensures
        r@ == network_kind(settings.network),
{
    match settings.network {
        Network::Mainnet => "mainnet",
        Network::Testnet10 => "testnet",
        Network::Testnet12 => "testnet",
    }
}

/// The address of the database as the servers take it.
pub open spec fn sql_uri(s: SelfHostedSettings, e: Effective) -> Seq<char> {
    concat(
        seq![
            "postgresql+asyncpg://"@,
            s.db_user@,
            ":"@,
            s.db_password@,
            "@"@,
            s.db_host@,
            ":"@,
            decimal(e.db_port as nat),
            "/"@,
            e.db_name@,
        ],
    )
}

pub fn build_sql_uri(settings: &SelfHostedSettings, effective: &Effective) -> (r: String)
    ensures
        r@ == sql_uri(*settings, *effective),
{
    let mut p = no_pieces();
    push_text(&mut p, "postgresql+asyncpg://");
    push_text(&mut p, settings.db_user.as_str());
    push_text(&mut p, ":");
    push_text(&mut p, settings.db_password.as_str());
    push_text(&mut p, "@");
    push_text(&mut p, settings.db_host.as_str());
    push_text(&mut p, ":");
    push_number(&mut p, effective.db_port as u64);
    push_text(&mut p, "/");
    push_text(&mut p, effective.db_name.as_str());
    assert(texts(p@) =~= seq![
        "postgresql+asyncpg://"@,
        settings.db_user@,
        ":"@,
        settings.db_password@,
        "@"@,
        settings.db_host@,
        ":"@,
        decimal(effective.db_port as nat),
        "/"@,
        effective.db_name@,
    ]);
    join(&p)
}

/// The variables that both servers are started with: the database, the
/// node where its gRPC server is switched on, the kind of network, and
/// output that is neither verbose nor buffered.
pub open spec fn common_env(s: SelfHostedSettings, node: NodeSettings, e: Effective) -> Seq<
    (Seq<char>, Seq<char>),
> {
    seq![("SQL_URI"@, sql_uri(s, e))] + (match grpc_address(node) {
        Some(a) => seq![("KASPAD_HOST_1"@, a)],
        None => Seq::empty(),
    }) + seq![
        ("NETWORK_TYPE"@, network_kind(node.network)),
        ("DEBUG"@, "false"@),
        ("PYTHONUNBUFFERED"@, "1"@),
    ]
}

pub open spec fn env_view(envs: Seq<(String, String)>) -> Seq<(Seq<char>, Seq<char>)> {
    envs.map_values(|p: (String, String)| (p.0@, p.1@))
}

pub fn apply_common_env(
    envs: &mut Vec<(String, String)>,
    settings: &SelfHostedSettings,
    node: &NodeSettings,
    effective: &Effective,
)
    ensures
        env_view(final(envs)@) == env_view(old(envs)@) + common_env(*settings, *node, *effective),
{
    let ghost before = env_view(envs@);
    push_env(envs, "SQL_URI", build_sql_uri(settings, effective));
    if let Some(grpc) = grpc_address_from_settings(node) {
        push_env(envs, "KASPAD_HOST_1", grpc);
    }
    push_env(envs, "NETWORK_TYPE", String::from_str(network_type(node)));
    push_env(envs, "DEBUG", String::from_str("false"));
    push_env(envs, "PYTHONUNBUFFERED", String::from_str("1"));
    assert(env_view(envs@) =~= before + common_env(*settings, *node, *effective));
}

// ---------------------------------------------------------------------------
// Finding the sources and a Python to run them
// ---------------------------------------------------------------------------

/// Where a server's source directory may lie: under the directory that
/// the environment names, then in the working directory and its four
/// nearest ancestors, then in the directory of the application's
/// executable and its four nearest ancestors.
pub open spec fn server_root_places(name: Seq<char>) -> Seq<CandidateView> {
    seq![
        place(Base::EnvDir, name),
        place(Base::WorkingDir, name),
        place(Base::WorkingAncestor(1), name),
        place(Base::WorkingAncestor(2), name),
        place(Base::WorkingAncestor(3), name),
        place(Base::WorkingAncestor(4), name),
        place(Base::ExeDir, name),
        place(Base::ExeAncestor(1), name),
        place(Base::ExeAncestor(2), name),
        place(Base::ExeAncestor(3), name),
        place(Base::ExeAncestor(4), name),
    ]
}

/// The candidates for the source directory `name`. A candidate counts
/// where it holds [`SERVER_MARKER`].
pub fn find_server_root(name: &str) -> (v: Vec<Candidate>)
    ensures
        candidate_views(v@) == server_root_places(name@),
{
    let mut v = no_candidates();
    push_candidate(&mut v, Base::EnvDir, String::from_str(name));
    push_candidate(&mut v, Base::WorkingDir, String::from_str(name));
    push_candidate(&mut v, Base::WorkingAncestor(1), String::from_str(name));
    push_candidate(&mut v, Base::WorkingAncestor(2), String::from_str(name));
    push_candidate(&mut v, Base::WorkingAncestor(3), String::from_str(name));
    push_candidate(&mut v, Base::WorkingAncestor(4), String::from_str(name));
    push_candidate(&mut v, Base::ExeDir, String::from_str(name));
    push_candidate(&mut v, Base::ExeAncestor(1), String::from_str(name));
    push_candidate(&mut v, Base::ExeAncestor(2), String::from_str(name));
    push_candidate(&mut v, Base::ExeAncestor(3), String::from_str(name));
    push_candidate(&mut v, Base::ExeAncestor(4), String::from_str(name));
    assert(candidate_views(v@) =~= server_root_places(name@));
    v
}

/// Where the Python of a virtual environment lies, relative to the
/// source directory.
pub open spec fn venv_places() -> Seq<Seq<char>> {
    seq![".venv/bin/python3"@, ".venv/bin/python"@, ".venv/Scripts/python.exe"@]
}

pub fn find_venv_python() -> (v: Vec<String>)
    ensures
        strs(v@) == venv_places(),
{
    let mut v: Vec<String> = Vec::new();
    assert(strs(v@) =~= Seq::<Seq<char>>::empty());
    push_str(&mut v, ".venv/bin/python3");
    push_str(&mut v, ".venv/bin/python");
    push_str(&mut v, ".venv/Scripts/python.exe");
    assert(strs(v@) =~= venv_places());
    v
}

pub open spec fn as_given(paths: Seq<Seq<char>>) -> Seq<CandidateView> {
    paths.map_values(|p: Seq<char>| place(Base::AsGiven, p))
}

pub open spec fn on_search_path(names: Seq<Seq<char>>) -> Seq<CandidateView> {
    names.map_values(|p: Seq<char>| place(Base::SearchPath, p))
}

/// The installed Pythons of the versions that the servers are written
/// for, newest first.
pub open spec fn versioned_pythons(platform: Platform) -> Seq<Seq<char>> {
    match platform {
        Platform::MacOs => seq![
            "/opt/homebrew/opt/python@3.12/bin/python3.12"@,
            "/opt/homebrew/opt/python@3.11/bin/python3.11"@,
            "/opt/homebrew/opt/python@3.10/bin/python3.10"@,
            "/usr/local/opt/python@3.12/bin/python3.12"@,
            "/usr/local/opt/python@3.11/bin/python3.11"@,
            "/usr/local/opt/python@3.10/bin/python3.10"@,
        ],
        Platform::Linux => seq![
            "/usr/bin/python3.12"@,
            "/usr/bin/python3.11"@,
            "/usr/bin/python3.10"@,
        ],
        _ => Seq::empty(),
    }
}

/// The installed Pythons in the order in which they are preferred.
pub open spec fn installed_pythons(platform: Platform) -> Seq<Seq<char>> {
    match platform {
        Platform::MacOs => versioned_pythons(platform) + seq![
            "/opt/homebrew/opt/python/bin/python3"@,
            "/usr/local/opt/python/bin/python3"@,
        ],
        Platform::Linux => seq![
            "/usr/bin/python3.12"@,
            "/usr/bin/python3.11"@,
            "/usr/bin/python3.10"@,
            "/usr/local/bin/python3.12"@,
            "/usr/local/bin/python3.11"@,
            "/usr/local/bin/python3.10"@,
            "/usr/bin/python3"@,
            "/usr/local/bin/python3"@,
        ],
        Platform::Windows => seq![
            "C:\\Python312\\python.exe"@,
            "C:\\Python311\\python.exe"@,
            "C:\\Python310\\python.exe"@,
        ],
        Platform::Other => Seq::empty(),
    }
}

/// Where a Python may lie: installed ones first, then `python3` and
/// `python` on the search path.
pub open spec fn python_places(platform: Platform) -> Seq<CandidateView> {
    as_given(installed_pythons(platform)) + on_search_path(seq!["python3"@, "python"@])
}

/// Where a Python of a version that the servers are written for may
/// lie: installed ones first, then on the search path.
pub open spec fn compatible_python_places(platform: Platform) -> Seq<CandidateView> {
    as_given(versioned_pythons(platform)) + on_search_path(
        seq!["python3.12"@, "python3.11"@, "python3.10"@],
    )
}

fn push_given(v: &mut Vec<Candidate>, path: &str)
    ensures
        candidate_views(final(v)@) == candidate_views(old(v)@).push(place(Base::AsGiven, path@)),
{
    push_candidate(v, Base::AsGiven, String::from_str(path));
}

fn push_searched(v: &mut Vec<Candidate>, name: &str)
    ensures
        candidate_views(final(v)@) == candidate_views(old(v)@).push(place(Base::SearchPath, name@)),
{
    push_candidate(v, Base::SearchPath, String::from_str(name));
}

fn push_versioned(v: &mut Vec<Candidate>, platform: Platform)
    ensures
        candidate_views(final(v)@) == candidate_views(old(v)@) + as_given(versioned_pythons(platform)),
{
    let ghost before = candidate_views(v@);
    match platform {
        Platform::MacOs => {
            push_given(v, "/opt/homebrew/opt/python@3.12/bin/python3.12");
            push_given(v, "/opt/homebrew/opt/python@3.11/bin/python3.11");
            push_given(v, "/opt/homebrew/opt/python@3.10/bin/python3.10");
            push_given(v, "/usr/local/opt/python@3.12/bin/python3.12");
            push_given(v, "/usr/local/opt/python@3.11/bin/python3.11");
            push_given(v, "/usr/local/opt/python@3.10/bin/python3.10");
        },
        Platform::Linux => {
            push_given(v, "/usr/bin/python3.12");
            push_given(v, "/usr/bin/python3.11");
            push_given(v, "/usr/bin/python3.10");
        },
        _ => {},
    }
    assert(candidate_views(v@) =~= before + as_given(versioned_pythons(platform)));
}

/// The candidates for a Python.
pub fn find_python(platform: Platform) -> (v: Vec<Candidate>)
    ensures
        candidate_views(v@) == python_places(platform),
{
    let mut v = no_candidates();
    match platform {
        Platform::MacOs => {
            push_versioned(&mut v, platform);
            push_given(&mut v, "/opt/homebrew/opt/python/bin/python3");
            push_given(&mut v, "/usr/local/opt/python/bin/python3");
        },
        Platform::Linux => {
            push_given(&mut v, "/usr/bin/python3.12");
            push_given(&mut v, "/usr/bin/python3.11");
            push_given(&mut v, "/usr/bin/python3.10");
            push_given(&mut v, "/usr/local/bin/python3.12");
            push_given(&mut v, "/usr/local/bin/python3.11");
            push_given(&mut v, "/usr/local/bin/python3.10");
            push_given(&mut v, "/usr/bin/python3");
            push_given(&mut v, "/usr/local/bin/python3");
        },
        Platform::Windows => {
            push_given(&mut v, "C:\\Python312\\python.exe");
            push_given(&mut v, "C:\\Python311\\python.exe");
            push_given(&mut v, "C:\\Python310\\python.exe");
        },
        Platform::Other => {},
    }
    assert(candidate_views(v@) =~= as_given(installed_pythons(platform)));
    push_searched(&mut v, "python3");
    push_searched(&mut v, "python");
    assert(candidate_views(v@) =~= python_places(platform));
    v
}

/// The candidates for a Python of a version that the servers are
/// written for.
pub fn find_poetry_compatible_python(platform: Platform) -> (v: Vec<Candidate>)
    ensures
        candidate_views(v@) == compatible_python_places(platform),
{
    let mut v = no_candidates();
    push_versioned(&mut v, platform);
    push_searched(&mut v, "python3.12");
    push_searched(&mut v, "python3.11");
    push_searched(&mut v, "python3.10");
    assert(candidate_views(v@) =~= compatible_python_places(platform));
    v
}

/// How a server is run.
#[derive(Clone, Copy, Debug, PartialEq, Eq, Structural)]
pub enum Runtime {
    /// By the Python of the virtual environment in the source directory,
    /// under gunicorn.
    Venv,
    /// By poetry.
    Poetry,
    /// By pipenv.
    Pipenv,
    /// By a Python of the system.
    System,
}

/// What was found in and around a source directory.
#[derive(Clone, Copy, Debug, PartialEq, Eq, Structural)]
pub struct RuntimeFacts {
    /// The source directory holds a virtual environment with a Python.
    pub venv_python: bool,
    /// The source directory holds `pyproject.toml`.
    pub pyproject: bool,
    /// `poetry` lies on the search path.
    pub poetry: bool,
    /// The Python that poetry runs can import uvicorn, after what the
    /// server needs was installed where it could not.
    pub poetry_has_uvicorn: bool,
    /// The source directory holds `Pipfile`.
    pub pipfile: bool,
    /// `pipenv` lies on the search path.
    pub pipenv: bool,
    /// A Python was found on the system.
    pub python: bool,
}

/// The way in which a server is run, given what was found: the virtual
/// environment before poetry, poetry before pipenv, pipenv before a
/// Python of the system. `None` where the server cannot be run.
pub open spec fn chosen_runtime(f: RuntimeFacts) -> Option<Runtime> {
    if f.venv_python {
        Some(Runtime::Venv)
    } else if f.pyproject && f.poetry && f.poetry_has_uvicorn {
        Some(Runtime::Poetry)
    } else if f.pipfile && f.pipenv {
        Some(Runtime::Pipenv)
    } else if f.python {
        Some(Runtime::System)
    } else {
        None
    }
}

pub fn choose_runtime(f: &RuntimeFacts) -> (r: Option<Runtime>)
    ensures
        r == chosen_runtime(*f),
{
    if f.venv_python {
        Some(Runtime::Venv)
    } else if f.pyproject && f.poetry && f.poetry_has_uvicorn {
        Some(Runtime::Poetry)
    } else if f.pipfile && f.pipenv {
        Some(Runtime::Pipenv)
    } else if f.python {
        Some(Runtime::System)
    } else {
        None
    }
}

/// The arguments with which a runtime runs a server on `bind` and
/// `port`.
pub open spec fn runtime_args(runtime: Runtime, bind: Seq<char>, port: u16) -> Seq<Seq<char>> {
    match runtime {
        Runtime::Venv => seq![
            "-m"@,
            "gunicorn"@,
            "-w"@,
            "1"@,
            "-k"@,
            "uvicorn.workers.UvicornWorker"@,
            "main:app"@,
            "-b"@,
            host_port(bind, port),
        ],
        Runtime::Poetry => seq![
            "run"@,
            "python"@,
            "-m"@,
            "uvicorn"@,
            "main:app"@,
            "--host"@,
            bind,
            "--port"@,
            decimal(port as nat),
        ],
        Runtime::Pipenv => seq![
            "run"@,
            "python"@,
            "-m"@,
            "uvicorn"@,
            "main:app"@,
            "--host"@,
            bind,
            "--port"@,
            decimal(port as nat),
        ],
        Runtime::System => seq![
            "-m"@,
            "uvicorn"@,
            "main:app"@,
            "--host"@,
            bind,
            "--port"@,
            decimal(port as nat),
        ],
    }
}

/// The arguments for a server under the given runtime.
pub fn build_command(runtime: Runtime, bind: &str, port: u16) -> (args: Vec<String>)
    ensures
        strs(args@) == runtime_args(runtime, bind@, port),
{
    let mut args: Vec<String> = Vec::new();
    assert(strs(args@) =~= Seq::<Seq<char>>::empty());
    match runtime {
        Runtime::Venv => {
            push_str(&mut args, "-m");
            push_str(&mut args, "gunicorn");
            push_str(&mut args, "-w");
            push_str(&mut args, "1");
            push_str(&mut args, "-k");
            push_str(&mut args, "uvicorn.workers.UvicornWorker");
            push_str(&mut args, "main:app");
            push_str(&mut args, "-b");
            push_str(&mut args, join_host_port(bind, port).as_str());
        },
        Runtime::Poetry => {
            push_str(&mut args, "run");
            push_str(&mut args, "python");
            push_str(&mut args, "-m");
            push_str(&mut args, "uvicorn");
            push_str(&mut args, "main:app");
            push_str(&mut args, "--host");
            push_str(&mut args, bind);
            push_str(&mut args, "--port");
            push_str(&mut args, decimal_string(port as u64).as_str());
        },
        Runtime::Pipenv => {
            push_str(&mut args, "run");
            push_str(&mut args, "python");
            push_str(&mut args, "-m");
            push_str(&mut args, "uvicorn");
            push_str(&mut args, "main:app");
            push_str(&mut args, "--host");
            push_str(&mut args, bind);
            push_str(&mut args, "--port");
            push_str(&mut args, decimal_string(port as u64).as_str());
        },
        Runtime::System => {
            push_str(&mut args, "-m");
            push_str(&mut args, "uvicorn");
            push_str(&mut args, "main:app");
            push_str(&mut args, "--host");
            push_str(&mut args, bind);
            push_str(&mut args, "--port");
            push_str(&mut args, decimal_string(port as u64).as_str());
        },
    }
    assert(strs(args@) =~= runtime_args(runtime, bind@, port));
    args
}

/// The arguments with which poetry is told which Python to use.
pub open spec fn poetry_env_use_args(python: Seq<char>) -> Seq<Seq<char>> {
    seq!["env"@, "use"@, python]
}

/// The arguments with which poetry installs what a server needs to run.
pub open spec fn poetry_install_args() -> Seq<Seq<char>> {
    seq!["install"@, "--only"@, "main"@, "--no-root"@, "--no-interaction"@]
}

/// The arguments with which a runner tests whether its Python can
/// import `module`.
pub open spec fn module_check_args(runner_args: Seq<Seq<char>>, module: Seq<char>) -> Seq<Seq<char>> {
    runner_args + seq!["-c"@, concat(seq!["import "@, module])]
}

fn helper(program: &str, args: Vec<String>, root: &str) -> (l: Launch)
    ensures
        l.program@ == program@,
        l.args == args,
        l.env() == Seq::<(Seq<char>, Seq<char>)>::empty(),
        l.current_dir matches Some(d) && d@ == root@,
        !l.own_process_group,
{
    let l = Launch {
        program: String::from_str(program),
        args,
        envs: Vec::new(),
        current_dir: Some(String::from_str(root)),
        own_process_group: false,
    };
    assert(l.env() =~= Seq::<(Seq<char>, Seq<char>)>::empty());
    l
}

/// How poetry is told to use the Python at `python` for the sources in
/// `root`.
pub fn poetry_env_use(poetry: &str, python: &str, root: &str) -> (l: Launch)
    ensures
        l.program@ == poetry@,
        l.argv() == poetry_env_use_args(python@),
        l.current_dir matches Some(d) && d@ == root@,
{
    let mut args: Vec<String> = Vec::new();
    assert(strs(args@) =~= Seq::<Seq<char>>::empty());
    push_str(&mut args, "env");
    push_str(&mut args, "use");
    push_str(&mut args, python);
    assert(strs(args@) =~= poetry_env_use_args(python@));
    helper(poetry, args, root)
}

/// How poetry installs what the server in `root` needs to run.
pub fn poetry_install(poetry: &str, root: &str) -> (l: Launch)
    ensures
        l.program@ == poetry@,
        l.argv() == poetry_install_args(),
        l.current_dir matches Some(d) && d@ == root@,
{
    let mut args: Vec<String> = Vec::new();
    assert(strs(args@) =~= Seq::<Seq<char>>::empty());
    push_str(&mut args, "install");
    push_str(&mut args, "--only");
    push_str(&mut args, "main");
    push_str(&mut args, "--no-root");
    push_str(&mut args, "--no-interaction");
    assert(strs(args@) =~= poetry_install_args());
    helper(poetry, args, root)
}

/// How it is tested whether the Python that `runner` runs with
/// `runner_args` can import `module`. The module can be imported where
/// the test ends well.
pub fn python_module_available(root: &str, runner: &str, runner_args: &Vec<String>, module: &str) -> (l:
    Launch)
    ensures
        l.program@ == runner@,
        l.argv() == module_check_args(strs(runner_args@), module@),
        l.current_dir matches Some(d) && d@ == root@,
{
    let ghost given = strs(runner_args@);
    let mut args: Vec<String> = Vec::new();
    assert(strs(args@) =~= Seq::<Seq<char>>::empty());
    let mut i: usize = 0;
    while i < runner_args.len()
        invariant
            i <= runner_args.len(),
            given == strs(runner_args@),
            strs(args@) == given.take(i as int),
        decreases runner_args.len() - i,
    {
        push_str(&mut args, runner_args[i].as_str());
        assert(given[i as int] == runner_args@[i as int]@);
        assert(strs(args@) =~= given.take(i + 1));
        i = i + 1;
    }
    assert(given.take(runner_args.len() as int) =~= given);
    let mut p = no_pieces();
    push_text(&mut p, "import ");
    push_text(&mut p, module);
    assert(texts(p@) =~= seq!["import "@, module@]);
    push_str(&mut args, "-c");
    push_str(&mut args, join(&p).as_str());
    assert(strs(args@) =~= module_check_args(given, module@));
    helper(runner, args, root)
}

// ---------------------------------------------------------------------------
// The service
// ---------------------------------------------------------------------------

/// What the settings ask of the service.
#[derive(Clone, Debug, PartialEq, Eq)]
pub enum SelfHostedExplorerEvents {
    Enable,
    Disable,
    UpdateSettings(SelfHostedSettings),
    UpdateNodeSettings(NodeSettings),
    Exit,
}

/// The words of the REST server.
pub open spec fn rest_texts() -> ServiceTexts {
    ServiceTexts {
        label: "REST server",
        started: "started",
        exit_open: ": exited (",
        exit_close: ")",
        monitor_open: ": monitor error (",
        monitor_close: ")",
        binary_missing: "python runtime not found",
        spawn_failed: "failed to start",
        exited: "server exited",
        monitor_error: "monitor error",
    }
}

/// The words of the socket server.
pub open spec fn socket_texts() -> ServiceTexts {
    ServiceTexts {
        label: "Socket server",
        started: "started",
        exit_open: ": exited (",
        exit_close: ")",
        monitor_open: ": monitor error (",
        monitor_close: ")",
        binary_missing: "python runtime not found",
        spawn_failed: "failed to start",
        exited: "server exited",
        monitor_error: "monitor error",
    }
}

pub open spec fn explorer_texts(part: Part) -> ServiceTexts {
    match part {
        Part::First => rest_texts(),
        Part::Second => socket_texts(),
    }
}

/// Whether the settings ask for the explorer backends and the node can
/// be reached by them.
pub open spec fn explorer_wanted(s: SelfHostedSettings, node: NodeSettings) -> bool {
    s.enabled && node.enable_grpc
}

/// Why a server is not started on the given snapshot, if it is not. A
/// service that the settings switch off says nothing.
pub open spec fn explorer_obstacle(part: Part, s: SelfHostedSettings, node: NodeSettings) -> Seq<
    char,
> {
    if !s.enabled {
        Seq::empty()
    } else if !node.enable_grpc {
        match part {
            Part::First => "gRPC is disabled; REST server not started"@,
            Part::Second => "gRPC is disabled; socket server not started"@,
        }
    } else {
        Seq::empty()
    }
}

/// The name of a server's source directory.
pub open spec fn server_dir(part: Part) -> Seq<char> {
    match part {
        Part::First => "kaspa-rest-server"@,
        Part::Second => "kaspa-socket-server"@,
    }
}

/// The port in effect for a server.
pub open spec fn server_port(part: Part, e: Effective) -> u16 {
    match part {
        Part::First => e.explorer_rest_port,
        Part::Second => e.explorer_socket_port,
    }
}

/// The line that says that a server's port is taken.
pub open spec fn server_port_taken(part: Part, bind: Seq<char>, port: u16) -> Seq<char> {
    match part {
        Part::First => concat(
            seq![
                "REST port already in use on "@,
                host_port(bind, port),
                "; refusing to start REST server"@,
            ],
        ),
        Part::Second => concat(
            seq![
                "Socket port already in use on "@,
                host_port(bind, port),
                "; refusing to start socket server"@,
            ],
        ),
    }
}

/// The line that says that a server's source directory was not found.
pub open spec fn server_dir_missing(part: Part) -> Seq<char> {
    concat(seq![server_dir(part), " not found"@])
}

/// The line that says that no Python was found to run a server.
pub open spec fn runtime_missing(part: Part) -> Seq<char> {
    match part {
        Part::First => "python runtime not found; REST server not started"@,
        Part::Second => "python runtime not found; socket server not started"@,
    }
}

/// What must hold before a server is started, in order: its port is
/// free and its source directory is found.
pub open spec fn explorer_checks(part: Part, s: SelfHostedSettings, e: Effective) -> Seq<CheckView> {
    seq![
        checking(
            GateView::PortFree { address: host_port(s.api_bind@, server_port(part, e)) },
            failing(
                StartOutcome::PortInUse,
                LogLevel::Error,
                server_port_taken(part, s.api_bind@, server_port(part, e)),
            ),
        ),
        checking(
            GateView::Located { candidates: server_root_places(server_dir(part)) },
            failing(StartOutcome::BinaryMissing, LogLevel::Warn, server_dir_missing(part)),
        ),
    ]
}

/// What the operator is told once a server runs.
pub open spec fn server_started_line(part: Part, s: SelfHostedSettings, e: Effective) -> Seq<char> {
    match part {
        Part::First => concat(
            seq!["REST API listening on "@, host_port(s.api_bind@, e.explorer_rest_port)],
        ),
        Part::Second => concat(
            seq!["Socket server listening on "@, host_port(s.api_bind@, e.explorer_socket_port)],
        ),
    }
}

/// The explorer backends under supervision.
pub struct SelfHostedExplorerService {
    pair: Pair,
    settings: SelfHostedSettings,
    node_settings: NodeSettings,
}

impl SelfHostedExplorerService {
    /// The state of a server's lifecycle.
    pub closed spec fn state(&self, part: Part) -> Model {
        self.pair.part(part)
    }

    /// The self-hosted settings of the stored snapshot.
    pub closed spec fn snapshot(&self) -> SelfHostedSettings {
        self.settings
    }

    /// The node settings of the stored snapshot.
    pub closed spec fn node(&self) -> NodeSettings {
        self.node_settings
    }

    /// The line that says why a server is not started on the stored
    /// snapshot; empty where nothing is to be said.
    pub open spec fn obstacle(&self, part: Part) -> Seq<char> {
        explorer_obstacle(part, self.snapshot(), self.node())
    }

    fn texts(part: Part) -> (t: ServiceTexts)
        ensures
            t == explorer_texts(part),
    {
        match part {
            Part::First => ServiceTexts {
                label: "REST server",
                started: "started",
                exit_open: ": exited (",
                exit_close: ")",
                monitor_open: ": monitor error (",
                monitor_close: ")",
                binary_missing: "python runtime not found",
                spawn_failed: "failed to start",
                exited: "server exited",
                monitor_error: "monitor error",
            },
            Part::Second => ServiceTexts {
                label: "Socket server",
                started: "started",
                exit_open: ": exited (",
                exit_close: ")",
                monitor_open: ": monitor error (",
                monitor_close: ")",
                binary_missing: "python runtime not found",
                spawn_failed: "failed to start",
                exited: "server exited",
                monitor_error: "monitor error",
            },
        }
    }

    fn wanted(&self) -> (b: bool)
        ensures
            b == explorer_wanted(self.snapshot(), self.node()),
    {
        self.settings.enabled && self.node_settings.enable_grpc
    }

    fn obstacle_line(&self, part: Part) -> (r: String)
        ensures
            r@ == self.obstacle(part),
    {
        if !self.settings.enabled {
            String::new()
        } else if !self.node_settings.enable_grpc {
            match part {
                Part::First => String::from_str("gRPC is disabled; REST server not started"),
                Part::Second => String::from_str("gRPC is disabled; socket server not started"),
            }
        } else {
            String::new()
        }
    }

    /// The service as the settings describe it. Nothing runs yet.
    pub fn new(settings: &Settings) -> (s: Self)
        ensures
            s.snapshot() == settings.self_hosted,
            s.node() == settings.node,
            s.state(Part::First) == s.state(Part::Second),
            s.state(Part::First) == (Model {
                enabled: settings.self_hosted.enabled,
                applicable: explorer_wanted(settings.self_hosted, settings.node),
                starting: false,
                restart_pending: false,
                live: false,
                done: false,
            }),
    {
        SelfHostedExplorerService {
            pair: Pair::new(
                settings.self_hosted.enabled,
                settings.self_hosted.enabled && settings.node.enable_grpc,
            ),
            settings: settings.self_hosted.duplicate(),
            node_settings: settings.node.duplicate(),
        }
    }

    pub fn is_enabled(&self) -> (b: bool)
        ensures
            b == self.state(Part::First).enabled,
            b == self.state(Part::Second).enabled,
    {
        self.pair.is_enabled()
    }

    pub fn is_running(&self, part: Part) -> (b: bool)
        ensures
            b == self.state(part).live,
    {
        self.pair.is_running(part)
    }

    /// Whether the service has taken the event `e` that concerns both
    /// servers since it was `old`, and `out` is what the caller has to
    /// do: each server has made its transition, and the actions are
    /// those that the servers' supervisors command. The signal that the
    /// service has ended is given once, among the actions of the first
    /// server.
    pub open spec fn follows(&self, old: Self, e: Event, out: PartActions) -> bool {
        &&& self.state(Part::First) == step(old.state(Part::First), e).0
        &&& self.state(Part::Second) == step(old.state(Part::Second), e).0
        &&& action_views(out.first@) == rendered_all(
            rest_texts(),
            step(old.state(Part::First), e).1,
            ""@,
            self.obstacle(Part::First),
        )
        &&& action_views(out.second@) == rendered_all(
            socket_texts(),
            without_done(step(old.state(Part::Second), e).1),
            ""@,
            self.obstacle(Part::Second),
        )
    }

    /// Takes an event that concerns both servers.
    pub fn broadcast(&mut self, e: SharedEvent) -> (out: PartActions)
        ensures
            final(self).snapshot() == old(self).snapshot(),
            final(self).node() == old(self).node(),
            final(self).follows(*old(self), e.event(), out),
    {
        let cmds = self.pair.broadcast(e);
        let second = drop_done(&cmds.1);
        let a = self.obstacle_line(Part::First);
        let b = self.obstacle_line(Part::Second);
        PartActions {
            first: render_all(&Self::texts(Part::First), &cmds.0, "", a.as_str()),
            second: render_all(&Self::texts(Part::Second), &second, "", b.as_str()),
        }
    }

    /// Takes an event that concerns one server. `detail` is the exit
    /// status or the error that came with it, in the words of the
    /// operating system.
    pub fn notify(&mut self, part: Part, e: PartEvent, detail: &str) -> (out: Vec<Action>)
        ensures
            final(self).snapshot() == old(self).snapshot(),
            final(self).node() == old(self).node(),
            final(self).state(part) == step(old(self).state(part), e.event()).0,
            part == Part::First ==> final(self).state(Part::Second) == old(self).state(Part::Second),
            part == Part::Second ==> final(self).state(Part::First) == old(self).state(Part::First),
            action_views(out@) == rendered_all(
                explorer_texts(part),
                step(old(self).state(part), e.event()).1,
                detail@,
                final(self).obstacle(part),
            ),
    {
        let cmds = self.pair.notify(part, e);
        let obstacle = self.obstacle_line(part);
        render_all(&Self::texts(part), &cmds, detail, obstacle.as_str())
    }

    /// The event of the lifecycle that a request stands for, on the
    /// settings that are stored when it arrives.
    pub open spec fn event_of(
        request: SelfHostedExplorerEvents,
        s: SelfHostedSettings,
        node: NodeSettings,
    ) -> Event {
        match request {
            SelfHostedExplorerEvents::Enable => Event::Enable {
                applicable: explorer_wanted(s, node),
            },
            SelfHostedExplorerEvents::Disable => Event::Disable,
            SelfHostedExplorerEvents::UpdateSettings(n) => Event::UpdateSettings {
                applicable: explorer_wanted(n, node),
            },
            SelfHostedExplorerEvents::UpdateNodeSettings(n) => Event::UpdateSettings {
                applicable: explorer_wanted(s, n),
            },
            SelfHostedExplorerEvents::Exit => Event::Exit,
        }
    }

    /// Switches the service on or off.
    pub fn enable(&mut self, enable: bool) -> (out: PartActions)
        ensures
            final(self).snapshot() == old(self).snapshot(),
            final(self).node() == old(self).node(),
            final(self).follows(
                *old(self),
                if enable {
                    Event::Enable { applicable: explorer_wanted(old(self).snapshot(), old(self).node()) }
                } else {
                    Event::Disable
                },
                out,
            ),
    {
        let e = if enable {
            SharedEvent::Enable { applicable: self.wanted() }
        } else {
            SharedEvent::Disable
        };
        self.broadcast(e)
    }

    /// Replaces the self-hosted settings of the snapshot. Servers of a
    /// service that is switched on are stopped and started again.
    pub fn update_settings(&mut self, settings: SelfHostedSettings) -> (out: PartActions)
        ensures
            final(self).snapshot() == settings,
            final(self).node() == old(self).node(),
            final(self).follows(
                *old(self),
                Event::UpdateSettings { applicable: explorer_wanted(settings, old(self).node()) },
                out,
            ),
    {
        self.settings = settings;
        let e = SharedEvent::UpdateSettings { applicable: self.wanted() };
        self.broadcast(e)
    }

    /// Replaces the node settings of the snapshot. Servers of a service
    /// that is switched on are stopped and started again.
    pub fn update_node_settings(&mut self, settings: NodeSettings) -> (out: PartActions)
        ensures
            final(self).snapshot() == old(self).snapshot(),
            final(self).node() == settings,
            final(self).follows(
                *old(self),
                Event::UpdateSettings {
                    applicable: explorer_wanted(old(self).snapshot(), settings),
                },
                out,
            ),
    {
        self.node_settings = settings;
        let e = SharedEvent::UpdateSettings { applicable: self.wanted() };
        self.broadcast(e)
    }

    /// Ends the supervision: servers that run are stopped.
    pub fn terminate(&mut self) -> (out: PartActions)
        ensures
            final(self).snapshot() == old(self).snapshot(),
            final(self).node() == old(self).node(),
            final(self).follows(*old(self), Event::Exit, out),
    {
        self.broadcast(SharedEvent::Exit)
    }

    /// Takes a request, in the order in which the requests arrive.
    pub fn dispatch(&mut self, request: SelfHostedExplorerEvents) -> (out: PartActions)
        ensures
            final(self).follows(
                *old(self),
                Self::event_of(request, old(self).snapshot(), old(self).node()),
                out,
            ),
            final(self).snapshot() == match request {
                SelfHostedExplorerEvents::UpdateSettings(n) => n,
                _ => old(self).snapshot(),
            },
            final(self).node() == match request {
                SelfHostedExplorerEvents::UpdateNodeSettings(n) => n,
                _ => old(self).node(),
            },
    {
        match request {
            SelfHostedExplorerEvents::Enable => self.enable(true),
            SelfHostedExplorerEvents::Disable => self.enable(false),
            SelfHostedExplorerEvents::UpdateSettings(n) => self.update_settings(n),
            SelfHostedExplorerEvents::UpdateNodeSettings(n) => self.update_node_settings(n),
            SelfHostedExplorerEvents::Exit => self.terminate(),
        }
    }

    fn port_of(part: Part, effective: &Effective) -> (p: u16)
        ensures
            p == server_port(part, *effective),
    {
        match part {
            Part::First => effective.explorer_rest_port,
            Part::Second => effective.explorer_socket_port,
        }
    }

    fn dir_of(part: Part) -> (d: &'static str)
        ensures
            d@ == server_dir(part),
    {
        match part {
            Part::First => "kaspa-rest-server",
            Part::Second => "kaspa-socket-server",
        }
    }

    /// What must hold before a server is started on the stored snapshot,
    /// in the order in which it is tested.
    pub fn checks(&self, part: Part, effective: &Effective) -> (v: Vec<Check>)
        ensures
            check_views(v@) == explorer_checks(part, self.snapshot(), *effective),
    {
        let port = Self::port_of(part, effective);
        let address = join_host_port(self.settings.api_bind.as_str(), port);
        let mut p = no_pieces();
        match part {
            Part::First => {
                push_text(&mut p, "REST port already in use on ");
                push_text(&mut p, address.as_str());
                push_text(&mut p, "; refusing to start REST server");
                assert(texts(p@) =~= seq![
                    "REST port already in use on "@,
                    address@,
                    "; refusing to start REST server"@,
                ]);
            },
            Part::Second => {
                push_text(&mut p, "Socket port already in use on ");
                push_text(&mut p, address.as_str());
                push_text(&mut p, "; refusing to start socket server");
                assert(texts(p@) =~= seq![
                    "Socket port already in use on "@,
                    address@,
                    "; refusing to start socket server"@,
                ]);
            },
        }
        let mut m = no_pieces();
        push_text(&mut m, Self::dir_of(part));
        push_text(&mut m, " not found");
        assert(texts(m@) =~= seq![server_dir(part), " not found"@]);
        let mut v = no_checks();
        push_check(
            &mut v,
            Gate::PortFree { address },
            Failure { outcome: StartOutcome::PortInUse, level: LogLevel::Error, message: join(&p) },
        );
        push_check(
            &mut v,
            Gate::Located { candidates: find_server_root(Self::dir_of(part)) },
            Failure {
                outcome: StartOutcome::BinaryMissing,
                level: LogLevel::Warn,
                message: join(&m),
            },
        );
        assert(check_views(v@) =~= explorer_checks(part, self.snapshot(), *effective));
        v
    }

    /// What follows where no Python was found to run a server.
    pub fn no_runtime(part: Part) -> (f: Failure)
        ensures
            f.outcome == StartOutcome::BinaryMissing,
            f.level == LogLevel::Warn,
            f.message@ == runtime_missing(part),
    {
        let message = match part {
            Part::First => "python runtime not found; REST server not started",
            Part::Second => "python runtime not found; socket server not started",
        };
        Failure {
            outcome: StartOutcome::BinaryMissing,
            level: LogLevel::Warn,
            message: String::from_str(message),
        }
    }

    /// How a server is started: by `program` under the given runtime, in
    /// the source directory `root`, on the stored snapshot. Each server
    /// leads a process group of its own.
    pub fn command(&self, part: Part, runtime: Runtime, program: &str, root: &str, effective: &Effective) -> (l:
        Launch)
        ensures
            l.program@ == program@,
            l.argv() == runtime_args(runtime, self.snapshot().api_bind@, server_port(part, *effective)),
            l.env() == common_env(self.snapshot(), self.node(), *effective),
            l.current_dir matches Some(d) && d@ == root@,
            l.own_process_group,
    {
        let mut envs: Vec<(String, String)> = Vec::new();
        assert(env_view(envs@) =~= Seq::<(Seq<char>, Seq<char>)>::empty());
        apply_common_env(&mut envs, &self.settings, &self.node_settings, effective);
        let l = Launch {
            program: String::from_str(program),
            args: build_command(runtime, self.settings.api_bind.as_str(), Self::port_of(part, effective)),
            envs,
            current_dir: Some(String::from_str(root)),
            own_process_group: true,
        };
        assert(l.env() =~= common_env(self.snapshot(), self.node(), *effective));
        l
    }

    /// What the operator is told once a server runs.
    pub fn started_line(&self, part: Part, effective: &Effective) -> (r: String)
        ensures
            r@ == server_started_line(part, self.snapshot(), *effective),
    {
        let address = join_host_port(self.settings.api_bind.as_str(), Self::port_of(part, effective));
        let mut p = no_pieces();
        match part {
            Part::First => {
                push_text(&mut p, "REST API listening on ");
                push_text(&mut p, address.as_str());
                assert(texts(p@) =~= seq!["REST API listening on "@, address@]);
            },
            Part::Second => {
                push_text(&mut p, "Socket server listening on ");
                push_text(&mut p, address.as_str());
                assert(texts(p@) =~= seq!["Socket server listening on "@, address@]);
            },
        }
        join(&p)
    }

    /// What follows where a server could not be started; `error` is the
    /// reason in the words of the operating system.
    pub fn spawn_failed(part: Part, error: &str) -> (f: Failure)
        ensures
            f.outcome == StartOutcome::SpawnFailed,
            f.level == LogLevel::Warn,
            f.message@ == match part {
                Part::First => concat(seq!["failed to start rest server ("@, error@, ")"@]),
                Part::Second => concat(seq!["failed to start socket server ("@, error@, ")"@]),
            },
    {
        let mut p = no_pieces();
        match part {
            Part::First => {
                push_text(&mut p, "failed to start rest server (");
                push_text(&mut p, error);
                push_text(&mut p, ")");
                assert(texts(p@) =~= seq!["failed to start rest server ("@, error@, ")"@]);
            },
            Part::Second => {
                push_text(&mut p, "failed to start socket server (");
                push_text(&mut p, error);
                push_text(&mut p, ")");
                assert(texts(p@) =~= seq!["failed to start socket server ("@, error@, ")"@]);
            },
        }
        Failure { outcome: StartOutcome::SpawnFailed, level: LogLevel::Warn, message: join(&p) }
    }
}

} // verus!

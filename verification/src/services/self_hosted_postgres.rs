//! The self-hosted database server.
//!
//! The server is started on a data directory of its own, which is
//! initialised on first use. A server that already runs on the directory
//! is adopted. Once the server answers, the role and the database of the
//! indexers are created where they are missing.

use crate::launcher::{
    binary_file, binary_name, candidate_views, no_candidates, place, push_candidate, push_env,
    Base, Candidate, CandidateView, Failure, Launch, Platform,
};
use crate::log_store::{classify, level_of, LogLevel};
use crate::readiness::WaitPolicy;
use crate::services::{action_views, render_all, rendered_all, Action, ServiceTexts};
use crate::settings::{SelfHostedSettings, Settings};
use crate::supervisor::{step, Event, Model, StartOutcome, Supervisor};
use crate::text::{
    ascii_upper, ascii_upper_chars, chars_of, concat, contains, contains_str, decimal,
    decimal_string, is_blank, join, no_pieces, push_number, push_piece, push_str, push_text,
    replace_char, replace_char_chars, string_of, strs, texts, trim, trimmed,
};
use vstd::prelude::*;
use vstd::string::StringExecFns;

verus! {

// ---------------------------------------------------------------------------
// Levels
// ---------------------------------------------------------------------------

/// Whether the server says that it is still starting up, in a line
/// given in upper case. Such a line looks like an error and is none.
pub open spec fn says_still_starting(upper: Seq<char>) -> bool {
    contains(upper, "DATABASE SYSTEM IS NOT YET ACCEPTING CONNECTIONS"@) || contains(
        upper,
        "CONSISTENT RECOVERY STATE HAS NOT BEEN YET REACHED"@,
    )
}

/// The level of a line of the server's output: informational where the
/// server says that it is still starting up, else the level of the
/// line's marker, else `fallback`.
pub open spec fn postgres_level(line: Seq<char>, fallback: LogLevel) -> LogLevel {
    level_of(line, says_still_starting(ascii_upper(line)), fallback)
}

/// Classifies a line of the server's output.
pub fn detect_log_level(line: &str, fallback: LogLevel) -> (r: LogLevel)
    ensures
        r == postgres_level(line@, fallback),
{
    let upper = ascii_upper_chars(&chars_of(line));
    let starting = contains_str(&upper, "DATABASE SYSTEM IS NOT YET ACCEPTING CONNECTIONS")
        || contains_str(&upper, "CONSISTENT RECOVERY STATE HAS NOT BEEN YET REACHED");
    classify(line, starting, fallback)
}

// ---------------------------------------------------------------------------
// Connection strings and SQL
// ---------------------------------------------------------------------------

/// A connection string, with or without a password.
pub open spec fn conn_str(
    host: Seq<char>,
    port: u16,
    user: Seq<char>,
    password: Option<Seq<char>>,
    dbname: Seq<char>,
    timeout_secs: nat,
) -> Seq<char> {
    match password {
        Some(pw) => concat(
            seq![
                "host="@,
                host,
                " port="@,
                decimal(port as nat),
                " user="@,
                user,
                " password="@,
                pw,
                " dbname="@,
                dbname,
                " connect_timeout="@,
                decimal(timeout_secs),
            ],
        ),
        None => concat(
            seq![
                "host="@,
                host,
                " port="@,
                decimal(port as nat),
                " user="@,
                user,
                " dbname="@,
                dbname,
                " connect_timeout="@,
                decimal(timeout_secs),
            ],
        ),
    }
}

/// Builds a connection string with the given timeout in seconds.
pub fn connection_string(
    host: &str,
    port: u16,
    user: &str,
    password: Option<&str>,
    dbname: &str,
    timeout_secs: u8,
) -> (r: String)
    ensures
        r@ == conn_str(
            host@,
            port,
            user@,
            match password {
                Some(pw) => Some(pw@),
                None => None,
            },
            dbname@,
            timeout_secs as nat,
        ),
{
    let mut p = no_pieces();
    push_text(&mut p, "host=");
    push_text(&mut p, host);
    push_text(&mut p, " port=");
    push_number(&mut p, port as u64);
    push_text(&mut p, " user=");
    push_text(&mut p, user);
    match password {
        Some(pw) => {
            push_text(&mut p, " password=");
            push_text(&mut p, pw);
            push_text(&mut p, " dbname=");
            push_text(&mut p, dbname);
            push_text(&mut p, " connect_timeout=");
            push_number(&mut p, timeout_secs as u64);
            assert(texts(p@) =~= seq![
                "host="@,
                host@,
                " port="@,
                decimal(port as nat),
                " user="@,
                user@,
                " password="@,
                pw@,
                " dbname="@,
                dbname@,
                " connect_timeout="@,
                decimal(timeout_secs as nat),
            ]);
        },
        None => {
            push_text(&mut p, " dbname=");
            push_text(&mut p, dbname);
            push_text(&mut p, " connect_timeout=");
            push_number(&mut p, timeout_secs as u64);
            assert(texts(p@) =~= seq![
                "host="@,
                host@,
                " port="@,
                decimal(port as nat),
                " user="@,
                user@,
                " dbname="@,
                dbname@,
                " connect_timeout="@,
                decimal(timeout_secs as nat),
            ]);
        },
    }
    join(&p)
}

/// The connection string with which the server is tested, with a timeout
/// of two seconds.
pub fn build_conn_str(host: &str, port: u16, user: &str, password: Option<&str>, dbname: &str) -> (r:
    String)
    ensures
        r@ == conn_str(
            host@,
            port,
            user@,
            match password {
                Some(pw) => Some(pw@),
                None => None,
            },
            dbname@,
            2,
        ),
{
    connection_string(host, port, user, password, dbname, 2)
}

/// A text as it stands between single quotes in SQL.
pub open spec fn sql_literal(value: Seq<char>) -> Seq<char> {
    replace_char(value, '\'', "''"@)
}

/// A text as it stands between double quotes in SQL.
pub open spec fn sql_identifier(value: Seq<char>) -> Seq<char> {
    replace_char(value, '"', "\"\""@)
}

pub fn escape_literal(value: &str) -> (r: String)
    ensures
        r@ == sql_literal(value@),
{
    let v = chars_of(value);
    string_of(&replace_char_chars(&v, '\'', "''"))
}

pub fn escape_identifier(value: &str) -> (r: String)
    ensures
        r@ == sql_identifier(value@),
{
    let v = chars_of(value);
    string_of(&replace_char_chars(&v, '"', "\"\""))
}

/// The query that tells whether the role exists.
pub open spec fn role_exists_sql(user: Seq<char>) -> Seq<char> {
    concat(seq!["SELECT 1 FROM pg_roles WHERE rolname = '"@, sql_literal(user), "';"@])
}

/// The statement that creates the role.
pub open spec fn create_role_sql(user: Seq<char>, password: Seq<char>) -> Seq<char> {
    concat(
        seq![
            "CREATE ROLE \""@,
            sql_identifier(user),
            "\" LOGIN PASSWORD '"@,
            sql_literal(password),
            "';"@,
        ],
    )
}

/// The query that tells whether the database exists.
pub open spec fn db_exists_sql(name: Seq<char>) -> Seq<char> {
    concat(seq!["SELECT 1 FROM pg_database WHERE datname='"@, sql_literal(name), "';"@])
}

/// The statement that creates the database.
pub open spec fn create_db_sql(name: Seq<char>, user: Seq<char>) -> Seq<char> {
    concat(
        seq![
            "CREATE DATABASE \""@,
            sql_identifier(name),
            "\" OWNER \""@,
            sql_identifier(user),
            "\";"@,
        ],
    )
}

/// What is asked of the server while the role and the database are made
/// sure of.
#[derive(Clone, Copy, Debug, PartialEq, Eq, Structural)]
pub enum EnsureStage {
    RoleExists,
    CreateRole,
    DbExists,
    CreateDb,
}

impl EnsureStage {
    /// What a failure at this stage is called.
    pub open spec fn name(self) -> Seq<char> {
        match self {
            EnsureStage::RoleExists => "role check"@,
            EnsureStage::CreateRole => "role creation"@,
            EnsureStage::DbExists => "db check"@,
            EnsureStage::CreateDb => "db creation"@,
        }
    }

    pub fn as_str(&self) -> (r: &'static str)
        ensures
            r@ == self.name(),
    {
        match self {
            EnsureStage::RoleExists => "role check",
            EnsureStage::CreateRole => "role creation",
            EnsureStage::DbExists => "db check",
            EnsureStage::CreateDb => "db creation",
        }
    }
}

/// The SQL of a stage, for the trimmed user, password and database name
/// of the settings.
pub open spec fn stage_sql(stage: EnsureStage, s: SelfHostedSettings) -> Seq<char> {
    match stage {
        EnsureStage::RoleExists => role_exists_sql(trim(s.db_user@)),
        EnsureStage::CreateRole => create_role_sql(trim(s.db_user@), trim(s.db_password@)),
        EnsureStage::DbExists => db_exists_sql(trim(s.db_name@)),
        EnsureStage::CreateDb => create_db_sql(trim(s.db_name@), trim(s.db_user@)),
    }
}

/// The SQL that is run at a stage.
pub fn ensure_sql(stage: EnsureStage, settings: &SelfHostedSettings) -> (r: String)
    ensures
        r@ == stage_sql(stage, *settings),
{
    let user = string_of(&trimmed(settings.db_user.as_str()));
    let password = string_of(&trimmed(settings.db_password.as_str()));
    let name = string_of(&trimmed(settings.db_name.as_str()));
    let mut p = no_pieces();
    match stage {
        EnsureStage::RoleExists => {
            push_text(&mut p, "SELECT 1 FROM pg_roles WHERE rolname = '");
            push_text(&mut p, escape_literal(user.as_str()).as_str());
            push_text(&mut p, "';");
            assert(texts(p@) =~= seq![
                "SELECT 1 FROM pg_roles WHERE rolname = '"@,
                sql_literal(user@),
                "';"@,
            ]);
        },
        EnsureStage::CreateRole => {
            push_text(&mut p, "CREATE ROLE \"");
            push_text(&mut p, escape_identifier(user.as_str()).as_str());
            push_text(&mut p, "\" LOGIN PASSWORD '");
            push_text(&mut p, escape_literal(password.as_str()).as_str());
            push_text(&mut p, "';");
            assert(texts(p@) =~= seq![
                "CREATE ROLE \""@,
                sql_identifier(user@),
                "\" LOGIN PASSWORD '"@,
                sql_literal(password@),
                "';"@,
            ]);
        },
        EnsureStage::DbExists => {
            push_text(&mut p, "SELECT 1 FROM pg_database WHERE datname='");
            push_text(&mut p, escape_literal(name.as_str()).as_str());
            push_text(&mut p, "';");
            assert(texts(p@) =~= seq![
                "SELECT 1 FROM pg_database WHERE datname='"@,
                sql_literal(name@),
                "';"@,
            ]);
        },
        EnsureStage::CreateDb => {
            push_text(&mut p, "CREATE DATABASE \"");
            push_text(&mut p, escape_identifier(name.as_str()).as_str());
            push_text(&mut p, "\" OWNER \"");
            push_text(&mut p, escape_identifier(user.as_str()).as_str());
            push_text(&mut p, "\";");
            assert(texts(p@) =~= seq![
                "CREATE DATABASE \""@,
                sql_identifier(name@),
                "\" OWNER \""@,
                sql_identifier(user@),
                "\";"@,
            ]);
        },
    }
    join(&p)
}

// ---------------------------------------------------------------------------
// Finding the executables
// ---------------------------------------------------------------------------

/// The directories in which the database's executables are installed by
/// custom, in the order in which they are looked at.
pub open spec fn install_dirs(platform: Platform) -> Seq<Seq<char>> {
    match platform {
        Platform::MacOs => seq![
            "/opt/homebrew/opt/postgresql@15/bin"@,
            "/usr/local/opt/postgresql@15/bin"@,
            "/opt/homebrew/opt/postgresql/bin"@,
            "/usr/local/opt/postgresql/bin"@,
        ],
        Platform::Linux => seq![
            "/usr/lib/postgresql/15/bin"@,
            "/usr/pgsql-15/bin"@,
            "/usr/local/pgsql/bin"@,
            "/usr/local/bin"@,
            "/usr/bin"@,
        ],
        Platform::Windows => seq![
            "C:\\Program Files\\PostgreSQL\\15\\bin"@,
            "C:\\Program Files (x86)\\PostgreSQL\\15\\bin"@,
        ],
        Platform::Other => Seq::empty(),
    }
}

pub fn candidate_bin_dirs(platform: Platform) -> (dirs: Vec<&'static str>)
    ensures
        dirs@.map_values(|d: &'static str| d@) == install_dirs(platform),
{
    let mut dirs: Vec<&'static str> = Vec::new();
    match platform {
        Platform::MacOs => {
            dirs.push("/opt/homebrew/opt/postgresql@15/bin");
            dirs.push("/usr/local/opt/postgresql@15/bin");
            dirs.push("/opt/homebrew/opt/postgresql/bin");
            dirs.push("/usr/local/opt/postgresql/bin");
        },
        Platform::Linux => {
            dirs.push("/usr/lib/postgresql/15/bin");
            dirs.push("/usr/pgsql-15/bin");
            dirs.push("/usr/local/pgsql/bin");
            dirs.push("/usr/local/bin");
            dirs.push("/usr/bin");
        },
        Platform::Windows => {
            dirs.push("C:\\Program Files\\PostgreSQL\\15\\bin");
            dirs.push("C:\\Program Files (x86)\\PostgreSQL\\15\\bin");
        },
        Platform::Other => {},
    }
    assert(dirs@.map_values(|d: &'static str| d@) =~= install_dirs(platform));
    dirs
}

/// The places of an executable in the given directories.
pub open spec fn places_in(dirs: Seq<Seq<char>>, file: Seq<char>) -> Seq<CandidateView> {
    dirs.map_values(|d: Seq<char>| place(Base::AsGiven, concat(seq![d, "/"@, file])))
}

/// Where an executable of the database may lie: in the customary
/// directories first, then on the search path.
pub open spec fn postgres_places(binary: Seq<char>, platform: Platform) -> Seq<CandidateView> {
    let file = binary_file(binary, platform == Platform::Windows);
    places_in(install_dirs(platform), file).push(place(Base::SearchPath, file))
}

/// The candidates for the executable `binary` of the database.
pub fn postgres_bin_candidates(binary: &str, platform: Platform) -> (v: Vec<Candidate>)
    ensures
        candidate_views(v@) == postgres_places(binary@, platform),
{
    let file = binary_name(binary, platform.is_windows());
    let dirs = candidate_bin_dirs(platform);
    let ghost all = install_dirs(platform);
    let mut v = no_candidates();
    let mut i: usize = 0;
    while i < dirs.len()
        invariant
            i <= dirs.len(),
            dirs@.map_values(|d: &'static str| d@) == all,
            candidate_views(v@) == places_in(all.take(i as int), file@),
        decreases dirs.len() - i,
    {
        let mut p = no_pieces();
        push_text(&mut p, dirs[i]);
        push_text(&mut p, "/");
        push_text(&mut p, file.as_str());
        proof {
            assert(all[i as int] == dirs@[i as int]@);
            assert(texts(p@) =~= seq![all[i as int], "/"@, file@]);
        }
        push_candidate(&mut v, Base::AsGiven, join(&p));
        assert(candidate_views(v@) =~= places_in(all.take(i + 1), file@));
        i = i + 1;
    }
    assert(all.take(dirs.len() as int) =~= all);
    push_candidate(&mut v, Base::SearchPath, file);
    v
}

/// The line that says that an executable of the database was not found.
pub open spec fn bin_missing_line(binary: Seq<char>, platform: Platform) -> Seq<char> {
    concat(
        seq![
            "postgres binary not found: "@,
            binary_file(binary, platform == Platform::Windows),
            " (searched common install paths and PATH)"@,
        ],
    )
}

/// What follows where an executable of the database was not found.
pub fn bin_missing(binary: &str, platform: Platform) -> (f: Failure)
    ensures
        f.outcome == StartOutcome::BinaryMissing,
        f.level == LogLevel::Warn,
        f.message@ == bin_missing_line(binary@, platform),
{
    let file = binary_name(binary, platform.is_windows());
    let mut p = no_pieces();
    push_text(&mut p, "postgres binary not found: ");
    push_text(&mut p, file.as_str());
    push_text(&mut p, " (searched common install paths and PATH)");
    assert(texts(p@) =~= seq![
        "postgres binary not found: "@,
        binary_file(binary@, platform == Platform::Windows),
        " (searched common install paths and PATH)"@,
    ]);
    Failure { outcome: StartOutcome::BinaryMissing, level: LogLevel::Warn, message: join(&p) }
}

// ---------------------------------------------------------------------------
// The data directory
// ---------------------------------------------------------------------------

/// The data directory: the one of the settings, or else
/// `self-hosted/postgres` under the application's storage folder.
pub open spec fn data_dir(s: SelfHostedSettings, storage_folder: Seq<char>) -> Seq<char> {
    if trim(s.postgres_data_dir@).len() > 0 {
        concat(seq![trim(s.postgres_data_dir@)])
    } else {
        concat(seq![storage_folder, "/self-hosted/postgres"@])
    }
}

pub fn resolve_data_dir(settings: &SelfHostedSettings, storage_folder: &str) -> (r: String)
    ensures
        r@ == data_dir(*settings, storage_folder@),
{
    let own = trimmed(settings.postgres_data_dir.as_str());
    let mut p = no_pieces();
    if own.len() > 0 {
        push_piece(&mut p, &own);
        assert(texts(p@) =~= seq![trim(settings.postgres_data_dir@)]);
    } else {
        push_text(&mut p, storage_folder);
        push_text(&mut p, "/self-hosted/postgres");
        assert(texts(p@) =~= seq![storage_folder@, "/self-hosted/postgres"@]);
    }
    join(&p)
}

/// What is done about a server that may already run on the data
/// directory.
#[derive(Clone, Copy, Debug, PartialEq, Eq, Structural)]
pub enum Adoption {
    /// No server has left its mark: start one.
    Fresh,
    /// A server runs and answers: it is used as it is.
    Adopt,
    /// A server has left its mark but does not answer: the mark is
    /// removed and a server is started.
    ClearStalePid,
}

pub open spec fn adoption(pid_file_exists: bool, answers: bool) -> Adoption {
    if !pid_file_exists {
        Adoption::Fresh
    } else if answers {
        Adoption::Adopt
    } else {
        Adoption::ClearStalePid
    }
}

/// Decides what is done about a server that may already run, given
/// whether `postmaster.pid` lies in the data directory and whether the
/// server answered within five attempts.
pub fn decide_adoption(pid_file_exists: bool, answers: bool) -> (a: Adoption)
    ensures
        a == adoption(pid_file_exists, answers),
{
    if !pid_file_exists {
        Adoption::Fresh
    } else if answers {
        Adoption::Adopt
    } else {
        Adoption::ClearStalePid
    }
}

/// What the operator is told about the decision.
pub open spec fn adoption_lines(a: Adoption) -> Seq<Seq<char>> {
    match a {
        Adoption::Fresh => Seq::empty(),
        Adoption::Adopt => seq![
            "postmaster.pid exists; assuming postgres is already running"@,
            "external postgres detected; log streaming only available when started by Kaspa NG"@,
        ],
        Adoption::ClearStalePid => seq![
            "postmaster.pid exists but postgres is not reachable; removing stale pid"@,
        ],
    }
}

pub fn adoption_notes(a: Adoption) -> (lines: Vec<String>)
    ensures
        strs(lines@) == adoption_lines(a),
{
    let mut lines: Vec<String> = Vec::new();
    assert(strs(lines@) =~= Seq::<Seq<char>>::empty());
    match a {
        Adoption::Fresh => {},
        Adoption::Adopt => {
            push_str(&mut lines, "postmaster.pid exists; assuming postgres is already running");
            push_str(
                &mut lines,
                "external postgres detected; log streaming only available when started by Kaspa NG",
            );
        },
        Adoption::ClearStalePid => {
            push_str(
                &mut lines,
                "postmaster.pid exists but postgres is not reachable; removing stale pid",
            );
        },
    }
    assert(strs(lines@) =~= adoption_lines(a));
    lines
}

/// The name of the file through which the password reaches `initdb`.
pub open spec fn pwfile_name(nanos: u64) -> Seq<char> {
    concat(seq!["kaspa-ng-pwfile-"@, decimal(nanos as nat)])
}

pub fn password_file_name(nanos: u64) -> (r: String)
    ensures
        r@ == pwfile_name(nanos),
{
    let mut p = no_pieces();
    push_text(&mut p, "kaspa-ng-pwfile-");
    push_number(&mut p, nanos);
    assert(texts(p@) =~= seq!["kaspa-ng-pwfile-"@, decimal(nanos as nat)]);
    join(&p)
}

/// The arguments with which a data directory is initialised.
pub open spec fn initdb_args(s: SelfHostedSettings, dir: Seq<char>, pwfile: Seq<char>) -> Seq<
    Seq<char>,
> {
    seq![
        "-D"@,
        dir,
        "-U"@,
        s.db_user@,
        "--auth=md5"@,
        "--encoding=UTF8"@,
        concat(seq!["--pwfile="@, pwfile]),
    ]
}

/// How a data directory is initialised: by `initdb` at `binary`, with
/// the password in the file at `pwfile`.
pub fn initdb_command(binary: &str, settings: &SelfHostedSettings, dir: &str, pwfile: &str) -> (l:
    Launch)
    ensures
        l.program@ == binary@,
        l.argv() == initdb_args(*settings, dir@, pwfile@),
        l.env() == seq![("LC_MESSAGES"@, "C"@)],
        l.current_dir is None,
        !l.own_process_group,
{
    let mut p = no_pieces();
    push_text(&mut p, "--pwfile=");
    push_text(&mut p, pwfile);
    assert(texts(p@) =~= seq!["--pwfile="@, pwfile@]);
    let mut args: Vec<String> = Vec::new();
    assert(strs(args@) =~= Seq::<Seq<char>>::empty());
    push_str(&mut args, "-D");
    push_str(&mut args, dir);
    push_str(&mut args, "-U");
    push_str(&mut args, settings.db_user.as_str());
    push_str(&mut args, "--auth=md5");
    push_str(&mut args, "--encoding=UTF8");
    push_str(&mut args, join(&p).as_str());
    assert(strs(args@) =~= initdb_args(*settings, dir@, pwfile@));
    let mut envs: Vec<(String, String)> = Vec::new();
    push_env(&mut envs, "LC_MESSAGES", String::from_str("C"));
    let l = Launch {
        program: String::from_str(binary),
        args,
        envs,
        current_dir: None,
        own_process_group: false,
    };
    assert(l.env() =~= seq![("LC_MESSAGES"@, "C"@)]);
    l
}

/// The line that says why the data directory could not be initialised;
/// `detail` is the exit status or the error in the words of the
/// operating system.
pub open spec fn initdb_error(ran: bool, detail: Seq<char>) -> Seq<char> {
    if ran {
        concat(seq!["initdb failed with status "@, detail])
    } else {
        concat(seq!["initdb failed: "@, detail])
    }
}

pub fn initdb_failed(ran: bool, detail: &str) -> (r: String)
    ensures
        r@ == initdb_error(ran, detail@),
{
    let mut p = no_pieces();
    if ran {
        push_text(&mut p, "initdb failed with status ");
        push_text(&mut p, detail);
        assert(texts(p@) =~= seq!["initdb failed with status "@, detail@]);
    } else {
        push_text(&mut p, "initdb failed: ");
        push_text(&mut p, detail);
        assert(texts(p@) =~= seq!["initdb failed: "@, detail@]);
    }
    join(&p)
}

/// The arguments that the server is started with.
pub open spec fn postgres_args(s: SelfHostedSettings, dir: Seq<char>) -> Seq<Seq<char>> {
    seq![
        "-D"@,
        dir,
        "-p"@,
        decimal(s.db_port as nat),
        "-h"@,
        s.db_host@,
        "-c"@,
        "max_wal_size=4GB"@,
        "-c"@,
        "checkpoint_timeout=15min"@,
        "-c"@,
        "checkpoint_completion_target=0.9"@,
        "-c"@,
        "lc_messages=C"@,
    ]
}

/// The environment of the server: messages in plain English, so that
/// their level can be read.
pub open spec fn postgres_env() -> Seq<(Seq<char>, Seq<char>)> {
    seq![("LANG"@, "C"@), ("LC_ALL"@, "C"@), ("LC_MESSAGES"@, "C"@)]
}

/// How the server is started from the executable at `binary` on the data
/// directory `dir`.
pub fn postgres_command(binary: &str, settings: &SelfHostedSettings, dir: &str) -> (l: Launch)
    ensures
        l.program@ == binary@,
        l.argv() == postgres_args(*settings, dir@),
        l.env() == postgres_env(),
        l.current_dir is None,
        !l.own_process_group,
{
    let mut args: Vec<String> = Vec::new();
    assert(strs(args@) =~= Seq::<Seq<char>>::empty());
    push_str(&mut args, "-D");
    push_str(&mut args, dir);
    push_str(&mut args, "-p");
    push_str(&mut args, decimal_string(settings.db_port as u64).as_str());
    push_str(&mut args, "-h");
    push_str(&mut args, settings.db_host.as_str());
    push_str(&mut args, "-c");
    push_str(&mut args, "max_wal_size=4GB");
    push_str(&mut args, "-c");
    push_str(&mut args, "checkpoint_timeout=15min");
    push_str(&mut args, "-c");
    push_str(&mut args, "checkpoint_completion_target=0.9");
    push_str(&mut args, "-c");
    push_str(&mut args, "lc_messages=C");
    assert(strs(args@) =~= postgres_args(*settings, dir@));
    let mut envs: Vec<(String, String)> = Vec::new();
    push_env(&mut envs, "LANG", String::from_str("C"));
    push_env(&mut envs, "LC_ALL", String::from_str("C"));
    push_env(&mut envs, "LC_MESSAGES", String::from_str("C"));
    let l = Launch {
        program: String::from_str(binary),
        args,
        envs,
        current_dir: None,
        own_process_group: false,
    };
    assert(l.env() =~= postgres_env());
    l
}

// ---------------------------------------------------------------------------
// Making sure of the role and the database
// ---------------------------------------------------------------------------

/// Number of rounds in which the role and the database are made sure of.
pub const ENSURE_ROUNDS: u32 = 5;

/// Seconds between two rounds.
pub const ENSURE_PAUSE_SECS: u64 = 1;

/// The users that may administer the server: the user that runs the
/// application, where known, and `postgres`.
pub open spec fn admin_users(env_user: Option<Seq<char>>) -> Seq<Seq<char>> {
    match env_user {
        Some(u) => if trim(u).len() > 0 {
            seq![u, "postgres"@]
        } else {
            seq!["postgres"@]
        },
        None => seq!["postgres"@],
    }
}

/// The candidates for the administrator, given the value of the `USER`
/// variable of the environment.
pub fn admin_user_candidates(env_user: Option<&str>) -> (users: Vec<String>)
    ensures
        strs(users@) == admin_users(
            match env_user {
                Some(u) => Some(u@),
                None => None,
            },
        ),
{
    let mut users: Vec<String> = Vec::new();
    assert(strs(users@) =~= Seq::<Seq<char>>::empty());
    if let Some(u) = env_user {
        if !is_blank(u) {
            push_str(&mut users, u);
        }
    }
    push_str(&mut users, "postgres");
    assert(strs(users@) =~= admin_users(
        match env_user {
            Some(u) => Some(u@),
            None => None,
        },
    ));
    users
}

/// The directories in which the server's socket may lie.
pub open spec fn socket_dirs(platform: Platform) -> Seq<Seq<char>> {
    if platform.unix() {
        seq!["/tmp"@, "/private/tmp"@, "/var/run/postgresql"@, "/run/postgresql"@]
    } else {
        Seq::empty()
    }
}

pub fn socket_hosts(platform: Platform) -> (dirs: Vec<String>)
    ensures
        strs(dirs@) == socket_dirs(platform),
{
    let mut dirs: Vec<String> = Vec::new();
    assert(strs(dirs@) =~= Seq::<Seq<char>>::empty());
    if platform.is_unix() {
        push_str(&mut dirs, "/tmp");
        push_str(&mut dirs, "/private/tmp");
        push_str(&mut dirs, "/var/run/postgresql");
        push_str(&mut dirs, "/run/postgresql");
    }
    assert(strs(dirs@) =~= socket_dirs(platform));
    dirs
}

/// A way to reach the server as an administrator.
#[derive(Clone, Debug, PartialEq, Eq)]
pub struct PsqlTarget {
    /// The user to connect as.
    pub admin: Option<String>,
    /// The host or the socket directory; the client's default where none
    /// is given and TCP is not asked for.
    pub host: Option<String>,
    /// Whether to connect over TCP, to the host of the settings where
    /// none is given.
    pub use_tcp: bool,
}

pub ghost struct TargetView {
    pub admin: Option<Seq<char>>,
    pub host: Option<Seq<char>>,
    pub use_tcp: bool,
}

pub open spec fn opt_view(o: Option<String>) -> Option<Seq<char>> {
    match o {
        Some(s) => Some(s@),
        None => None,
    }
}

impl View for PsqlTarget {
    type V = TargetView;

    open spec fn view(&self) -> TargetView {
        TargetView { admin: opt_view(self.admin), host: opt_view(self.host), use_tcp: self.use_tcp }
    }
}

pub open spec fn target_views(v: Seq<PsqlTarget>) -> Seq<TargetView> {
    v.map_values(|t: PsqlTarget| t@)
}

pub open spec fn target(admin: Seq<char>, host: Option<Seq<char>>, use_tcp: bool) -> TargetView {
    TargetView { admin: Some(admin), host, use_tcp }
}

/// The ways in which one user tries to reach the server: by the client's
/// default, by each socket directory, and over TCP.
pub open spec fn targets_of(user: Seq<char>, sockets: Seq<Seq<char>>) -> Seq<TargetView> {
    seq![target(user, None, false)] + sockets.map_values(
        |d: Seq<char>| target(user, Some(d), false),
    ) + seq![target(user, None, true)]
}

/// The ways in which the users try to reach the server, user by user.
pub open spec fn targets_of_all(users: Seq<Seq<char>>, sockets: Seq<Seq<char>>) -> Seq<TargetView>
    decreases users.len(),
{
    if users.len() == 0 {
        Seq::empty()
    } else {
        targets_of_all(users.drop_last(), sockets) + targets_of(users.last(), sockets)
    }
}

fn push_target(v: &mut Vec<PsqlTarget>, admin: &str, host: Option<&str>, use_tcp: bool)
    ensures
        target_views(final(v)@) == target_views(old(v)@).push(
            target(
                admin@,
                match host {
                    Some(h) => Some(h@),
                    None => None,
                },
                use_tcp,
            ),
        ),
{
    let host = match host {
        Some(h) => Some(String::from_str(h)),
        None => None,
    };
    let t = PsqlTarget { admin: Some(String::from_str(admin)), host, use_tcp };
    v.push(t);
    assert(target_views(v@) =~= target_views(old(v)@).push(t@));
}

fn push_targets_of(v: &mut Vec<PsqlTarget>, user: &str, sockets: &Vec<String>)
    ensures
        target_views(final(v)@) == target_views(old(v)@) + targets_of(user@, strs(sockets@)),
{
    let ghost before = target_views(v@);
    let ghost dirs = strs(sockets@);
    push_target(v, user, None, false);
    let mut i: usize = 0;
    while i < sockets.len()
        invariant
            i <= sockets.len(),
            dirs == strs(sockets@),
            target_views(v@) == before + seq![target(user@, None, false)] + dirs.take(
                i as int,
            ).map_values(|d: Seq<char>| target(user@, Some(d), false)),
        decreases sockets.len() - i,
    {
        let ghost prev = target_views(v@);
        push_target(v, user, Some(sockets[i].as_str()), false);
        proof {
            assert(dirs[i as int] == sockets@[i as int]@);
            assert(target_views(v@) =~= before + seq![target(user@, None, false)] + dirs.take(
                i + 1,
            ).map_values(|d: Seq<char>| target(user@, Some(d), false)));
        }
        i = i + 1;
    }
    assert(dirs.take(sockets.len() as int) =~= dirs);
    push_target(v, user, None, true);
    assert(target_views(v@) =~= before + targets_of(user@, dirs));
}

/// The ways in which the server is tried in one round: as the user of
/// the settings first, then as each administrator.
pub fn ensure_targets(db_user: &str, admins: &Vec<String>, sockets: &Vec<String>) -> (v: Vec<
    PsqlTarget,
>)
    ensures
        target_views(v@) == targets_of(db_user@, strs(sockets@)) + targets_of_all(
            strs(admins@),
            strs(sockets@),
        ),
{
    let ghost names = strs(admins@);
    let ghost dirs = strs(sockets@);
    let mut v: Vec<PsqlTarget> = Vec::new();
    assert(target_views(v@) =~= Seq::<TargetView>::empty());
    push_targets_of(&mut v, db_user, sockets);
    let mut i: usize = 0;
    assert(names.take(0) =~= Seq::<Seq<char>>::empty());
    assert(target_views(v@) =~= targets_of(db_user@, dirs) + targets_of_all(names.take(0), dirs));
    while i < admins.len()
        invariant
            i <= admins.len(),
            names == strs(admins@),
            dirs == strs(sockets@),
            target_views(v@) == targets_of(db_user@, dirs) + targets_of_all(
                names.take(i as int),
                dirs,
            ),
        decreases admins.len() - i,
    {
        proof {
            assert(names.take(i + 1).drop_last() =~= names.take(i as int));
            assert(names.take(i + 1).last() == admins@[i as int]@);
        }
        push_targets_of(&mut v, admins[i].as_str(), sockets);
        assert(target_views(v@) =~= targets_of(db_user@, dirs) + targets_of_all(
            names.take(i + 1),
            dirs,
        ));
        i = i + 1;
    }
    assert(names.take(admins.len() as int) =~= names);
    v
}

/// Whether the role and the database are made sure of at all: only where
/// the settings name a user and a database.
pub open spec fn ensure_applies(s: SelfHostedSettings) -> bool {
    trim(s.db_user@).len() > 0 && trim(s.db_name@).len() > 0
}

pub fn should_ensure(settings: &SelfHostedSettings) -> (b: bool)
    ensures
        b == ensure_applies(*settings),
{
    !is_blank(settings.db_user.as_str()) && !is_blank(settings.db_name.as_str())
}

/// The arguments with which the client runs `sql` against `target`.
pub open spec fn psql_args(s: SelfHostedSettings, t: TargetView, sql: Seq<char>) -> Seq<Seq<char>> {
    seq![
        "-X"@,
        "-v"@,
        "ON_ERROR_STOP=1"@,
        "-w"@,
        "-d"@,
        "postgres"@,
        "-tAc"@,
        sql,
        "-p"@,
        decimal(s.db_port as nat),
    ] + (match t.host {
        Some(h) => seq!["-h"@, h],
        None => if t.use_tcp {
            seq!["-h"@, s.db_host@]
        } else {
            Seq::empty()
        },
    }) + (match t.admin {
        Some(a) => seq!["-U"@, a],
        None => Seq::empty(),
    })
}

/// How the client at `binary` runs `sql` against `target`. The password
/// of the settings reaches the client through the environment.
pub fn psql_command(binary: &str, settings: &SelfHostedSettings, target: &PsqlTarget, sql: &str) -> (l:
    Launch)
    ensures
        l.program@ == binary@,
        l.argv() == psql_args(*settings, target@, sql@),
        l.env() == seq![("PGPASSWORD"@, trim(settings.db_password@)), ("LC_MESSAGES"@, "C"@)],
        l.current_dir is None,
        !l.own_process_group,
{
    let mut args: Vec<String> = Vec::new();
    assert(strs(args@) =~= Seq::<Seq<char>>::empty());
    push_str(&mut args, "-X");
    push_str(&mut args, "-v");
    push_str(&mut args, "ON_ERROR_STOP=1");
    push_str(&mut args, "-w");
    push_str(&mut args, "-d");
    push_str(&mut args, "postgres");
    push_str(&mut args, "-tAc");
    push_str(&mut args, sql);
    push_str(&mut args, "-p");
    push_str(&mut args, decimal_string(settings.db_port as u64).as_str());
    match &target.host {
        Some(h) => {
            push_str(&mut args, "-h");
            push_str(&mut args, h.as_str());
        },
        None => {
            if target.use_tcp {
                push_str(&mut args, "-h");
                push_str(&mut args, settings.db_host.as_str());
            }
        },
    }
    match &target.admin {
        Some(a) => {
            push_str(&mut args, "-U");
            push_str(&mut args, a.as_str());
        },
        None => {},
    }
    assert(strs(args@) =~= psql_args(*settings, target@, sql@));
    let mut envs: Vec<(String, String)> = Vec::new();
    push_env(&mut envs, "PGPASSWORD", string_of(&trimmed(settings.db_password.as_str())));
    push_env(&mut envs, "LC_MESSAGES", String::from_str("C"));
    let l = Launch {
        program: String::from_str(binary),
        args,
        envs,
        current_dir: None,
        own_process_group: false,
    };
    assert(l.env() =~= seq![
        ("PGPASSWORD"@, trim(settings.db_password@)),
        ("LC_MESSAGES"@, "C"@),
    ]);
    l
}

/// What follows a stage.
#[derive(Clone, Copy, Debug, PartialEq, Eq, Structural)]
pub enum EnsureMove {
    /// Run the given stage next.
    Run(EnsureStage),
    /// The role and the database exist.
    Done,
    /// The target failed: go on to the next one.
    Failed,
}

/// What follows a stage, given whether the client succeeded and what it
/// printed: a query that prints something has found what it asked for.
pub open spec fn after_stage(stage: EnsureStage, success: bool, output: Seq<char>) -> EnsureMove {
    if !success {
        EnsureMove::Failed
    } else {
        match stage {
            EnsureStage::RoleExists => if trim(output).len() > 0 {
                EnsureMove::Run(EnsureStage::DbExists)
            } else {
                EnsureMove::Run(EnsureStage::CreateRole)
            },
            EnsureStage::CreateRole => EnsureMove::Run(EnsureStage::DbExists),
            EnsureStage::DbExists => if trim(output).len() > 0 {
                EnsureMove::Done
            } else {
                EnsureMove::Run(EnsureStage::CreateDb)
            },
            EnsureStage::CreateDb => EnsureMove::Done,
        }
    }
}

/// Decides what follows a stage.
pub fn next_ensure_move(stage: EnsureStage, success: bool, output: &str) -> (m: EnsureMove)
    ensures
        m == after_stage(stage, success, output@),
{
    if !success {
        return EnsureMove::Failed;
    }
    match stage {
        EnsureStage::RoleExists => {
            if !is_blank(output) {
                EnsureMove::Run(EnsureStage::DbExists)
            } else {
                EnsureMove::Run(EnsureStage::CreateRole)
            }
        },
        EnsureStage::CreateRole => EnsureMove::Run(EnsureStage::DbExists),
        EnsureStage::DbExists => {
            if !is_blank(output) {
                EnsureMove::Done
            } else {
                EnsureMove::Run(EnsureStage::CreateDb)
            }
        },
        EnsureStage::CreateDb => EnsureMove::Done,
    }
}

/// The text in which the standard library shows a string for debugging:
/// between double quotes, with the characters escaped that need it.
pub uninterp spec fn debug_quoted(s: Seq<char>) -> Seq<char>;

/// A string as it is shown for debugging.
///
/// Wraps the `Debug` formatting of `str`, whose result depends on the
/// string alone; the contract names it and claims nothing else.
#[verifier::external_body]
fn debug_str(s: &str) -> (r: String)
    ensures
        r@ == debug_quoted(s@),
{
    format!("{:?}", s)
}

/// An optional text as it is shown for debugging, given the quoted form
/// of the text.
pub open spec fn debug_option(quoted: Option<Seq<char>>) -> Seq<char> {
    match quoted {
        Some(q) => concat(seq!["Some("@, q, ")"@]),
        None => concat(seq!["None"@]),
    }
}

/// An optional text as it is shown for debugging, given the quoted form
/// of the text.
pub fn debug_option_text(quoted: Option<&str>) -> (r: String)
    ensures
        r@ == debug_option(
            match quoted {
                Some(q) => Some(q@),
                None => None,
            },
        ),
{
    let mut p = no_pieces();
    match quoted {
        Some(q) => {
            push_text(&mut p, "Some(");
            push_text(&mut p, q);
            push_text(&mut p, ")");
            assert(texts(p@) =~= seq!["Some("@, q@, ")"@]);
        },
        None => {
            push_text(&mut p, "None");
            assert(texts(p@) =~= seq!["None"@]);
        },
    }
    join(&p)
}

/// The line that says which stage failed against which target; `admin`
/// and `host` are given as they are shown for debugging, `error` is what
/// the client printed.
pub open spec fn ensure_error(
    stage: EnsureStage,
    admin: Seq<char>,
    host: Seq<char>,
    use_tcp: bool,
    error: Seq<char>,
) -> Seq<char> {
    concat(
        seq![
            stage.name(),
            " failed (admin="@,
            admin,
            ", host="@,
            host,
            ", tcp="@,
            crate::text::bool_text(use_tcp),
            "): "@,
            trim(error),
        ],
    )
}

/// Words the failure of a stage, from the target as it is shown for
/// debugging.
pub fn ensure_error_line(stage: EnsureStage, admin: &str, host: &str, use_tcp: bool, error: &str) -> (r:
    String)
    ensures
        r@ == ensure_error(stage, admin@, host@, use_tcp, error@),
{
    let mut p = no_pieces();
    push_text(&mut p, stage.as_str());
    push_text(&mut p, " failed (admin=");
    push_text(&mut p, admin);
    push_text(&mut p, ", host=");
    push_text(&mut p, host);
    push_text(&mut p, ", tcp=");
    crate::text::push_bool(&mut p, use_tcp);
    push_text(&mut p, "): ");
    push_piece(&mut p, &trimmed(error));
    assert(texts(p@) =~= seq![
        stage.name(),
        " failed (admin="@,
        admin@,
        ", host="@,
        host@,
        ", tcp="@,
        crate::text::bool_text(use_tcp),
        "): "@,
        trim(error@),
    ]);
    join(&p)
}

/// The quoted form of an optional text.
pub open spec fn quoted_option(o: Option<Seq<char>>) -> Option<Seq<char>> {
    match o {
        Some(s) => Some(debug_quoted(s)),
        None => None,
    }
}

/// Words the failure of a stage against a target.
pub fn ensure_failure(stage: EnsureStage, target: &PsqlTarget, error: &str) -> (r: String)
    ensures
        r@ == ensure_error(
            stage,
            debug_option(quoted_option(target@.admin)),
            debug_option(quoted_option(target@.host)),
            target.use_tcp,
            error@,
        ),
{
    let admin = match &target.admin {
        Some(a) => {
            let q = debug_str(a.as_str());
            debug_option_text(Some(q.as_str()))
        },
        None => debug_option_text(None),
    };
    let host = match &target.host {
        Some(h) => {
            let q = debug_str(h.as_str());
            debug_option_text(Some(q.as_str()))
        },
        None => debug_option_text(None),
    };
    ensure_error_line(stage, admin.as_str(), host.as_str(), target.use_tcp, error)
}

/// What the operator is told when the role and the database could not
/// be made sure of in any round.
pub open spec fn ensure_gave_up_lines(last_error: Option<Seq<char>>) -> Seq<Seq<char>> {
    match last_error {
        Some(e) => seq![
            "unable to create role/database; ensure a superuser is available"@,
            concat(seq!["last error: "@, e]),
        ],
        None => seq!["unable to create role/database; ensure a superuser is available"@],
    }
}

pub fn ensure_gave_up(last_error: Option<&str>) -> (lines: Vec<String>)
    ensures
        strs(lines@) == ensure_gave_up_lines(
            match last_error {
                Some(e) => Some(e@),
                None => None,
            },
        ),
{
    let mut lines: Vec<String> = Vec::new();
    assert(strs(lines@) =~= Seq::<Seq<char>>::empty());
    push_str(&mut lines, "unable to create role/database; ensure a superuser is available");
    match last_error {
        Some(e) => {
            let mut p = no_pieces();
            push_text(&mut p, "last error: ");
            push_text(&mut p, e);
            assert(texts(p@) =~= seq!["last error: "@, e@]);
            push_str(&mut lines, join(&p).as_str());
            assert(strs(lines@) =~= ensure_gave_up_lines(Some(e@)));
        },
        None => {
            assert(strs(lines@) =~= ensure_gave_up_lines(None));
        },
    }
    lines
}

// ---------------------------------------------------------------------------
// Waiting for the server
// ---------------------------------------------------------------------------

/// The connection strings with which the server is tested in one
/// attempt, in order: as the user of the settings with the password,
/// then as the first administrator without one. The server answers
/// where either connects.
pub open spec fn ready_probes(s: SelfHostedSettings, admins: Seq<Seq<char>>) -> Seq<Seq<char>> {
    seq![conn_str(s.db_host@, s.db_port, s.db_user@, Some(s.db_password@), "postgres"@, 2)] + (
    if admins.len() > 0 {
        seq![conn_str(s.db_host@, s.db_port, admins[0], None, "postgres"@, 2)]
    } else {
        Seq::empty()
    })
}

pub fn readiness_probes(settings: &SelfHostedSettings, admins: &Vec<String>) -> (probes: Vec<String>)
    ensures
        strs(probes@) == ready_probes(*settings, strs(admins@)),
{
    let mut probes: Vec<String> = Vec::new();
    assert(strs(probes@) =~= Seq::<Seq<char>>::empty());
    let own = build_conn_str(
        settings.db_host.as_str(),
        settings.db_port,
        settings.db_user.as_str(),
        Some(settings.db_password.as_str()),
        "postgres",
    );
    push_str(&mut probes, own.as_str());
    if admins.len() > 0 {
        assert(strs(admins@)[0] == admins@[0]@);
        let admin = build_conn_str(
            settings.db_host.as_str(),
            settings.db_port,
            admins[0].as_str(),
            None,
            "postgres",
        );
        push_str(&mut probes, admin.as_str());
    }
    assert(strs(probes@) =~= ready_probes(*settings, strs(admins@)));
    probes
}

/// How long a server that has left its mark is waited for before its
/// mark counts as stale.
pub fn adoption_wait() -> (p: WaitPolicy)
    ensures
        p == WaitPolicy::server_spec(5),
{
    WaitPolicy::server(5)
}

/// How long a server that was started is waited for before the role and
/// the database are made sure of.
pub fn startup_wait() -> (p: WaitPolicy)
    ensures
        p == WaitPolicy::server_spec(20),
{
    WaitPolicy::server(20)
}

// ---------------------------------------------------------------------------
// The service
// ---------------------------------------------------------------------------

/// What the settings ask of the service.
#[derive(Clone, Debug, PartialEq, Eq)]
pub enum SelfHostedPostgresEvents {
    Enable,
    Disable,
    UpdateSettings(SelfHostedSettings),
    Exit,
}

/// The words of the database server.
pub open spec fn postgres_texts() -> ServiceTexts {
    ServiceTexts {
        label: "postgres",
        started: "started",
        exit_open: ": exited (",
        exit_close: ")",
        monitor_open: ": monitor error (",
        monitor_close: ")",
        binary_missing: "binary not found",
        spawn_failed: "failed to start",
        exited: "postgres exited",
        monitor_error: "postgres monitor error",
    }
}

/// Whether the settings ask for a database server of their own.
pub open spec fn postgres_wanted(s: SelfHostedSettings) -> bool {
    s.enabled && s.postgres_enabled
}

/// The database server under supervision.
pub struct SelfHostedPostgresService {
    core: Supervisor,
    settings: SelfHostedSettings,
}

impl SelfHostedPostgresService {
    /// The state of the lifecycle.
    pub closed spec fn state(&self) -> Model {
        self.core@
    }

    /// The settings of the stored snapshot.
    pub closed spec fn snapshot(&self) -> SelfHostedSettings {
        self.settings
    }

    /// The line that says why the service is not started on the stored
    /// snapshot: a service that the settings switch off says nothing.
    pub open spec fn obstacle(&self) -> Seq<char> {
        Seq::empty()
    }

    fn obstacle_line(&self) -> (r: String)
        ensures
            r@ == self.obstacle(),
    {
        String::new()
    }

    fn texts() -> (t: ServiceTexts)
        ensures
            t == postgres_texts(),
    {
        ServiceTexts {
            label: "postgres",
            started: "started",
            exit_open: ": exited (",
            exit_close: ")",
            monitor_open: ": monitor error (",
            monitor_close: ")",
            binary_missing: "binary not found",
            spawn_failed: "failed to start",
            exited: "postgres exited",
            monitor_error: "postgres monitor error",
        }
    }

    /// The server as the settings describe it. Nothing runs yet.
    pub fn new(settings: &Settings) -> (s: Self)
        ensures
            s.snapshot() == settings.self_hosted,
            s.state() == (Model {
                enabled: postgres_wanted(settings.self_hosted),
                applicable: postgres_wanted(settings.self_hosted),
                starting: false,
                restart_pending: false,
                live: false,
                done: false,
            }),
    {
        let wanted = settings.self_hosted.enabled && settings.self_hosted.postgres_enabled;
        SelfHostedPostgresService {
            core: Supervisor::new(wanted, wanted),
            settings: settings.self_hosted.duplicate(),
        }
    }

    pub fn is_enabled(&self) -> (b: bool)
        ensures
            b == self.state().enabled,
    {
        self.core.is_enabled()
    }

    pub fn is_running(&self) -> (b: bool)
        ensures
            b == self.state().live,
    {
        self.core.is_running()
    }

    /// Takes an event of the lifecycle. `detail` is the exit status or
    /// the error that came with it, in the words of the operating system.
    pub fn handle(&mut self, e: Event, detail: &str) -> (out: Vec<Action>)
        ensures
            final(self).snapshot() == old(self).snapshot(),
            final(self).state() == step(old(self).state(), e).0,
            action_views(out@) == rendered_all(
                postgres_texts(),
                step(old(self).state(), e).1,
                detail@,
                final(self).obstacle(),
            ),
    {
        let cmds = self.core.handle(e);
        let obstacle = self.obstacle_line();
        render_all(&Self::texts(), &cmds, detail, obstacle.as_str())
    }

    /// The event of the lifecycle that a request to switch the server on
    /// or off stands for, on the settings `s`.
    pub open spec fn enable_event(enable: bool, s: SelfHostedSettings) -> Event {
        if enable {
            Event::Enable { applicable: postgres_wanted(s) }
        } else {
            Event::Disable
        }
    }

    /// Switches the server on or off.
    pub fn enable(&mut self, enable: bool) -> (out: Vec<Action>)
        ensures
            final(self).snapshot() == old(self).snapshot(),
            final(self).state() == step(
                old(self).state(),
                Self::enable_event(enable, old(self).snapshot()),
            ).0,
            action_views(out@) == rendered_all(
                postgres_texts(),
                step(old(self).state(), Self::enable_event(enable, old(self).snapshot())).1,
                ""@,
                final(self).obstacle(),
            ),
    {
        let e = if enable {
            Event::Enable { applicable: self.settings.enabled && self.settings.postgres_enabled }
        } else {
            Event::Disable
        };
        self.handle(e, "")
    }

    /// Replaces the snapshot of the settings. A server that is switched
    /// on is stopped and started again.
    pub fn update_settings(&mut self, settings: SelfHostedSettings) -> (out: Vec<Action>)
        ensures
            final(self).snapshot() == settings,
            final(self).state() == step(
                old(self).state(),
                Event::UpdateSettings { applicable: postgres_wanted(settings) },
            ).0,
            action_views(out@) == rendered_all(
                postgres_texts(),
                step(
                    old(self).state(),
                    Event::UpdateSettings { applicable: postgres_wanted(settings) },
                ).1,
                ""@,
                final(self).obstacle(),
            ),
    {
        let applicable = settings.enabled && settings.postgres_enabled;
        self.settings = settings;
        self.handle(Event::UpdateSettings { applicable }, "")
    }

    /// Ends the supervision: a server that runs is stopped.
    pub fn terminate(&mut self) -> (out: Vec<Action>)
        ensures
            final(self).snapshot() == old(self).snapshot(),
            final(self).state() == step(old(self).state(), Event::Exit).0,
            action_views(out@) == rendered_all(
                postgres_texts(),
                step(old(self).state(), Event::Exit).1,
                ""@,
                final(self).obstacle(),
            ),
    {
        self.handle(Event::Exit, "")
    }

    /// The event of the lifecycle that a request stands for, on the
    /// settings `s` that are stored when it arrives.
    pub open spec fn event_of(request: SelfHostedPostgresEvents, s: SelfHostedSettings) -> Event {
        match request {
            SelfHostedPostgresEvents::Enable => Event::Enable { applicable: postgres_wanted(s) },
            SelfHostedPostgresEvents::Disable => Event::Disable,
            SelfHostedPostgresEvents::UpdateSettings(n) => Event::UpdateSettings {
                applicable: postgres_wanted(n),
            },
            SelfHostedPostgresEvents::Exit => Event::Exit,
        }
    }

    /// Takes a request, in the order in which the requests arrive.
    pub fn dispatch(&mut self, request: SelfHostedPostgresEvents) -> (out: Vec<Action>)
        ensures
            final(self).snapshot() == match request {
                SelfHostedPostgresEvents::UpdateSettings(n) => n,
                _ => old(self).snapshot(),
            },
            final(self).state() == step(
                old(self).state(),
                Self::event_of(request, old(self).snapshot()),
            ).0,
            action_views(out@) == rendered_all(
                postgres_texts(),
                step(old(self).state(), Self::event_of(request, old(self).snapshot())).1,
                ""@,
                final(self).obstacle(),
            ),
    {
        match request {
            SelfHostedPostgresEvents::Enable => self.enable(true),
            SelfHostedPostgresEvents::Disable => self.enable(false),
            SelfHostedPostgresEvents::UpdateSettings(n) => self.update_settings(n),
            SelfHostedPostgresEvents::Exit => self.terminate(),
        }
    }

    /// The data directory of the stored snapshot.
    pub fn data_dir(&self, storage_folder: &str) -> (r: String)
        ensures
            r@ == data_dir(self.snapshot(), storage_folder@),
    {
        resolve_data_dir(&self.settings, storage_folder)
    }

    /// How the server is started from the executable at `binary` on the
    /// data directory `dir`, on the stored snapshot.
    pub fn command(&self, binary: &str, dir: &str) -> (l: Launch)
        ensures
            l.program@ == binary@,
            l.argv() == postgres_args(self.snapshot(), dir@),
            l.env() == postgres_env(),
            l.current_dir is None,
            !l.own_process_group,
    {
        postgres_command(binary, &self.settings, dir)
    }

    /// What follows where the process could not be started; `error` is
    /// the reason in the words of the operating system.
    pub fn spawn_failed(error: &str) -> (f: Failure)
        ensures
            f.outcome == StartOutcome::SpawnFailed,
            f.level == LogLevel::Warn,
            f.message@ == concat(seq!["failed to start ("@, error@, ")"@]),
    {
        let mut p = no_pieces();
        push_text(&mut p, "failed to start (");
        push_text(&mut p, error);
        push_text(&mut p, ")");
        assert(texts(p@) =~= seq!["failed to start ("@, error@, ")"@]);
        Failure { outcome: StartOutcome::SpawnFailed, level: LogLevel::Warn, message: join(&p) }
    }
}

} // verus!

//! Finding an executable and describing how it is started.
//!
//! Nothing here touches the file system or starts a process. A service
//! states where its executable may lie, in order, and what must hold
//! before it is started; the caller looks, probes and reports back.

use crate::log_store::LogLevel;
use crate::readiness::WaitPolicy;
use crate::supervisor::StartOutcome;
use crate::text::{concat, join, no_pieces, push_text, strs, texts};
use vstd::prelude::*;

verus! {

/// The kind of operating system the application runs on.
#[derive(Clone, Copy, Debug, PartialEq, Eq, Structural)]
pub enum Platform {
    Linux,
    MacOs,
    Windows,
    Other,
}

impl Platform {
    pub fn is_windows(&self) -> (b: bool)
        ensures
            b == (*self == Platform::Windows),
    {
        match self {
            Platform::Windows => true,
            _ => false,
        }
    }

    /// Whether the platform is of the Unix family, where a process can
    /// lead a group of its own and sockets lie in the file system.
    pub open spec fn unix(self) -> bool {
        self == Platform::Linux || self == Platform::MacOs
    }

    pub fn is_unix(&self) -> (b: bool)
        ensures
            b == self.unix(),
    {
        match self {
            Platform::Linux => true,
            Platform::MacOs => true,
            _ => false,
        }
    }
}

/// Where a candidate path starts from.
#[derive(Clone, Copy, Debug, PartialEq, Eq, Structural)]
pub enum Base {
    /// The path is taken as it is written.
    AsGiven,
    /// The directory the application runs in.
    WorkingDir,
    /// An ancestor of the working directory: its parent for 1, and so on.
    WorkingAncestor(u8),
    /// The directory of the application's own executable.
    ExeDir,
    /// An ancestor of the directory of the application's own executable.
    ExeAncestor(u8),
    /// Every directory of the executable search path, in order.
    SearchPath,
    /// The directory that the environment names for the service, where
    /// it names one.
    EnvDir,
}

/// A place where an executable or a directory may lie. The path is
/// written with `/` between its parts.
#[derive(Clone, Debug, PartialEq, Eq)]
pub struct Candidate {
    pub base: Base,
    pub path: String,
}

pub ghost struct CandidateView {
    pub base: Base,
    pub path: Seq<char>,
}

impl View for Candidate {
    type V = CandidateView;

    open spec fn view(&self) -> CandidateView {
        CandidateView { base: self.base, path: self.path@ }
    }
}

/// What a list of candidates says.
pub open spec fn candidate_views(v: Seq<Candidate>) -> Seq<CandidateView> {
    v.map_values(|c: Candidate| c@)
}

pub open spec fn place(base: Base, path: Seq<char>) -> CandidateView {
    CandidateView { base, path }
}

/// Appends a candidate to the list.
pub fn push_candidate(v: &mut Vec<Candidate>, base: Base, path: String)
    ensures
        candidate_views(final(v)@) == candidate_views(old(v)@).push(place(base, path@)),
{
    v.push(Candidate { base, path });
    assert(candidate_views(v@) =~= candidate_views(old(v)@).push(place(base, path@)));
}

/// No candidates yet.
pub fn no_candidates() -> (v: Vec<Candidate>)
    ensures
        candidate_views(v@) == Seq::<CandidateView>::empty(),
{
    let v: Vec<Candidate> = Vec::new();
    assert(candidate_views(v@) =~= Seq::<CandidateView>::empty());
    v
}

/// The file name of an executable: the name itself, with `.exe` added on
/// Windows.
pub open spec fn binary_file(name: Seq<char>, windows: bool) -> Seq<char> {
    if windows {
        concat(seq![name, ".exe"@])
    } else {
        concat(seq![name])
    }
}

pub fn binary_name(name: &str, windows: bool) -> (r: String)
    ensures
        r@ == binary_file(name@, windows),
{
    let mut p = no_pieces();
    push_text(&mut p, name);
    if windows {
        push_text(&mut p, ".exe");
        assert(texts(p@) =~= seq![name@, ".exe"@]);
    } else {
        assert(texts(p@) =~= seq![name@]);
    }
    join(&p)
}

/// Where an executable that is built beside the application may lie:
/// next to the application's own executable, then, for the debug and for
/// the release build in turn, under the build output of the working
/// directory and under that of the sibling project.
pub open spec fn build_places(file: Seq<char>, project: Seq<char>) -> Seq<CandidateView> {
    seq![
        place(Base::ExeDir, concat(seq![file])),
        place(Base::WorkingDir, concat(seq!["target/debug/"@, file])),
        place(Base::WorkingDir, concat(seq![project, "/target/debug/"@, file])),
        place(Base::WorkingDir, concat(seq!["target/release/"@, file])),
        place(Base::WorkingDir, concat(seq![project, "/target/release/"@, file])),
    ]
}

fn path2(a: &str, b: &str) -> (r: String)
    ensures
        r@ == concat(seq![a@, b@]),
{
    let mut p = no_pieces();
    push_text(&mut p, a);
    push_text(&mut p, b);
    assert(texts(p@) =~= seq![a@, b@]);
    join(&p)
}

fn path3(a: &str, b: &str, c: &str) -> (r: String)
    ensures
        r@ == concat(seq![a@, b@, c@]),
{
    let mut p = no_pieces();
    push_text(&mut p, a);
    push_text(&mut p, b);
    push_text(&mut p, c);
    assert(texts(p@) =~= seq![a@, b@, c@]);
    join(&p)
}

fn path1(a: &str) -> (r: String)
    ensures
        r@ == concat(seq![a@]),
{
    let mut p = no_pieces();
    push_text(&mut p, a);
    assert(texts(p@) =~= seq![a@]);
    join(&p)
}

/// The candidates for an executable that is built beside the application.
pub fn build_output_candidates(file: &str, project: &str) -> (v: Vec<Candidate>)
    ensures
        candidate_views(v@) == build_places(file@, project@),
{
    let mut v = no_candidates();
    push_candidate(&mut v, Base::ExeDir, path1(file));
    push_candidate(&mut v, Base::WorkingDir, path2("target/debug/", file));
    push_candidate(&mut v, Base::WorkingDir, path3(project, "/target/debug/", file));
    push_candidate(&mut v, Base::WorkingDir, path2("target/release/", file));
    push_candidate(&mut v, Base::WorkingDir, path3(project, "/target/release/", file));
    assert(candidate_views(v@) =~= build_places(file@, project@));
    v
}

/// The position of the first `true` in `found`.
pub open spec fn first_true(found: Seq<bool>) -> Option<int>
    decreases found.len(),
{
    if found.len() == 0 {
        None
    } else {
        match first_true(found.drop_last()) {
            Some(i) => Some(i),
            None => if found.last() {
                Some(found.len() - 1)
            } else {
                None
            },
        }
    }
}

/// Chooses among candidates that were looked at in order: the first one
/// that exists.
pub fn first_existing(found: &Vec<bool>) -> (r: Option<usize>)
    ensures
        match r {
            Some(i) => first_true(found@) == Some(i as int) && i < found.len() && found@[i as int],
            None => first_true(found@) is None,
        },
        r is None <==> forall|k: int| 0 <= k < found.len() ==> !found@[k],
{
    let mut i: usize = 0;
    assert(found@.take(0) =~= Seq::<bool>::empty());
    while i < found.len()
        invariant
            i <= found.len(),
            first_true(found@.take(i as int)) is None,
            forall|k: int| 0 <= k < i ==> !found@[k],
        decreases found.len() - i,
    {
        if found[i] {
            proof {
                lemma_first_true_prefix(found@, i as int);
            }
            return Some(i);
        }
        assert(found@.take(i + 1).drop_last() =~= found@.take(i as int));
        i = i + 1;
    }
    assert(found@.take(found.len() as int) =~= found@);
    None
}

/// A `true` that no `true` precedes is the first one.
pub proof fn lemma_first_true_prefix(found: Seq<bool>, i: int)
    requires
        0 <= i < found.len(),
        found[i],
        forall|k: int| 0 <= k < i ==> !found[k],
    ensures
        first_true(found) == Some(i),
    decreases found.len(),
{
    lemma_first_true_none(found.take(i));
    if i == found.len() - 1 {
        assert(found.drop_last() =~= found.take(i));
    } else {
        let head = found.drop_last();
        assert forall|k: int| 0 <= k < i implies !head[k] by {
            assert(head[k] == found[k]);
        }
        lemma_first_true_prefix(head, i);
    }
}

/// Where nothing is `true`, there is no first `true`.
pub proof fn lemma_first_true_none(found: Seq<bool>)
    requires
        forall|k: int| 0 <= k < found.len() ==> !found[k],
    ensures
        first_true(found) is None,
    decreases found.len(),
{
    if found.len() > 0 {
        let head = found.drop_last();
        assert forall|k: int| 0 <= k < head.len() implies !head[k] by {
            assert(head[k] == found[k]);
        }
        lemma_first_true_none(head);
    }
}

/// How a process is started.
#[derive(Clone, Debug, PartialEq, Eq)]
pub struct Launch {
    /// The executable.
    pub program: String,
    /// The arguments, in order.
    pub args: Vec<String>,
    /// Variables added to the environment, in order.
    pub envs: Vec<(String, String)>,
    /// The directory the process is started in, where it is not the
    /// application's own.
    pub current_dir: Option<String>,
    /// Whether the process leads a process group of its own, so that its
    /// whole subtree can be signalled.
    pub own_process_group: bool,
}

impl Launch {
    /// The arguments as texts.
    pub open spec fn argv(&self) -> Seq<Seq<char>> {
        strs(self.args@)
    }

    /// The environment as pairs of texts.
    pub open spec fn env(&self) -> Seq<(Seq<char>, Seq<char>)> {
        self.envs@.map_values(|p: (String, String)| (p.0@, p.1@))
    }
}

/// Sets a variable in the environment of a launch.
pub fn push_env(envs: &mut Vec<(String, String)>, name: &str, value: String)
    ensures
        final(envs)@.map_values(|p: (String, String)| (p.0@, p.1@)) == old(envs)@.map_values(
            |p: (String, String)| (p.0@, p.1@),
        ).push((name@, value@)),
{
    let n = name.to_owned();
    envs.push((n, value));
    assert(envs@.map_values(|p: (String, String)| (p.0@, p.1@)) =~= old(envs)@.map_values(
        |p: (String, String)| (p.0@, p.1@),
    ).push((name@, value@)));
}

/// What must hold before a process is started.
#[derive(Clone, Debug, PartialEq, Eq)]
pub enum Gate {
    /// The address must be free to bind: nothing else may listen on it.
    PortFree { address: String },
    /// The address must accept TCP connections.
    Reachable { address: String, policy: WaitPolicy },
    /// The database server must accept the first connection string; where
    /// `database` names one, that database must exist and accept the
    /// second.
    Database { server: String, database: Option<String>, target: String, policy: WaitPolicy },
    /// One of the candidates must exist.
    Located { candidates: Vec<Candidate> },
}

pub ghost enum GateView {
    PortFree { address: Seq<char> },
    Reachable { address: Seq<char>, policy: WaitPolicy },
    Database { server: Seq<char>, database: Option<Seq<char>>, target: Seq<char>, policy: WaitPolicy },
    Located { candidates: Seq<CandidateView> },
}

impl View for Gate {
    type V = GateView;

    open spec fn view(&self) -> GateView {
        match self {
            Gate::PortFree { address } => GateView::PortFree { address: address@ },
            Gate::Reachable { address, policy } => GateView::Reachable {
                address: address@,
                policy: *policy,
            },
            Gate::Database { server, database, target, policy } => GateView::Database {
                server: server@,
                database: match database {
                    Some(d) => Some(d@),
                    None => None,
                },
                target: target@,
                policy: *policy,
            },
            Gate::Located { candidates } => GateView::Located {
                candidates: candidate_views(candidates@),
            },
        }
    }
}

/// What a failed gate leads to.
#[derive(Clone, Debug, PartialEq, Eq)]
pub struct Failure {
    pub outcome: StartOutcome,
    pub level: LogLevel,
    /// What the operator is told; nothing where the text is empty.
    pub message: String,
}

pub ghost struct FailureView {
    pub outcome: StartOutcome,
    pub level: LogLevel,
    pub message: Seq<char>,
}

impl View for Failure {
    type V = FailureView;

    open spec fn view(&self) -> FailureView {
        FailureView { outcome: self.outcome, level: self.level, message: self.message@ }
    }
}

/// A gate together with what its failure leads to.
#[derive(Clone, Debug, PartialEq, Eq)]
pub struct Check {
    pub gate: Gate,
    pub failure: Failure,
}

pub ghost struct CheckView {
    pub gate: GateView,
    pub failure: FailureView,
}

impl View for Check {
    type V = CheckView;

    open spec fn view(&self) -> CheckView {
        CheckView { gate: self.gate@, failure: self.failure@ }
    }
}

/// What a list of checks says.
pub open spec fn check_views(v: Seq<Check>) -> Seq<CheckView> {
    v.map_values(|c: Check| c@)
}

pub open spec fn failing(outcome: StartOutcome, level: LogLevel, message: Seq<char>) -> FailureView {
    FailureView { outcome, level, message }
}

pub open spec fn checking(gate: GateView, failure: FailureView) -> CheckView {
    CheckView { gate, failure }
}

/// Appends a check to the list.
pub fn push_check(v: &mut Vec<Check>, gate: Gate, failure: Failure)
    ensures
        check_views(final(v)@) == check_views(old(v)@).push(checking(gate@, failure@)),
{
    let c = Check { gate, failure };
    v.push(c);
    assert(check_views(v@) =~= check_views(old(v)@).push(c@));
}

/// No checks yet.
pub fn no_checks() -> (v: Vec<Check>)
    ensures
        check_views(v@) == Seq::<CheckView>::empty(),
{
    let v: Vec<Check> = Vec::new();
    assert(check_views(v@) =~= Seq::<CheckView>::empty());
    v
}

/// What a start attempt does next.
#[derive(Clone, Copy, Debug, PartialEq, Eq, Structural)]
pub enum Progress {
    /// Evaluate the check at the given position.
    Evaluate(usize),
    /// All checks passed: start the process.
    Spawn,
    /// The check at the given position failed: the attempt ends with its
    /// failure.
    Abort(usize),
}

/// Where a start attempt stands after the checks before `position`
/// passed and the check at `position`, if it was evaluated, gave
/// `passed`.
pub open spec fn progress(checks: nat, position: nat, passed: Option<bool>) -> Progress {
    match passed {
        Some(false) => Progress::Abort(position as usize),
        Some(true) => if position + 1 < checks {
            Progress::Evaluate((position + 1) as usize)
        } else {
            Progress::Spawn
        },
        None => if position < checks {
            Progress::Evaluate(position as usize)
        } else {
            Progress::Spawn
        },
    }
}

/// The walk through the checks of one start attempt, in order. A check
/// is evaluated only after all checks before it passed, and the process
/// is started only after all of them passed.
pub struct StartAttempt {
    checks: usize,
    position: usize,
    failed: bool,
}

impl StartAttempt {
    pub closed spec fn total(&self) -> nat {
        self.checks as nat
    }

    /// Number of checks that passed.
    pub closed spec fn passed(&self) -> nat {
        self.position as nat
    }

    pub closed spec fn aborted(&self) -> bool {
        self.failed
    }

    #[verifier::type_invariant]
    spec fn inv(&self) -> bool {
        self.position <= self.checks && (self.failed ==> self.position < self.checks)
    }

    /// An attempt that has `checks` checks before it.
    pub fn new(checks: usize) -> (a: Self)
        ensures
            a.total() == checks,
            a.passed() == 0,
            !a.aborted(),
    {
        StartAttempt { checks, position: 0, failed: false }
    }

    /// What to do next.
    pub fn next(&self) -> (p: Progress)
        ensures
            p == if self.aborted() {
                Progress::Abort(self.passed() as usize)
            } else {
                progress(self.total(), self.passed(), None)
            },
            p matches Progress::Evaluate(i) ==> i < self.total(),
            p matches Progress::Abort(i) ==> i < self.total(),
            p == Progress::Spawn <==> !self.aborted() && self.passed() == self.total(),
    {
        proof {
            use_type_invariant(self);
        }
        if self.failed {
            Progress::Abort(self.position)
        } else if self.position < self.checks {
            Progress::Evaluate(self.position)
        } else {
            Progress::Spawn
        }
    }

    /// Takes the result of the check that [`next`](Self::next) asked for.
    /// A result that was not asked for changes nothing.
    pub fn report(&mut self, passed: bool) -> (p: Progress)
        ensures
            final(self).total() == old(self).total(),
            old(self).aborted() || old(self).passed() >= old(self).total() ==> *final(self)
                == *old(self),
            !old(self).aborted() && old(self).passed() < old(self).total() ==> {
                &&& p == progress(old(self).total(), old(self).passed(), Some(passed))
                &&& final(self).aborted() == !passed
                &&& final(self).passed() == old(self).passed() + if passed {
                    1nat
                } else {
                    0nat
                }
            },
            p == Progress::Spawn <==> !final(self).aborted() && final(self).passed()
                == final(self).total(),
    {
        proof {
            use_type_invariant(&*self);
        }
        if self.failed || self.position >= self.checks {
            return self.next();
        }
        if passed {
            self.position = self.position + 1;
        } else {
            self.failed = true;
        }
        self.next()
    }
}

} // verus!

//! The supervised services.
//!
//! Every service is a supervisor together with the words that its
//! notices are written in. What a service does on an event is what its
//! supervisor commands, put into words for the operator.

pub mod cpu_miner;
pub mod rothschild;
pub mod self_hosted_db;
pub mod self_hosted_explorer;
pub mod self_hosted_indexer;
pub mod self_hosted_k_indexer;
pub mod self_hosted_postgres;
pub mod stratum_bridge;

use crate::log_store::LogLevel;
use crate::supervisor::{
    reason_of_exit, step, valid, Command, Event, ExitKind, Model, Notice, RestartReason,
    StartOutcome, Supervisor, RESTART_DELAY_SECS,
};
use crate::text::{
    chars_eq_str, chars_of, concat, decimal, join, no_pieces, push_number, push_text, string_of,
    texts, trim, trimmed,
};
use vstd::string::StringExecFns;
use vstd::prelude::*;

verus! {

/// What the caller of a service has to do.
#[derive(Clone, Debug, PartialEq, Eq)]
pub enum Action {
    /// Terminate the child and reap it.
    Stop,
    /// Run the start routine on the stored settings and report how it
    /// ended.
    Start,
    /// Wait for the given number of seconds and report that the restart
    /// is due.
    ArmRestart { delay_secs: u64 },
    /// Add a line to the service's log.
    Log { level: LogLevel, message: String },
    /// Signal that the service has ended.
    Done,
}

pub ghost enum ActionView {
    Stop,
    Start,
    ArmRestart { delay_secs: u64 },
    Log { level: LogLevel, message: Seq<char> },
    Done,
}

impl View for Action {
    type V = ActionView;

    open spec fn view(&self) -> ActionView {
        match self {
            Action::Stop => ActionView::Stop,
            Action::Start => ActionView::Start,
            Action::ArmRestart { delay_secs } => ActionView::ArmRestart { delay_secs: *delay_secs },
            Action::Log { level, message } => ActionView::Log { level: *level, message: message@ },
            Action::Done => ActionView::Done,
        }
    }
}

/// What a list of actions says.
pub open spec fn action_views(v: Seq<Action>) -> Seq<ActionView> {
    v.map_values(|a: Action| a@)
}

/// The words of a service.
#[derive(Clone, Copy, Debug, PartialEq, Eq)]
pub struct ServiceTexts {
    /// The name that every line of the service begins with.
    pub label: &'static str,
    /// What is said when the process runs.
    pub started: &'static str,
    /// What stands between the name and the exit status in the line that
    /// says that the process ended, and what stands after the status.
    pub exit_open: &'static str,
    pub exit_close: &'static str,
    /// What stands between the name and the error in the line that says
    /// that the process could not be watched, and what stands after the
    /// error.
    pub monitor_open: &'static str,
    pub monitor_close: &'static str,
    /// Why a restart is scheduled when no executable was found.
    pub binary_missing: &'static str,
    /// Why a restart is scheduled when the process could not be started.
    pub spawn_failed: &'static str,
    /// Why a restart is scheduled when the process ended.
    pub exited: &'static str,
    /// Why a restart is scheduled when the process could not be watched.
    pub monitor_error: &'static str,
}

impl ServiceTexts {
    pub open spec fn reason(&self, r: RestartReason) -> Seq<char> {
        match r {
            RestartReason::BinaryMissing => self.binary_missing@,
            RestartReason::SpawnFailed => self.spawn_failed@,
            RestartReason::Exited => self.exited@,
            RestartReason::MonitorError => self.monitor_error@,
        }
    }

    pub fn reason_text(&self, r: RestartReason) -> (t: &'static str)
        ensures
            t@ == self.reason(r),
    {
        match r {
            RestartReason::BinaryMissing => self.binary_missing,
            RestartReason::SpawnFailed => self.spawn_failed,
            RestartReason::Exited => self.exited,
            RestartReason::MonitorError => self.monitor_error,
        }
    }
}

/// The line that says that the process runs.
pub open spec fn started_line(t: ServiceTexts) -> Seq<char> {
    concat(seq![t.label@, ": "@, t.started@])
}

/// The line that says that the process was stopped.
pub open spec fn stopped_line(t: ServiceTexts) -> Seq<char> {
    concat(seq![t.label@, ": stopped"@])
}

/// The line that says how the process was lost; `detail` is the exit
/// status or the error as the operating system words it.
pub open spec fn exit_line(t: ServiceTexts, kind: ExitKind, detail: Seq<char>) -> Seq<char> {
    match kind {
        ExitKind::Exited { .. } => concat(seq![t.label@, t.exit_open@, detail, t.exit_close@]),
        ExitKind::MonitorError => concat(
            seq![t.label@, t.monitor_open@, detail, t.monitor_close@],
        ),
    }
}

/// The line that says why and when the service is restarted.
pub open spec fn restart_line(t: ServiceTexts, reason: RestartReason) -> Seq<char> {
    concat(
        seq![
            t.label@,
            ": "@,
            t.reason(reason),
            "; restarting in "@,
            decimal(RESTART_DELAY_SECS as nat),
            "s"@,
        ],
    )
}

pub open spec fn log(level: LogLevel, message: Seq<char>) -> ActionView {
    ActionView::Log { level, message }
}

/// What one command of the supervisor asks of the caller. `detail` is
/// the exit status or the error that came with the event; `obstacle` is
/// the line that says why the service, though switched on, is not
/// started on its settings, and is empty where nothing is to be said.
pub open spec fn rendered(t: ServiceTexts, cmd: Command, detail: Seq<char>, obstacle: Seq<char>) -> Seq<
    ActionView,
> {
    match cmd {
        Command::Stop => seq![ActionView::Stop],
        Command::Start => seq![ActionView::Start],
        Command::Done => seq![ActionView::Done],
        Command::ArmRestart(reason) => seq![
            log(LogLevel::Info, restart_line(t, reason)),
            ActionView::ArmRestart { delay_secs: RESTART_DELAY_SECS },
        ],
        Command::Note(Notice::Started) => seq![log(LogLevel::Info, started_line(t))],
        Command::Note(Notice::Stopped) => seq![log(LogLevel::Info, stopped_line(t))],
        Command::Note(Notice::Exited(kind)) => seq![
            log(LogLevel::Warn, exit_line(t, kind, detail)),
        ],
        Command::Note(Notice::Unsupported) => if obstacle.len() == 0 {
            Seq::empty()
        } else {
            seq![log(LogLevel::Info, obstacle)]
        },
    }
}

/// What a sequence of commands asks of the caller, in order.
pub open spec fn rendered_all(
    t: ServiceTexts,
    cmds: Seq<Command>,
    detail: Seq<char>,
    obstacle: Seq<char>,
) -> Seq<ActionView>
    decreases cmds.len(),
{
    if cmds.len() == 0 {
        Seq::empty()
    } else {
        rendered_all(t, cmds.drop_last(), detail, obstacle) + rendered(
            t,
            cmds.last(),
            detail,
            obstacle,
        )
    }
}

/// What no command asks of the caller: nothing.
pub proof fn lemma_rendered_none(t: ServiceTexts, detail: Seq<char>, obstacle: Seq<char>)
    ensures
        rendered_all(t, Seq::empty(), detail, obstacle) == Seq::<ActionView>::empty(),
{
}

/// What one command asks of the caller.
pub proof fn lemma_rendered_one(t: ServiceTexts, cmd: Command, detail: Seq<char>, obstacle: Seq<char>)
    ensures
        rendered_all(t, seq![cmd], detail, obstacle) == rendered(t, cmd, detail, obstacle),
{
    let cmds = seq![cmd];
    assert(cmds.drop_last() =~= Seq::<Command>::empty());
    assert(cmds.last() == cmd);
    lemma_rendered_none(t, detail, obstacle);
    assert(rendered_all(t, cmds, detail, obstacle) == rendered_all(
        t,
        cmds.drop_last(),
        detail,
        obstacle,
    ) + rendered(t, cmd, detail, obstacle));
    assert(Seq::<ActionView>::empty() + rendered(t, cmd, detail, obstacle) =~= rendered(
        t,
        cmd,
        detail,
        obstacle,
    ));
}

/// What two commands ask of the caller: what the first asks, then what
/// the second asks.
pub proof fn lemma_rendered_two(
    t: ServiceTexts,
    first: Command,
    second: Command,
    detail: Seq<char>,
    obstacle: Seq<char>,
)
    ensures
        rendered_all(t, seq![first, second], detail, obstacle) == rendered(
            t,
            first,
            detail,
            obstacle,
        ) + rendered(t, second, detail, obstacle),
{
    let cmds = seq![first, second];
    assert(cmds.drop_last() =~= seq![first]);
    assert(cmds.last() == second);
    lemma_rendered_one(t, first, detail, obstacle);
    assert(rendered_all(t, cmds, detail, obstacle) == rendered_all(
        t,
        cmds.drop_last(),
        detail,
        obstacle,
    ) + rendered(t, second, detail, obstacle));
}

/// A start that succeeded on a service that is switched on is told in
/// one informational line, made of the service's name and its word for
/// a running process; the child is then held.
pub proof fn lemma_start_is_told_once(
    t: ServiceTexts,
    m: Model,
    detail: Seq<char>,
    obstacle: Seq<char>,
)
    requires
        valid(m),
        m.starting,
        m.enabled,
    ensures
        rendered_all(t, step(m, Event::Started(StartOutcome::Spawned)).1, detail, obstacle)
            == seq![log(LogLevel::Info, started_line(t))],
        step(m, Event::Started(StartOutcome::Spawned)).0.live,
{
    let cmds = step(m, Event::Started(StartOutcome::Spawned)).1;
    assert(cmds =~= seq![Command::Note(Notice::Started)]);
    lemma_rendered_one(t, Command::Note(Notice::Started), detail, obstacle);
}

/// The loss of a running child, on a service that applies and has no
/// restart pending, is told in one warning that holds the exit status,
/// followed by one informational line that names the reason and the
/// fixed delay, and one restart is armed with that delay. A second
/// report of the same loss asks for nothing.
pub proof fn lemma_exit_arms_one_restart(
    t: ServiceTexts,
    m: Model,
    kind: ExitKind,
    detail: Seq<char>,
    obstacle: Seq<char>,
)
    requires
        valid(m),
        m.live,
        m.applicable,
        !m.restart_pending,
    ensures
        rendered_all(t, step(m, Event::ChildExited(kind)).1, detail, obstacle) == seq![
            log(LogLevel::Warn, exit_line(t, kind, detail)),
            log(LogLevel::Info, restart_line(t, reason_of_exit(kind))),
            ActionView::ArmRestart { delay_secs: RESTART_DELAY_SECS },
        ],
        rendered_all(
            t,
            step(step(m, Event::ChildExited(kind)).0, Event::ChildExited(kind)).1,
            detail,
            obstacle,
        ) == Seq::<ActionView>::empty(),
{
    let reason = reason_of_exit(kind);
    let first = step(m, Event::ChildExited(kind));
    assert(first.1 =~= seq![Command::Note(Notice::Exited(kind)), Command::ArmRestart(reason)]);
    lemma_rendered_two(
        t,
        Command::Note(Notice::Exited(kind)),
        Command::ArmRestart(reason),
        detail,
        obstacle,
    );
    assert(rendered(t, Command::Note(Notice::Exited(kind)), detail, obstacle) + rendered(
        t,
        Command::ArmRestart(reason),
        detail,
        obstacle,
    ) =~= seq![
        log(LogLevel::Warn, exit_line(t, kind, detail)),
        log(LogLevel::Info, restart_line(t, reason)),
        ActionView::ArmRestart { delay_secs: RESTART_DELAY_SECS },
    ]);
    let second = step(first.0, Event::ChildExited(kind));
    assert(second.1 =~= Seq::<Command>::empty());
}

fn is_empty_text(s: &str) -> (b: bool)
    ensures
        b == (s@.len() == 0),
{
    let v = chars_of(s);
    v.len() == 0
}

fn push_action(v: &mut Vec<Action>, a: Action)
    ensures
        action_views(final(v)@) == action_views(old(v)@).push(a@),
{
    v.push(a);
    assert(action_views(v@) =~= action_views(old(v)@).push(a@));
}

fn push_log(v: &mut Vec<Action>, level: LogLevel, message: String)
    ensures
        action_views(final(v)@) == action_views(old(v)@).push(log(level, message@)),
{
    push_action(v, Action::Log { level, message });
}

fn word_command(t: &ServiceTexts, cmd: Command, detail: &str, obstacle: &str, out: &mut Vec<Action>)
    ensures
        action_views(final(out)@) == action_views(old(out)@) + rendered(
            *t,
            cmd,
            detail@,
            obstacle@,
        ),
{
    let ghost before = action_views(out@);
    match cmd {
        Command::Stop => {
            push_action(out, Action::Stop);
        },
        Command::Start => {
            push_action(out, Action::Start);
        },
        Command::Done => {
            push_action(out, Action::Done);
        },
        Command::ArmRestart(reason) => {
            let mut p = no_pieces();
            push_text(&mut p, t.label);
            push_text(&mut p, ": ");
            push_text(&mut p, t.reason_text(reason));
            push_text(&mut p, "; restarting in ");
            push_number(&mut p, RESTART_DELAY_SECS);
            push_text(&mut p, "s");
            assert(texts(p@) =~= seq![
                t.label@,
                ": "@,
                t.reason(reason),
                "; restarting in "@,
                decimal(RESTART_DELAY_SECS as nat),
                "s"@,
            ]);
            push_log(out, LogLevel::Info, join(&p));
            push_action(out, Action::ArmRestart { delay_secs: RESTART_DELAY_SECS });
        },
        Command::Note(Notice::Started) => {
            let mut p = no_pieces();
            push_text(&mut p, t.label);
            push_text(&mut p, ": ");
            push_text(&mut p, t.started);
            assert(texts(p@) =~= seq![t.label@, ": "@, t.started@]);
            push_log(out, LogLevel::Info, join(&p));
        },
        Command::Note(Notice::Stopped) => {
            let mut p = no_pieces();
            push_text(&mut p, t.label);
            push_text(&mut p, ": stopped");
            assert(texts(p@) =~= seq![t.label@, ": stopped"@]);
            push_log(out, LogLevel::Info, join(&p));
        },
        Command::Note(Notice::Exited(kind)) => {
            let mut p = no_pieces();
            push_text(&mut p, t.label);
            match kind {
                ExitKind::Exited { .. } => {
                    push_text(&mut p, t.exit_open);
                    push_text(&mut p, detail);
                    push_text(&mut p, t.exit_close);
                },
                ExitKind::MonitorError => {
                    push_text(&mut p, t.monitor_open);
                    push_text(&mut p, detail);
                    push_text(&mut p, t.monitor_close);
                },
            }
            assert(concat(texts(p@)) == exit_line(*t, kind, detail@)) by {
                match kind {
                    ExitKind::Exited { .. } => {
                        assert(texts(p@) =~= seq![t.label@, t.exit_open@, detail@, t.exit_close@]);
                    },
                    ExitKind::MonitorError => {
                        assert(texts(p@) =~= seq![
                            t.label@,
                            t.monitor_open@,
                            detail@,
                            t.monitor_close@,
                        ]);
                    },
                }
            }
            push_log(out, LogLevel::Warn, join(&p));
        },
        Command::Note(Notice::Unsupported) => {
            if !is_empty_text(obstacle) {
                push_log(out, LogLevel::Info, obstacle.to_owned());
            }
        },
    }
    assert(action_views(out@) =~= before + rendered(*t, cmd, detail@, obstacle@));
}

/// Puts the commands of a supervisor into actions, in order.
pub fn render_all(t: &ServiceTexts, cmds: &Vec<Command>, detail: &str, obstacle: &str) -> (out: Vec<
    Action,
>)
    ensures
        action_views(out@) == rendered_all(*t, cmds@, detail@, obstacle@),
{
    let mut out: Vec<Action> = Vec::new();
    assert(action_views(out@) =~= Seq::<ActionView>::empty());
    let mut i: usize = 0;
    assert(cmds@.take(0) =~= Seq::<Command>::empty());
    while i < cmds.len()
        invariant
            i <= cmds.len(),
            action_views(out@) == rendered_all(*t, cmds@.take(i as int), detail@, obstacle@),
        decreases cmds.len() - i,
    {
        proof {
            assert(cmds@.take(i + 1).drop_last() =~= cmds@.take(i as int));
        }
        word_command(t, cmds[i], detail, obstacle, &mut out);
        i = i + 1;
    }
    assert(cmds@.take(cmds.len() as int) =~= cmds@);
    out
}

// ---------------------------------------------------------------------------
// Telling the views
// ---------------------------------------------------------------------------

/// What every service is given when it is made.
#[derive(Clone, Copy, Debug, PartialEq, Eq, Structural)]
pub struct Context {
    /// Whether the views have asked to be told of new lines.
    pub update_logs: bool,
    /// Whether there are views to tell.
    pub attached: bool,
}

impl Context {
    /// Whether the views are told after `added` lines were captured: they
    /// have asked for it, they are there, and there is something new.
    pub open spec fn tells(self, added: nat) -> bool {
        self.update_logs && self.attached && added > 0
    }

    /// The context of a run without views: nobody is told.
    pub fn headless() -> (c: Self)
        ensures
            c == (Context { update_logs: false, attached: false }),
            forall|added: nat| !c.tells(added),
    {
        Context { update_logs: false, attached: false }
    }

    /// Whether the views are told after `added` lines were captured.
    pub fn wants_update(&self, added: usize) -> (b: bool)
        ensures
            b == self.tells(added as nat),
    {
        self.update_logs && self.attached && added > 0
    }
}

// ---------------------------------------------------------------------------
// Addresses
// ---------------------------------------------------------------------------

/// Whether an address stands for every interface of the machine.
pub open spec fn is_wildcard(host: Seq<char>) -> bool {
    host.len() == 0 || host == "0.0.0.0"@ || host == "::"@ || host == "[::]"@
}

/// The host at which a server that is bound to `bind` is reached from
/// this machine: the loopback address where the server listens on every
/// interface, the bind address otherwise.
pub open spec fn reachable_host(bind: Seq<char>) -> Seq<char> {
    if is_wildcard(trim(bind)) {
        "127.0.0.1"@
    } else {
        trim(bind)
    }
}

pub fn resolve_bind_host(bind: &str) -> (r: String)
    ensures
        r@ == reachable_host(bind@),
{
    let t = trimmed(bind);
    if t.len() == 0 || chars_eq_str(&t, "0.0.0.0") || chars_eq_str(&t, "::") || chars_eq_str(
        &t,
        "[::]",
    ) {
        String::from_str("127.0.0.1")
    } else {
        string_of(&t)
    }
}

/// A host and a port, written with a colon between them.
pub open spec fn host_port(host: Seq<char>, port: u16) -> Seq<char> {
    concat(seq![host, ":"@, decimal(port as nat)])
}

pub fn join_host_port(host: &str, port: u16) -> (r: String)
    ensures
        r@ == host_port(host@, port),
{
    let mut p = no_pieces();
    push_text(&mut p, host);
    push_text(&mut p, ":");
    push_number(&mut p, port as u64);
    assert(texts(p@) =~= seq![host@, ":"@, decimal(port as nat)]);
    join(&p)
}

// ---------------------------------------------------------------------------
// Two processes under one switch
// ---------------------------------------------------------------------------

/// One of the two processes of a composite service.
#[derive(Clone, Copy, Debug, PartialEq, Eq, Structural)]
pub enum Part {
    /// The process that is started first.
    First,
    /// The process that is started second.
    Second,
}

/// What happened to one process of a composite service.
#[derive(Clone, Copy, Debug, PartialEq, Eq, Structural)]
pub enum PartEvent {
    /// A start attempt that was asked for has ended.
    Started(StartOutcome),
    /// The running child was lost.
    ChildExited(ExitKind),
    /// The restart delay has elapsed.
    RestartDue,
}

impl PartEvent {
    pub open spec fn event(self) -> Event {
        match self {
            PartEvent::Started(o) => Event::Started(o),
            PartEvent::ChildExited(k) => Event::ChildExited(k),
            PartEvent::RestartDue => Event::RestartDue,
        }
    }

    pub fn to_event(&self) -> (e: Event)
        ensures
            e == self.event(),
    {
        match self {
            PartEvent::Started(o) => Event::Started(*o),
            PartEvent::ChildExited(k) => Event::ChildExited(*k),
            PartEvent::RestartDue => Event::RestartDue,
        }
    }
}

/// What concerns both processes of a composite service.
#[derive(Clone, Copy, Debug, PartialEq, Eq, Structural)]
pub enum SharedEvent {
    Enable { applicable: bool },
    Disable,
    UpdateSettings { applicable: bool },
    Exit,
    /// The periodic reconciliation: a process that is missing is started.
    Tick,
}

impl SharedEvent {
    pub open spec fn event(self) -> Event {
        match self {
            SharedEvent::Enable { applicable } => Event::Enable { applicable },
            SharedEvent::Disable => Event::Disable,
            SharedEvent::UpdateSettings { applicable } => Event::UpdateSettings { applicable },
            SharedEvent::Exit => Event::Exit,
            SharedEvent::Tick => Event::Tick,
        }
    }

    pub fn to_event(&self) -> (e: Event)
        ensures
            e == self.event(),
    {
        match self {
            SharedEvent::Enable { applicable } => Event::Enable { applicable: *applicable },
            SharedEvent::Disable => Event::Disable,
            SharedEvent::UpdateSettings { applicable } => Event::UpdateSettings {
                applicable: *applicable,
            },
            SharedEvent::Exit => Event::Exit,
            SharedEvent::Tick => Event::Tick,
        }
    }
}

/// Whether two processes stand under one switch: they are switched on
/// and off together, work on the same settings and end together.
pub open spec fn paired(a: Model, b: Model) -> bool {
    a.enabled == b.enabled && a.applicable == b.applicable && a.done == b.done
}

/// The supervisors of a composite service: two processes, each with a
/// lifecycle of its own, under one switch and one snapshot of the
/// settings.
pub struct Pair {
    first: Supervisor,
    second: Supervisor,
}

impl Pair {
    pub closed spec fn first(&self) -> Model {
        self.first@
    }

    pub closed spec fn second(&self) -> Model {
        self.second@
    }

    pub open spec fn part(&self, p: Part) -> Model {
        match p {
            Part::First => self.first(),
            Part::Second => self.second(),
        }
    }

    #[verifier::type_invariant]
    spec fn inv(&self) -> bool {
        paired(self.first@, self.second@) && valid(self.first@) && valid(self.second@)
    }

    pub fn new(enabled: bool, applicable: bool) -> (p: Self)
        ensures
            p.first() == p.second(),
            p.first() == (Model {
                enabled,
                applicable,
                starting: false,
                restart_pending: false,
                live: false,
                done: false,
            }),
    {
        Pair {
            first: Supervisor::new(enabled, applicable),
            second: Supervisor::new(enabled, applicable),
        }
    }

    pub fn is_enabled(&self) -> (b: bool)
        ensures
            b == self.first().enabled,
            b == self.second().enabled,
    {
        proof {
            use_type_invariant(self);
        }
        self.first.is_enabled()
    }

    pub fn is_running(&self, part: Part) -> (b: bool)
        ensures
            b == self.part(part).live,
    {
        match part {
            Part::First => self.first.is_running(),
            Part::Second => self.second.is_running(),
        }
    }

    /// Hands an event that concerns both processes to both supervisors.
    pub fn broadcast(&mut self, e: SharedEvent) -> (cmds: (Vec<Command>, Vec<Command>))
        ensures
            (final(self).first(), cmds.0@) == step(old(self).first(), e.event()),
            (final(self).second(), cmds.1@) == step(old(self).second(), e.event()),
            paired(final(self).first(), final(self).second()),
    {
        proof {
            use_type_invariant(&*self);
            lemma_shared_keeps_pair(self.first@, self.second@, e);
        }
        let mut a = self.first;
        let mut b = self.second;
        let event = e.to_event();
        let ca = a.handle(event);
        let cb = b.handle(event);
        *self = Pair { first: a, second: b };
        (ca, cb)
    }

    /// Hands an event that concerns one process to its supervisor. The
    /// other process is left as it is.
    pub fn notify(&mut self, part: Part, e: PartEvent) -> (cmds: Vec<Command>)
        ensures
            (final(self).part(part), cmds@) == step(old(self).part(part), e.event()),
            part == Part::First ==> final(self).second() == old(self).second(),
            part == Part::Second ==> final(self).first() == old(self).first(),
            paired(final(self).first(), final(self).second()),
    {
        proof {
            use_type_invariant(&*self);
            lemma_part_keeps_switch(self.first@, e);
            lemma_part_keeps_switch(self.second@, e);
        }
        let mut a = self.first;
        let mut b = self.second;
        let event = e.to_event();
        let cmds = match part {
            Part::First => a.handle(event),
            Part::Second => b.handle(event),
        };
        *self = Pair { first: a, second: b };
        cmds
    }
}

/// An event that concerns one process leaves the switch, the settings
/// and the end of the service as they are.
pub proof fn lemma_part_keeps_switch(m: Model, e: PartEvent)
    ensures
        step(m, e.event()).0.enabled == m.enabled,
        step(m, e.event()).0.applicable == m.applicable,
        step(m, e.event()).0.done == m.done,
{
}

/// An event that concerns both processes leaves them under one switch.
pub proof fn lemma_shared_keeps_pair(a: Model, b: Model, e: SharedEvent)
    requires
        paired(a, b),
    ensures
        paired(step(a, e.event()).0, step(b, e.event()).0),
{
}

/// The commands without the signal that the service has ended.
pub open spec fn without_done(cmds: Seq<Command>) -> Seq<Command> {
    cmds.filter(|c: Command| c != Command::Done)
}

/// Drops the signal that the service has ended from the commands, so
/// that of two processes only one gives it.
pub fn drop_done(cmds: &Vec<Command>) -> (out: Vec<Command>)
    ensures
        out@ == without_done(cmds@),
{
    let mut out: Vec<Command> = Vec::new();
    let mut i: usize = 0;
    let ghost keep = |c: Command| c != Command::Done;
    assert(cmds@.take(0).filter(keep) =~= Seq::<Command>::empty());
    while i < cmds.len()
        invariant
            i <= cmds.len(),
            keep == |c: Command| c != Command::Done,
            out@ == cmds@.take(i as int).filter(keep),
        decreases cmds.len() - i,
    {
        proof {
            assert(cmds@.take(i + 1).drop_last() =~= cmds@.take(i as int));
            reveal(Seq::filter);
        }
        match cmds[i] {
            Command::Done => {},
            c => {
                out.push(c);
            },
        }
        i = i + 1;
    }
    assert(cmds@.take(cmds.len() as int) =~= cmds@);
    out
}

/// What the caller of a composite service has to do: for the first
/// process, then for the second.
#[derive(Clone, Debug, PartialEq, Eq)]
pub struct PartActions {
    pub first: Vec<Action>,
    pub second: Vec<Action>,
}

} // verus!

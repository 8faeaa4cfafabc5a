//! The lifecycle of one supervised process.
//!
//! A supervisor decides; it never acts. Every event that concerns the
//! process (a request from the settings, the outcome of a start attempt, an
//! unexpected exit, a timer) is handed to [`Supervisor::handle`], which
//! moves to the next state and answers with the commands that the caller
//! has to carry out, in order. The transition is the spec function
//! [`step`]; the laws at the end of this file are proved of it.

use vstd::prelude::*;

verus! {

/// Seconds between an unexpected exit and the restart attempt. The delay
/// is fixed: it neither grows nor is the number of attempts bounded.
pub const RESTART_DELAY_SECS: u64 = 3;

/// Seconds between two looks at a running child.
pub const MONITOR_INTERVAL_SECS: u64 = 1;

/// Seconds between two reconciliations of a composite service.
pub const RECONCILE_INTERVAL_SECS: u64 = 5;

/// How a start attempt ended. An attempt that does not end with a
/// running process has told the operator why before it reports.
#[derive(Clone, Copy, Debug, PartialEq, Eq, Structural)]
pub enum StartOutcome {
    /// The process runs.
    Spawned,
    /// The service does not apply to the current network or lacks a
    /// setting it needs. Not an error, and not retried.
    Unsupported,
    /// A dependency was not reachable. The start is deferred.
    NotReady,
    /// The port the service would bind is taken. Final until the settings
    /// change.
    PortInUse,
    /// No executable was found.
    BinaryMissing,
    /// The operating system refused to start the process.
    SpawnFailed,
}

/// How a running child was lost.
#[derive(Clone, Copy, Debug, PartialEq, Eq, Structural)]
pub enum ExitKind {
    /// The process ended by itself.
    Exited { success: bool },
    /// The state of the process could not be read.
    MonitorError,
}

/// Why a restart was scheduled.
#[derive(Clone, Copy, Debug, PartialEq, Eq, Structural)]
pub enum RestartReason {
    BinaryMissing,
    SpawnFailed,
    Exited,
    MonitorError,
}

/// What the operator is told.
#[derive(Clone, Copy, Debug, PartialEq, Eq, Structural)]
pub enum Notice {
    /// The process runs.
    Started,
    /// The process was stopped on request.
    Stopped,
    /// The service is switched on but does not apply to the current
    /// context.
    Unsupported,
    /// The process was lost.
    Exited(ExitKind),
}

/// What happened.
#[derive(Clone, Copy, Debug, PartialEq, Eq, Structural)]
pub enum Event {
    /// The service is switched on, with a snapshot of the settings that
    /// does or does not apply to the current context.
    Enable { applicable: bool },
    /// The service is switched off.
    Disable,
    /// A new snapshot of the settings replaces the stored one.
    UpdateSettings { applicable: bool },
    /// The supervisor is shut down.
    Exit,
    /// A start attempt that was asked for has ended.
    Started(StartOutcome),
    /// The running child was lost.
    ChildExited(ExitKind),
    /// The restart delay has elapsed.
    RestartDue,
    /// The periodic reconciliation of a composite service.
    Tick,
}

/// What the caller has to do.
#[derive(Clone, Copy, Debug, PartialEq, Eq, Structural)]
pub enum Command {
    /// Terminate the child and reap it.
    Stop,
    /// Run the start routine on the stored snapshot and report its
    /// outcome as [`Event::Started`].
    Start,
    /// Wait [`RESTART_DELAY_SECS`] and report [`Event::RestartDue`].
    ArmRestart(RestartReason),
    /// Tell the operator.
    Note(Notice),
    /// Signal that the supervisor has ended.
    Done,
}

/// The state of a supervisor.
pub ghost struct Model {
    /// The service is switched on.
    pub enabled: bool,
    /// The stored snapshot applies to the current context.
    pub applicable: bool,
    /// A start attempt is in flight.
    pub starting: bool,
    /// A restart timer is armed.
    pub restart_pending: bool,
    /// A child is held.
    pub live: bool,
    /// The supervisor has ended.
    pub done: bool,
}

/// The states a supervisor can be in: no child is held while the service
/// is switched off, none while a start attempt is in flight, and none
/// after the end.
pub open spec fn valid(m: Model) -> bool {
    &&& m.live ==> m.enabled
    &&& m.live ==> !m.starting
    &&& m.done ==> !m.live && !m.enabled
}

/// A restart is scheduled where the service is switched on, applies, and
/// no restart is pending yet.
pub open spec fn may_schedule(m: Model) -> bool {
    m.enabled && m.applicable && !m.restart_pending
}

/// A start is asked for where the service is switched on, applies, holds
/// no child and no start attempt is in flight.
pub open spec fn may_start(m: Model) -> bool {
    m.enabled && m.applicable && !m.live && !m.starting
}

pub open spec fn reason_of_exit(kind: ExitKind) -> RestartReason {
    match kind {
        ExitKind::Exited { .. } => RestartReason::Exited,
        ExitKind::MonitorError => RestartReason::MonitorError,
    }
}

/// Stop-then-start on a snapshot: what `Enable` and, on a service that is
/// switched on, `UpdateSettings` do.
pub open spec fn restart_on(m: Model, applicable: bool) -> (Model, Seq<Command>) {
    let stop = if m.live {
        seq![Command::Stop]
    } else {
        Seq::empty()
    };
    let base = Model { enabled: true, applicable, live: false, ..m };
    if !applicable {
        (base, stop.push(Command::Note(Notice::Unsupported)))
    } else if m.starting {
        (base, stop)
    } else {
        (Model { starting: true, ..base }, stop.push(Command::Start))
    }
}

/// Schedules a restart where that is allowed, and does nothing otherwise.
pub open spec fn schedule(m: Model, reason: RestartReason) -> (Model, Seq<Command>) {
    if may_schedule(m) {
        (Model { restart_pending: true, ..m }, seq![Command::ArmRestart(reason)])
    } else {
        (m, Seq::empty())
    }
}

/// The transition of a supervisor that has ended. Nothing moves it any
/// more, but the outcome of a start attempt that was in flight when it
/// ended is still taken note of: the attempt is over, and a child that it
/// brought is stopped, so that no process is left behind.
pub open spec fn ended_step(m: Model, e: Event) -> (Model, Seq<Command>) {
    match e {
        Event::Started(outcome) => if m.starting {
            let idle = Model { starting: false, ..m };
            if outcome == StartOutcome::Spawned {
                (idle, seq![Command::Stop])
            } else {
                (idle, Seq::empty())
            }
        } else {
            (m, Seq::empty())
        },
        _ => (m, Seq::empty()),
    }
}

/// The transition: the state after `e` and the commands to carry out.
pub open spec fn step(m: Model, e: Event) -> (Model, Seq<Command>) {
    if m.done {
        ended_step(m, e)
    } else {
        match e {
            Event::Enable { applicable } => restart_on(m, applicable),
            Event::Disable => {
                let next = Model { enabled: false, live: false, ..m };
                if m.live {
                    (next, seq![Command::Stop, Command::Note(Notice::Stopped)])
                } else {
                    (next, Seq::empty())
                }
            },
            Event::UpdateSettings { applicable } => {
                if m.enabled {
                    restart_on(m, applicable)
                } else {
                    (Model { applicable, ..m }, Seq::empty())
                }
            },
            Event::Exit => {
                let next = Model { enabled: false, live: false, done: true, ..m };
                if m.live {
                    (next, seq![Command::Stop, Command::Done])
                } else {
                    (next, seq![Command::Done])
                }
            },
            Event::Started(outcome) => {
                if !m.starting {
                    (m, Seq::empty())
                } else {
                    let idle = Model { starting: false, ..m };
                    match outcome {
                        StartOutcome::Spawned => {
                            if m.enabled {
                                (
                                    Model { live: true, ..idle },
                                    seq![Command::Note(Notice::Started)],
                                )
                            } else {
                                (idle, seq![Command::Stop])
                            }
                        },
                        StartOutcome::Unsupported => (idle, Seq::empty()),
                        StartOutcome::NotReady => (idle, Seq::empty()),
                        StartOutcome::PortInUse => (idle, Seq::empty()),
                        StartOutcome::BinaryMissing => schedule(idle, RestartReason::BinaryMissing),
                        StartOutcome::SpawnFailed => schedule(idle, RestartReason::SpawnFailed),
                    }
                }
            },
            Event::ChildExited(kind) => {
                if !m.live {
                    (m, Seq::empty())
                } else {
                    let lost = Model { live: false, ..m };
                    let (next, cmds) = schedule(lost, reason_of_exit(kind));
                    (next, seq![Command::Note(Notice::Exited(kind))] + cmds)
                }
            },
            Event::RestartDue => {
                if !m.restart_pending {
                    (m, Seq::empty())
                } else {
                    let fired = Model { restart_pending: false, ..m };
                    if may_start(fired) {
                        (Model { starting: true, ..fired }, seq![Command::Start])
                    } else {
                        (fired, Seq::empty())
                    }
                }
            },
            Event::Tick => {
                if may_start(m) && !m.restart_pending {
                    (Model { starting: true, ..m }, seq![Command::Start])
                } else {
                    (m, Seq::empty())
                }
            },
        }
    }
}

/// The state after a sequence of events.
pub open spec fn run(m: Model, events: Seq<Event>) -> Model
    decreases events.len(),
{
    if events.len() == 0 {
        m
    } else {
        step(run(m, events.drop_last()), events.last()).0
    }
}

/// The commands of a sequence of events, in order.
pub open spec fn run_commands(m: Model, events: Seq<Event>) -> Seq<Command>
    decreases events.len(),
{
    if events.len() == 0 {
        Seq::empty()
    } else {
        run_commands(m, events.drop_last()) + step(run(m, events.drop_last()), events.last()).1
    }
}

/// Number of start commands among `cmds`.
pub open spec fn starts(cmds: Seq<Command>) -> nat
    decreases cmds.len(),
{
    if cmds.len() == 0 {
        0
    } else {
        starts(cmds.drop_last()) + if cmds.last() == Command::Start {
            1nat
        } else {
            0nat
        }
    }
}

/// Number of scheduled restarts among `cmds`.
pub open spec fn restarts(cmds: Seq<Command>) -> nat
    decreases cmds.len(),
{
    if cmds.len() == 0 {
        0
    } else {
        restarts(cmds.drop_last()) + if cmds.last() is ArmRestart {
            1nat
        } else {
            0nat
        }
    }
}

/// The supervisor of one process.
#[derive(Clone, Copy, Debug, PartialEq, Eq)]
pub struct Supervisor {
    enabled: bool,
    applicable: bool,
    starting: bool,
    restart_pending: bool,
    live: bool,
    done: bool,
}

impl View for Supervisor {
    type V = Model;

    closed spec fn view(&self) -> Model {
        Model {
            enabled: self.enabled,
            applicable: self.applicable,
            starting: self.starting,
            restart_pending: self.restart_pending,
            live: self.live,
            done: self.done,
        }
    }
}

impl Supervisor {
    #[verifier::type_invariant]
    spec fn inv(&self) -> bool {
        valid(self@)
    }

    /// A supervisor that holds no child. Where the service is switched on,
    /// the first thing to hand it is [`Event::Tick`] or [`Event::Enable`].
    pub fn new(enabled: bool, applicable: bool) -> (s: Self)
        ensures
            s@ == (Model {
                enabled,
                applicable,
                starting: false,
                restart_pending: false,
                live: false,
                done: false,
            }),
            valid(s@),
    {
        Supervisor {
            enabled,
            applicable,
            starting: false,
            restart_pending: false,
            live: false,
            done: false,
        }
    }

    pub fn is_enabled(&self) -> (b: bool)
        ensures
            b == self@.enabled,
    {
        self.enabled
    }

    pub fn is_applicable(&self) -> (b: bool)
        ensures
            b == self@.applicable,
    {
        self.applicable
    }

    pub fn is_starting(&self) -> (b: bool)
        ensures
            b == self@.starting,
    {
        self.starting
    }

    pub fn is_restart_pending(&self) -> (b: bool)
        ensures
            b == self@.restart_pending,
    {
        self.restart_pending
    }

    pub fn is_running(&self) -> (b: bool)
        ensures
            b == self@.live,
            b ==> self@.enabled && !self@.starting,
    {
        proof {
            use_type_invariant(self);
        }
        self.live
    }

    pub fn is_done(&self) -> (b: bool)
        ensures
            b == self@.done,
    {
        self.done
    }

    fn restart_on(&mut self, applicable: bool) -> (cmds: Vec<Command>)
        requires
            !old(self)@.done,
        ensures
            (final(self)@, cmds@) == restart_on(old(self)@, applicable),
    {
        proof {
            use_type_invariant(&*self);
        }
        let mut cmds: Vec<Command> = Vec::new();
        if self.live {
            cmds.push(Command::Stop);
        }
        let was_starting = self.starting;
        let starting = was_starting || applicable;
        *self = Supervisor { enabled: true, applicable, live: false, starting, ..*self };
        if !applicable {
            cmds.push(Command::Note(Notice::Unsupported));
        } else if !was_starting {
            cmds.push(Command::Start);
        }
        assert(cmds@ =~= restart_on(old(self)@, applicable).1);
        cmds
    }

    fn schedule(&mut self, reason: RestartReason, cmds: &mut Vec<Command>)
        requires
            !old(self)@.live,
            !old(self)@.done,
        ensures
            final(self)@ == schedule(old(self)@, reason).0,
            final(cmds)@ == old(cmds)@ + schedule(old(self)@, reason).1,
    {
        proof {
            use_type_invariant(&*self);
        }
        if self.enabled && self.applicable && !self.restart_pending {
            *self = Supervisor { restart_pending: true, ..*self };
            cmds.push(Command::ArmRestart(reason));
            assert(cmds@ =~= old(cmds)@ + schedule(old(self)@, reason).1);
        } else {
            assert(cmds@ =~= old(cmds)@ + schedule(old(self)@, reason).1);
        }
    }

    /// Takes one event: moves to the next state and answers with the
    /// commands to carry out, in order.
    pub fn handle(&mut self, e: Event) -> (cmds: Vec<Command>)
        ensures
            (final(self)@, cmds@) == step(old(self)@, e),
            valid(final(self)@),
    {
        proof {
            use_type_invariant(&*self);
            lemma_step_valid(self@, e);
        }
        let mut cmds: Vec<Command> = Vec::new();
        if self.done {
            if let Event::Started(outcome) = e {
                if self.starting {
                    *self = Supervisor { starting: false, ..*self };
                    if let StartOutcome::Spawned = outcome {
                        cmds.push(Command::Stop);
                    }
                }
            }
            assert(cmds@ =~= step(old(self)@, e).1);
            return cmds;
        }
        match e {
            Event::Enable { applicable } => {
                return self.restart_on(applicable);
            },
            Event::Disable => {
                if self.live {
                    cmds.push(Command::Stop);
                    cmds.push(Command::Note(Notice::Stopped));
                }
                *self = Supervisor { enabled: false, live: false, ..*self };
            },
            Event::UpdateSettings { applicable } => {
                if self.enabled {
                    return self.restart_on(applicable);
                }
                *self = Supervisor { applicable, ..*self };
            },
            Event::Exit => {
                if self.live {
                    cmds.push(Command::Stop);
                }
                cmds.push(Command::Done);
                *self = Supervisor { enabled: false, live: false, done: true, ..*self };
            },
            Event::Started(outcome) => {
                if self.starting {
                    *self = Supervisor { starting: false, ..*self };
                    match outcome {
                        StartOutcome::Spawned => {
                            if self.enabled {
                                *self = Supervisor { live: true, ..*self };
                                cmds.push(Command::Note(Notice::Started));
                            } else {
                                cmds.push(Command::Stop);
                            }
                        },
                        StartOutcome::Unsupported => {},
                        StartOutcome::NotReady => {},
                        StartOutcome::PortInUse => {},
                        StartOutcome::BinaryMissing => {
                            self.schedule(RestartReason::BinaryMissing, &mut cmds);
                        },
                        StartOutcome::SpawnFailed => {
                            self.schedule(RestartReason::SpawnFailed, &mut cmds);
                        },
                    }
                }
            },
            Event::ChildExited(kind) => {
                if self.live {
                    *self = Supervisor { live: false, ..*self };
                    cmds.push(Command::Note(Notice::Exited(kind)));
                    let reason = match kind {
                        ExitKind::Exited { .. } => RestartReason::Exited,
                        ExitKind::MonitorError => RestartReason::MonitorError,
                    };
                    self.schedule(reason, &mut cmds);
                }
            },
            Event::RestartDue => {
                if self.restart_pending {
                    *self = Supervisor { restart_pending: false, ..*self };
                    if self.enabled && self.applicable && !self.live && !self.starting {
                        *self = Supervisor { starting: true, ..*self };
                        cmds.push(Command::Start);
                    }
                }
            },
            Event::Tick => {
                if self.enabled && self.applicable && !self.live && !self.starting
                    && !self.restart_pending {
                    *self = Supervisor { starting: true, ..*self };
                    cmds.push(Command::Start);
                }
            },
        }
        assert(cmds@ =~= step(old(self)@, e).1);
        cmds
    }
}

// ---------------------------------------------------------------------------
// Laws
// ---------------------------------------------------------------------------

/// Every transition leads from a valid state to a valid state.
pub proof fn lemma_step_valid(m: Model, e: Event)
    requires
        valid(m),
    ensures
        valid(step(m, e).0),
{
}

/// Every sequence of events leads from a valid state to a valid state.
pub proof fn lemma_run_valid(m: Model, events: Seq<Event>)
    requires
        valid(m),
    ensures
        valid(run(m, events)),
    decreases events.len(),
{
    if events.len() > 0 {
        lemma_run_valid(m, events.drop_last());
        lemma_step_valid(run(m, events.drop_last()), events.last());
    }
}

/// No transition asks for more than one start, and it asks for one only
/// where no child is held and no other start attempt is in flight; the
/// attempt is then in flight.
pub proof fn lemma_single_start(m: Model, e: Event)
    requires
        valid(m),
    ensures
        starts(step(m, e).1) <= 1,
        starts(step(m, e).1) == 1 ==> !m.starting && !step(m, e).0.live && step(m, e).0.starting,
{
    let cmds = step(m, e).1;
    lemma_starts_small(cmds);
}

proof fn lemma_starts_small(cmds: Seq<Command>)
    requires
        cmds.len() <= 2,
    ensures
        cmds.len() == 0 ==> starts(cmds) == 0,
        cmds.len() == 1 ==> starts(cmds) == if cmds[0] == Command::Start {
            1nat
        } else {
            0nat
        },
        cmds.len() == 2 ==> starts(cmds) == (if cmds[0] == Command::Start {
            1nat
        } else {
            0nat
        }) + (if cmds[1] == Command::Start {
            1nat
        } else {
            0nat
        }),
{
    reveal_with_fuel(starts, 3);
    if cmds.len() == 2 {
        assert(cmds.drop_last().drop_last().len() == 0);
        assert(cmds.drop_last().last() == cmds[0]);
    }
}

proof fn lemma_restarts_small(cmds: Seq<Command>)
    requires
        cmds.len() <= 2,
    ensures
        cmds.len() == 0 ==> restarts(cmds) == 0,
        cmds.len() == 1 ==> restarts(cmds) == if cmds[0] is ArmRestart {
            1nat
        } else {
            0nat
        },
        cmds.len() == 2 ==> restarts(cmds) == (if cmds[0] is ArmRestart {
            1nat
        } else {
            0nat
        }) + (if cmds[1] is ArmRestart {
            1nat
        } else {
            0nat
        }),
{
    reveal_with_fuel(restarts, 3);
    if cmds.len() == 2 {
        assert(cmds.drop_last().drop_last().len() == 0);
        assert(cmds.drop_last().last() == cmds[0]);
    }
}

/// Switching a service on twice in a row starts it once: the second
/// request finds the first attempt in flight, asks for nothing and
/// changes nothing.
pub proof fn lemma_enable_idempotent(m: Model)
    requires
        valid(m),
        !m.done,
    ensures
        ({
            let first = step(m, Event::Enable { applicable: true });
            let second = step(first.0, Event::Enable { applicable: true });
            &&& first.0.starting
            &&& !first.0.live
            &&& second.0 == first.0
            &&& second.1 == Seq::<Command>::empty()
            &&& starts(first.1 + second.1) <= 1
        }),
{
    let first = step(m, Event::Enable { applicable: true });
    let second = step(first.0, Event::Enable { applicable: true });
    assert(first.1 + second.1 =~= first.1);
    lemma_single_start(m, Event::Enable { applicable: true });
}

/// Switching on a service whose child runs replaces the child: the old
/// one is stopped before the new start is asked for, so that never more
/// than one child is held.
pub proof fn lemma_enable_replaces(m: Model)
    requires
        valid(m),
        m.live,
    ensures
        step(m, Event::Enable { applicable: true }).1 == seq![Command::Stop, Command::Start],
        !step(m, Event::Enable { applicable: true }).0.live,
{
    assert(step(m, Event::Enable { applicable: true }).1 =~= seq![Command::Stop, Command::Start]);
}

/// While a restart is pending no second one is scheduled, whatever
/// happens.
pub proof fn lemma_restart_once(m: Model, e: Event)
    requires
        valid(m),
        m.restart_pending,
    ensures
        restarts(step(m, e).1) == 0,
        e != Event::RestartDue && !m.done ==> step(m, e).0.restart_pending,
{
    lemma_restarts_small(step(m, e).1);
}

/// No transition schedules more than one restart, and one is scheduled
/// only where none was pending.
pub proof fn lemma_single_restart(m: Model, e: Event)
    requires
        valid(m),
    ensures
        restarts(step(m, e).1) <= 1,
        restarts(step(m, e).1) == 1 ==> !m.restart_pending && step(m, e).0.restart_pending,
{
    lemma_restarts_small(step(m, e).1);
}

/// A service that is switched off is not started by anything but a
/// request to switch it on.
pub proof fn lemma_disabled_stays_down(m: Model, e: Event)
    requires
        valid(m),
        !m.enabled,
        !(e is Enable),
    ensures
        starts(step(m, e).1) == 0,
        !step(m, e).0.enabled,
        !step(m, e).0.live,
{
    lemma_starts_small(step(m, e).1);
}

/// After a service was switched off, no sequence of events without a
/// request to switch it on starts a process: a restart that was
/// scheduled before is cancelled when its delay elapses.
pub proof fn lemma_disable_cancels_restart(m: Model, events: Seq<Event>)
    requires
        valid(m),
        forall|k: int| 0 <= k < events.len() ==> !(#[trigger] events[k] is Enable),
    ensures
        ({
            let off = step(m, Event::Disable).0;
            &&& starts(run_commands(off, events)) == 0
            &&& !run(off, events).enabled
            &&& !run(off, events).live
        }),
    decreases events.len(),
{
    let off = step(m, Event::Disable).0;
    lemma_step_valid(m, Event::Disable);
    if events.len() > 0 {
        let head = events.drop_last();
        lemma_disable_cancels_restart(m, head);
        lemma_run_valid(off, head);
        lemma_disabled_stays_down(run(off, head), events.last());
        lemma_starts_concat(run_commands(off, head), step(run(off, head), events.last()).1);
    }
}

/// A child that a start attempt brings after the service was switched
/// off or the supervisor has ended is stopped at once: the attempt is
/// over, no child is held, and the only command is to stop.
pub proof fn lemma_late_child_is_stopped(m: Model)
    requires
        valid(m),
        m.starting,
        !m.enabled,
    ensures
        step(m, Event::Started(StartOutcome::Spawned)).1 == seq![Command::Stop],
        !step(m, Event::Started(StartOutcome::Spawned)).0.live,
        !step(m, Event::Started(StartOutcome::Spawned)).0.starting,
{
    assert(step(m, Event::Started(StartOutcome::Spawned)).1 =~= seq![Command::Stop]);
}

/// Ending a supervisor while a start attempt is in flight leaves no
/// process behind: the child that the attempt brings is stopped, and a
/// second report of the same attempt is answered with nothing.
pub proof fn lemma_exit_during_start(m: Model)
    requires
        valid(m),
        m.starting,
    ensures
        ({
            let ended = step(m, Event::Exit).0;
            let late = step(ended, Event::Started(StartOutcome::Spawned));
            let again = step(late.0, Event::Started(StartOutcome::Spawned));
            &&& ended.done
            &&& late.1 == seq![Command::Stop]
            &&& !late.0.live && !late.0.starting && late.0.done
            &&& again.1 == Seq::<Command>::empty()
            &&& again.0 == late.0
        }),
{
    let ended = step(m, Event::Exit).0;
    let late = step(ended, Event::Started(StartOutcome::Spawned));
    let again = step(late.0, Event::Started(StartOutcome::Spawned));
    assert(late.1 =~= seq![Command::Stop]);
    assert(again.1 =~= Seq::<Command>::empty());
}

/// Start commands add up over concatenation.
pub proof fn lemma_starts_concat(a: Seq<Command>, b: Seq<Command>)
    ensures
        starts(a + b) == starts(a) + starts(b),
    decreases b.len(),
{
    if b.len() == 0 {
        assert(a + b =~= a);
    } else {
        lemma_starts_concat(a, b.drop_last());
        assert((a + b).drop_last() =~= a + b.drop_last());
    }
}

/// Scheduling a restart and then switching the service off before the
/// delay has elapsed leaves nothing to start when it does elapse.
pub proof fn lemma_disable_then_restart_due(m: Model)
    requires
        valid(m),
        m.restart_pending,
    ensures
        ({
            let off = step(m, Event::Disable).0;
            let due = step(off, Event::RestartDue);
            &&& due.1 == Seq::<Command>::empty()
            &&& starts(due.1) == 0
            &&& !due.0.live
            &&& !due.0.enabled
            &&& !m.done ==> !due.0.restart_pending
        }),
{
    let off = step(m, Event::Disable).0;
    let due = step(off, Event::RestartDue);
    assert(due.1 =~= Seq::<Command>::empty());
}

} // verus!

//! Waiting for a dependency before a service is started.
//!
//! A probe (a TCP connect, a database ping) is made by the caller; what
//! follows from its result is decided here: whether to go on, how long to
//! sleep before the next attempt, whether to tell the operator, and when
//! to give up.

use vstd::prelude::*;

verus! {

/// Milliseconds granted to a TCP connect that tests whether a port
/// accepts connections.
pub const TCP_PROBE_TIMEOUT_MS: u64 = 300;

/// Milliseconds granted to a TCP connect that tests whether a service
/// answers.
pub const TCP_HEALTH_TIMEOUT_MS: u64 = 500;

/// How a dependency is waited for.
#[derive(Clone, Copy, Debug, PartialEq, Eq, Structural)]
pub struct WaitPolicy {
    /// Number of attempts after which the wait is given up; `None` waits
    /// for as long as the service is switched on.
    pub max_attempts: Option<u32>,
    /// Number of first attempts that are followed by the short sleep.
    pub early_attempts: u32,
    /// Seconds slept after each of the first attempts.
    pub early_sleep_secs: u64,
    /// Seconds slept after each later attempt.
    pub late_sleep_secs: u64,
    /// A reminder is logged at every attempt whose number is a multiple of
    /// this; zero logs none.
    pub remind_every: u32,
}

/// What the operator is told while a dependency is waited for.
#[derive(Clone, Copy, Debug, PartialEq, Eq, Structural)]
pub enum Announcement {
    /// The first line: the wait has begun.
    Waiting,
    /// A later line: the wait goes on.
    StillWaiting,
}

/// What follows from one probe.
#[derive(Clone, Copy, Debug, PartialEq, Eq, Structural)]
pub enum WaitStep {
    /// The dependency answered: go on with the start.
    Ready,
    /// The service was switched off meanwhile: abandon the start.
    Cancelled,
    /// The dependency did not answer in the attempts allowed.
    GiveUp,
    /// Sleep, then probe again.
    Retry { sleep_secs: u64, announce: Option<Announcement> },
}

impl WaitPolicy {
    /// The wait for the database before the indexers are started: twenty
    /// attempts, two seconds apart for the first five and three after.
    pub open spec fn database_spec() -> WaitPolicy {
        WaitPolicy {
            max_attempts: Some(20),
            early_attempts: 5,
            early_sleep_secs: 2,
            late_sleep_secs: 3,
            remind_every: 10,
        }
    }

    pub fn database() -> (p: WaitPolicy)
        ensures
            p == Self::database_spec(),
    {
        WaitPolicy {
            max_attempts: Some(20),
            early_attempts: 5,
            early_sleep_secs: 2,
            late_sleep_secs: 3,
            remind_every: 10,
        }
    }

    /// The wait for a database server to accept connections: `retries`
    /// attempts, one second apart.
    pub open spec fn server_spec(retries: u32) -> WaitPolicy {
        WaitPolicy {
            max_attempts: Some(retries),
            early_attempts: 0,
            early_sleep_secs: 1,
            late_sleep_secs: 1,
            remind_every: 10,
        }
    }

    pub fn server(retries: u32) -> (p: WaitPolicy)
        ensures
            p == Self::server_spec(retries),
    {
        WaitPolicy {
            max_attempts: Some(retries),
            early_attempts: 0,
            early_sleep_secs: 1,
            late_sleep_secs: 1,
            remind_every: 10,
        }
    }

    /// The wait for the node's RPC endpoint: one second apart, for as long
    /// as the service is switched on.
    pub open spec fn endpoint_spec() -> WaitPolicy {
        WaitPolicy {
            max_attempts: None,
            early_attempts: 0,
            early_sleep_secs: 1,
            late_sleep_secs: 1,
            remind_every: 10,
        }
    }

    pub fn endpoint() -> (p: WaitPolicy)
        ensures
            p == Self::endpoint_spec(),
    {
        WaitPolicy {
            max_attempts: None,
            early_attempts: 0,
            early_sleep_secs: 1,
            late_sleep_secs: 1,
            remind_every: 10,
        }
    }
}

/// Seconds slept after the failed attempt number `attempt` (from zero).
pub open spec fn sleep_after(p: WaitPolicy, attempt: nat) -> u64 {
    if attempt < p.early_attempts {
        p.early_sleep_secs
    } else {
        p.late_sleep_secs
    }
}

/// What the operator is told at the failed attempt number `attempt`: the
/// first failure is announced at once, then every `remind_every`-th.
pub open spec fn announced(p: WaitPolicy, attempt: nat) -> Option<Announcement> {
    if attempt == 0 {
        Some(Announcement::Waiting)
    } else if p.remind_every > 0 && attempt % (p.remind_every as nat) == 0 {
        Some(Announcement::StillWaiting)
    } else {
        None
    }
}

/// Whether the failed attempt number `attempt` was the last one allowed.
pub open spec fn exhausted(p: WaitPolicy, attempt: nat) -> bool {
    match p.max_attempts {
        Some(max) => attempt + 1 >= max,
        None => false,
    }
}

/// What follows from the probe number `attempt` (from zero).
pub open spec fn wait_step(p: WaitPolicy, attempt: nat, enabled: bool, reachable: bool) -> WaitStep {
    if !enabled {
        WaitStep::Cancelled
    } else if reachable {
        WaitStep::Ready
    } else if exhausted(p, attempt) {
        WaitStep::GiveUp
    } else {
        WaitStep::Retry { sleep_secs: sleep_after(p, attempt), announce: announced(p, attempt) }
    }
}

/// Whether a wait under `p` makes a probe number `attempt` at all.
pub open spec fn allows(p: WaitPolicy, attempt: nat) -> bool {
    match p.max_attempts {
        Some(max) => attempt < max,
        None => true,
    }
}

/// Decides what follows from the probe number `attempt` (from zero), made
/// while the service was switched on or not, with the given result.
pub fn next_wait_step(p: &WaitPolicy, attempt: u32, enabled: bool, reachable: bool) -> (r: WaitStep)
    ensures
        r == wait_step(*p, attempt as nat, enabled, reachable),
{
    if !enabled {
        return WaitStep::Cancelled;
    }
    if reachable {
        return WaitStep::Ready;
    }
    let last = match p.max_attempts {
        Some(max) => attempt >= max || attempt + 1 >= max,
        None => false,
    };
    if last {
        return WaitStep::GiveUp;
    }
    let sleep_secs = if attempt < p.early_attempts {
        p.early_sleep_secs
    } else {
        p.late_sleep_secs
    };
    let announce = if attempt == 0 {
        Some(Announcement::Waiting)
    } else if p.remind_every > 0 && attempt % p.remind_every == 0 {
        Some(Announcement::StillWaiting)
    } else {
        None
    };
    WaitStep::Retry { sleep_secs, announce }
}

/// Whether a wait with no attempt allowed fails at once.
pub fn wait_is_empty(p: &WaitPolicy) -> (b: bool)
    ensures
        b == !allows(*p, 0),
{
    match p.max_attempts {
        Some(max) => max == 0,
        None => false,
    }
}

/// Number of lines logged by the failed attempts `0 .. attempts`.
pub open spec fn lines_logged(p: WaitPolicy, attempts: nat) -> nat
    decreases attempts,
{
    if attempts == 0 {
        0
    } else {
        lines_logged(p, (attempts - 1) as nat) + if announced(p, (attempts - 1) as nat) is Some {
            1nat
        } else {
            0nat
        }
    }
}

/// A wait logs one line at its first failed attempt and then one in
/// every `remind_every` attempts: never one per attempt.
pub proof fn lemma_logging_is_throttled(p: WaitPolicy, attempts: nat)
    requires
        p.remind_every > 1,
    ensures
        attempts > 0 ==> lines_logged(p, attempts) == 1 + (attempts - 1) / (p.remind_every as int),
        attempts > 2 ==> lines_logged(p, attempts) < attempts,
    decreases attempts,
{
    let n = p.remind_every as int;
    if attempts == 1 {
        assert(lines_logged(p, 0) == 0);
        assert(0int / n == 0) by (nonlinear_arith)
            requires
                n > 1,
        ;
    } else if attempts > 1 {
        lemma_logging_is_throttled(p, (attempts - 1) as nat);
        let a = attempts - 1;
        // lines(attempts) = lines(a) + [a % n == 0]
        assert((a - 1) / n + (if a % n == 0 {
            1int
        } else {
            0int
        }) == a / n) by (nonlinear_arith)
            requires
                n > 1,
                a >= 1,
        ;
        if a >= 2 {
            assert(1 + a / n < a + 1) by (nonlinear_arith)
                requires
                    n > 1,
                    a >= 2,
            ;
        }
    }
}

/// A bounded wait ends: the last allowed attempt is never followed by
/// another one.
pub proof fn lemma_bounded_wait_ends(p: WaitPolicy, attempt: nat, enabled: bool, reachable: bool)
    requires
        p.max_attempts matches Some(max) && attempt + 1 >= max,
    ensures
        !(wait_step(p, attempt, enabled, reachable) is Retry),
{
}

} // verus!

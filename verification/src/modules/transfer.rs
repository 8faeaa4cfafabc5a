//! Sending bytes over a socket that may be busy.
//!
//! A write may take a part of the bytes only, or fail for a reason that
//! passes. What is written next, when a pause is made and when the
//! transfer is given up is decided here; the writing is the caller's.

use vstd::prelude::*;

verus! {

/// Number of times in a row that a busy socket is tried again.
pub const WRITE_RETRIES: u8 = 3;

/// Milliseconds that pass before a busy socket is tried again.
pub const WRITE_PAUSE_MS: u64 = 15;

/// Number of bytes that are read from a file at a time.
pub const COPY_CHUNK: usize = 65536;

/// How a write ended.
#[derive(Clone, Copy, Debug, PartialEq, Eq, Structural)]
pub enum WriteOutcome {
    /// The socket took this many bytes.
    Wrote(usize),
    /// The write was interrupted, would have blocked or timed out.
    Busy,
    /// The write failed for another reason.
    Failed,
}

/// What is done next.
#[derive(Clone, Copy, Debug, PartialEq, Eq, Structural)]
pub enum WriteStep {
    /// Write the bytes from this position on.
    Write { from: usize },
    /// Pause, then write the bytes from this position on.
    Pause { ms: u64, from: usize },
    /// All bytes were written.
    Finished,
    /// The socket took no bytes: the transfer has failed.
    WroteNothing,
    /// The transfer has failed with the error of the last write.
    GiveUp,
}

/// Where a transfer stands.
#[derive(Clone, Copy, Debug, PartialEq, Eq, Structural)]
pub struct WriteState {
    /// Number of bytes written so far.
    pub sent: usize,
    /// Number of times in a row that the socket was busy.
    pub retries: u8,
}

/// The first step of a transfer of `total` bytes.
pub open spec fn first_step(total: nat) -> WriteStep {
    if total == 0 {
        WriteStep::Finished
    } else {
        WriteStep::Write { from: 0 }
    }
}

/// The state and the step that follow a write that ended with `outcome`,
/// in a transfer of `total` bytes.
pub open spec fn write_step(total: nat, s: WriteState, outcome: WriteOutcome) -> (
    WriteState,
    WriteStep,
) {
    match outcome {
        WriteOutcome::Wrote(n) => if n == 0 {
            (s, WriteStep::WroteNothing)
        } else if s.sent + n >= total {
            (WriteState { sent: total as usize, retries: 0 }, WriteStep::Finished)
        } else {
            let sent = (s.sent + n) as usize;
            (WriteState { sent, retries: 0 }, WriteStep::Write { from: sent })
        },
        WriteOutcome::Busy => if s.retries < WRITE_RETRIES {
            (
                WriteState { sent: s.sent, retries: (s.retries + 1) as u8 },
                WriteStep::Pause { ms: WRITE_PAUSE_MS, from: s.sent },
            )
        } else {
            (s, WriteStep::GiveUp)
        },
        WriteOutcome::Failed => (s, WriteStep::GiveUp),
    }
}

/// Whether a step ends the transfer.
pub open spec fn is_last(step: WriteStep) -> bool {
    !(step is Write) && !(step is Pause)
}

/// An upper bound on the writes that a transfer still makes.
pub open spec fn writes_left(total: nat, s: WriteState) -> int {
    (total - s.sent) * (WRITE_RETRIES + 1) + (WRITE_RETRIES - s.retries)
}

impl WriteState {
    /// A transfer of which nothing was written yet.
    pub fn new() -> (s: Self)
        ensures
            s == (WriteState { sent: 0, retries: 0 }),
    {
        WriteState { sent: 0, retries: 0 }
    }

    /// The first step of a transfer of `total` bytes.
    pub fn begin(total: usize) -> (step: WriteStep)
        ensures
            step == first_step(total as nat),
    {
        if total == 0 {
            WriteStep::Finished
        } else {
            WriteStep::Write { from: 0 }
        }
    }

    /// Takes note of how a write ended, and says what is done next.
    pub fn after_write(&mut self, total: usize, outcome: WriteOutcome) -> (step: WriteStep)
        ensures
            (*final(self), step) == write_step(total as nat, *old(self), outcome),
            old(self).sent <= total ==> final(self).sent <= total,
            step matches WriteStep::Write { from } ==> from < total,
    {
        match outcome {
            WriteOutcome::Wrote(n) => {
                if n == 0 {
                    WriteStep::WroteNothing
                } else if self.sent >= total || n >= total - self.sent {
                    self.sent = total;
                    self.retries = 0;
                    WriteStep::Finished
                } else {
                    self.sent = self.sent + n;
                    self.retries = 0;
                    WriteStep::Write { from: self.sent }
                }
            },
            WriteOutcome::Busy => {
                if self.retries < WRITE_RETRIES {
                    self.retries = self.retries + 1;
                    WriteStep::Pause { ms: WRITE_PAUSE_MS, from: self.sent }
                } else {
                    WriteStep::GiveUp
                }
            },
            WriteOutcome::Failed => WriteStep::GiveUp,
        }
    }
}

/// A transfer ends: every write that does not end it brings it closer to
/// its end, and a busy socket is tried no more than [`WRITE_RETRIES`]
/// times in a row.
pub proof fn lemma_transfer_ends(total: nat, s: WriteState, outcome: WriteOutcome)
    requires
        s.sent <= total,
        total <= usize::MAX,
        s.retries <= WRITE_RETRIES,
    ensures
        write_step(total, s, outcome).0.sent <= total,
        write_step(total, s, outcome).0.retries <= WRITE_RETRIES,
        write_step(total, s, outcome).0.sent >= s.sent,
        !is_last(write_step(total, s, outcome).1) ==> 0 <= writes_left(
            total,
            write_step(total, s, outcome).0,
        ) < writes_left(total, s),
        write_step(total, s, outcome).1 is Finished ==> write_step(total, s, outcome).0.sent
            == total,
{
    let next = write_step(total, s, outcome).0;
    match outcome {
        WriteOutcome::Wrote(n) => {
            if n != 0 && s.sent + n < total {
                assert(next.sent == s.sent + n);
                assert((total - next.sent) * 4 + 3 < (total - s.sent) * 4) by (nonlinear_arith)
                    requires
                        next.sent > s.sent,
                        next.sent <= total,
                ;
            }
        },
        _ => {},
    }
}

/// Whether more of a file is to be sent after `written` bytes of the
/// `expected` ones.
pub fn copy_wants_more(written: u64, expected: u64) -> (b: bool)
    ensures
        b == (written < expected),
{
    written < expected
}

/// Number of bytes sent of a file after `read` more were read and sent:
/// `None` where the file has come to its end.
pub fn copied_after(written: u64, read: usize) -> (r: Option<u64>)
    ensures
        r == if read == 0 {
            None
        } else if written + read > u64::MAX {
            Some(u64::MAX)
        } else {
            Some((written + read) as u64)
        },
{
    if read == 0 {
        None
    } else if read as u64 > u64::MAX - written {
        Some(u64::MAX)
    } else {
        Some(written + read as u64)
    }
}

} // verus!

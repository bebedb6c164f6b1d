//! The decisions of the loop that drains an external process's output.
//!
//! Two reader threads forward the lines of stdout and stderr over channels;
//! the calling thread makes passes until the process has exited and a pass has
//! found both streams quiet. Each pass reads stdout once, reads stderr once, and
//! polls the process unless its exit is already known. The threads, channels,
//! waiting and printing belong to the caller; this module decides what each
//! result means.
use vstd::prelude::*;

use crate::exec_errors::{RuntimeError, TerminalError};

verus! {

/// What one timed read of a stream's channel gave.
#[derive(Debug, PartialEq, Eq)]
pub enum Packet {
    /// A decoded line.
    Line(String),
    /// The reader could not decode the stream; what it reported.
    Failed(String),
    /// Nothing within the timeout, or the reader has finished.
    Empty,
}

/// What a non-blocking poll of the process gave.
#[derive(Debug, Clone, Copy, PartialEq, Eq, Structural)]
pub enum Poll {
    Exited,
    Running,
    Failed,
}

/// What the caller does after a poll.
#[derive(Debug, Clone, Copy, PartialEq, Eq, Structural)]
pub enum PollAction {
    /// Go on at once: the exit was just seen, and one more pass reads what is left.
    Continue,
    /// The process runs: sleep briefly before the next pass.
    Sleep,
    /// The process could not be polled: leave the loop.
    Stop,
}

/// Which of the loop's three conditions are met.
#[derive(Debug, Clone, Copy, PartialEq, Eq, Structural)]
pub struct DrainState {
    pub stdout_done: bool,
    pub stderr_done: bool,
    pub process_done: bool,
}

/// The state before the first pass.
pub open spec fn initial() -> DrainState {
    DrainState { stdout_done: false, stderr_done: false, process_done: false }
}

impl DrainState {
    /// The loop ends: both streams were found quiet since the exit was seen.
    pub open spec fn finished(self) -> bool {
        self.stdout_done && self.stderr_done && self.process_done
    }
}

/// The state after a read of stdout.
pub open spec fn after_stdout(s: DrainState, p: Packet) -> DrainState {
    DrainState { stdout_done: s.stdout_done || p is Empty, ..s }
}

/// The state after a read of stderr.
pub open spec fn after_stderr(s: DrainState, p: Packet) -> DrainState {
    DrainState { stderr_done: s.stderr_done || p is Empty, ..s }
}

/// The state after a poll that found the process exited or running. On exit
/// both streams are marked not done, to force one more pass over them.
pub open spec fn after_poll(s: DrainState, exited: bool) -> DrainState {
    if !s.process_done && exited {
        DrainState { stdout_done: false, stderr_done: false, process_done: true }
    } else {
        s
    }
}

/// One pass without failures: stdout, then stderr, then the poll.
pub open spec fn pass(s: DrainState, out: Packet, err: Packet, exited: bool) -> DrainState {
    after_poll(after_stderr(after_stdout(s, out), err), exited)
}

/// The lines a packet puts on the output sink.
pub open spec fn written(p: Packet) -> Seq<Seq<char>> {
    match p {
        Packet::Line(l) => seq![l@],
        _ => seq![],
    }
}

/// The packet that a stream gives at pass `i`: its items in turn, then nothing.
pub open spec fn packet_at(s: Seq<Packet>, i: int) -> Packet {
    if 0 <= i < s.len() {
        s[i]
    } else {
        Packet::Empty
    }
}

/// The loop from pass `i` on, for at most `fuel` passes, where the streams give
/// `outs` and `errs` and the process is seen exited from pass `t` on: the state
/// it stops in and the lines it writes, in order.
pub open spec fn drain(
    s: DrainState,
    outs: Seq<Packet>,
    errs: Seq<Packet>,
    t: int,
    i: int,
    fuel: nat,
) -> (DrainState, Seq<Seq<char>>)
    decreases fuel,
{
    if s.finished() || fuel == 0 {
        (s, seq![])
    } else {
        let out = packet_at(outs, i);
        let err = packet_at(errs, i);
        let (end, w) = drain(pass(s, out, err, i >= t), outs, errs, t, i + 1, (fuel - 1) as nat);
        (end, written(out) + written(err) + w)
    }
}

/// The count of passes from pass `i` until both streams have given all they hold.
pub open spec fn remaining(outs: Seq<Packet>, errs: Seq<Packet>, i: int) -> int {
    let a = outs.len() - i;
    let b = errs.len() - i;
    if a >= b && a >= 0 {
        a
    } else if b >= 0 {
        b
    } else {
        0
    }
}

/// The lines that the packets from index `i` on carry, in order.
pub open spec fn lines_from(s: Seq<Packet>, i: int) -> Seq<Seq<char>>
    decreases s.len() - i,
{
    if i < 0 || i >= s.len() {
        seq![]
    } else {
        written(s[i]) + lines_from(s, i + 1)
    }
}

proof fn lemma_finishes(
    s: DrainState,
    outs: Seq<Packet>,
    errs: Seq<Packet>,
    t: int,
    i: int,
    fuel: nat,
)
    requires
        0 <= i,
        s.process_done ==> fuel >= remaining(outs, errs, i) + 1,
        !s.process_done ==> fuel >= (if t > i {
            t - i
        } else {
            0
        }) + 2 + remaining(outs, errs, if t > i {
            t + 1
        } else {
            i + 1
        }),
    ensures
        drain(s, outs, errs, t, i, fuel).0.finished(),
    decreases fuel,
{
    if !s.finished() && fuel > 0 {
        let out = packet_at(outs, i);
        let err = packet_at(errs, i);
        let next = pass(s, out, err, i >= t);
        if !next.finished() {
            lemma_finishes(next, outs, errs, t, i + 1, (fuel - 1) as nat);
        } else {
            assert(drain(next, outs, errs, t, i + 1, (fuel - 1) as nat).0 == next);
        }
        assert(drain(s, outs, errs, t, i, fuel).0 == drain(next, outs, errs, t, i + 1, (fuel - 1) as nat).0);
    }
}

/// The loop ends once the process has exited and both streams are exhausted,
/// however their output is spread between them: from any state, with the exit
/// seen from pass `t` on, it needs no more passes than `t`, plus two, plus the
/// length of the longer stream.
pub proof fn lemma_drain_terminates(
    s: DrainState,
    outs: Seq<Packet>,
    errs: Seq<Packet>,
    t: nat,
    fuel: nat,
)
    requires
        fuel >= t + 2 + outs.len() + errs.len(),
    ensures
        drain(s, outs, errs, t as int, 0, fuel).0.finished(),
{
    lemma_finishes(s, outs, errs, t as int, 0, fuel);
}

proof fn lemma_writes_all(s: DrainState, outs: Seq<Packet>, t: int, i: int, fuel: nat)
    requires
        0 <= t,
        0 <= i,
        forall|j: int| t <= j < outs.len() ==> outs[j] is Line,
        s.process_done ==> i > t,
        s.process_done && s.stdout_done ==> i >= outs.len(),
        s.process_done ==> fuel >= remaining(outs, seq![], i) + 1,
        !s.process_done ==> fuel >= (if t > i {
            t - i
        } else {
            0
        }) + 2 + remaining(outs, seq![], if t > i {
            t + 1
        } else {
            i + 1
        }),
    ensures
        drain(s, outs, seq![], t, i, fuel).1 == lines_from(outs, i),
    decreases fuel,
{
    let errs = Seq::<Packet>::empty();
    if s.finished() {
        assert(lines_from(outs, i) == Seq::<Seq<char>>::empty());
    } else {
        let out = packet_at(outs, i);
        let err = packet_at(errs, i);
        let next = pass(s, out, err, i >= t);
        if !next.finished() {
            lemma_writes_all(next, outs, t, i + 1, (fuel - 1) as nat);
        } else {
            assert(i >= outs.len());
            assert(lines_from(outs, i + 1) == Seq::<Seq<char>>::empty());
            assert(drain(next, outs, errs, t, i + 1, (fuel - 1) as nat).1 == Seq::<Seq<char>>::empty());
        }
        assert(drain(s, outs, errs, t, i, fuel).1 == written(out) + written(err) + drain(next, outs, errs, t, i + 1, (fuel - 1) as nat).1);
        if i < outs.len() {
            assert(out == outs[i]);
        } else {
            assert(lines_from(outs, i) == Seq::<Seq<char>>::empty());
            assert(lines_from(outs, i + 1) == Seq::<Seq<char>>::empty());
        }
        assert(written(err) == Seq::<Seq<char>>::empty());
        assert(drain(s, outs, errs, t, i, fuel).1 =~= lines_from(outs, i));
    }
}

/// A process that writes only to stdout has every line it wrote put on the
/// sink, in the order written, when stdout gives its lines without a pause
/// once the exit is seen (the pipe is closed then, so the reader only drains).
pub proof fn lemma_stdout_in_order(outs: Seq<Packet>, t: nat, fuel: nat)
    requires
        forall|j: int| t <= j < outs.len() ==> outs[j] is Line,
        fuel >= t + 2 + outs.len(),
    ensures
        drain(initial(), outs, seq![], t as int, 0, fuel).0.finished(),
        drain(initial(), outs, seq![], t as int, 0, fuel).1 == lines_from(outs, 0),
{
    lemma_finishes(initial(), outs, seq![], t as int, 0, fuel);
    lemma_writes_all(initial(), outs, t as int, 0, fuel);
}

impl DrainState {
    /// The state before the first pass.
    pub fn new() -> (s: DrainState)
        ensures
            s == initial(),
    {
        DrainState { stdout_done: false, stderr_done: false, process_done: false }
    }

    /// Whether the loop ends here.
    pub fn is_finished(&self) -> (r: bool)
        ensures
            r == self.finished(),
    {
        self.stdout_done && self.stderr_done && self.process_done
    }

    /// Whether this pass polls the process: only until its exit is seen.
    pub fn needs_poll(&self) -> (r: bool)
        ensures
            r == !self.process_done,
    {
        !self.process_done
    }

    /// Takes what a read of stdout gave: a line to write, nothing, or the
    /// error that ends the run.
    pub fn receive_stdout(&mut self, p: Packet) -> (r: Result<Option<String>, TerminalError>)
        ensures
            *final(self) == after_stdout(*old(self), p),
            match p {
                Packet::Line(l) => r == Ok::<Option<String>, TerminalError>(Some(l)),
                Packet::Failed(d) => r == Err::<Option<String>, TerminalError>(
                    TerminalError::FailedToParseStdout(d),
                ),
                Packet::Empty => r == Ok::<Option<String>, TerminalError>(None),
            },
    {
        match p {
            Packet::Line(l) => Ok(Some(l)),
            Packet::Failed(d) => Err(TerminalError::FailedToParseStdout(d)),
            Packet::Empty => {
                self.stdout_done = true;
                Ok(None)
            },
        }
    }

    /// Takes what a read of stderr gave: a line to write, nothing, or the
    /// error that ends the run.
    pub fn receive_stderr(&mut self, p: Packet) -> (r: Result<Option<String>, TerminalError>)
        ensures
            *final(self) == after_stderr(*old(self), p),
            match p {
                Packet::Line(l) => r == Ok::<Option<String>, TerminalError>(Some(l)),
                Packet::Failed(d) => r == Err::<Option<String>, TerminalError>(
                    TerminalError::FailedToParseStderr(d),
                ),
                Packet::Empty => r == Ok::<Option<String>, TerminalError>(None),
            },
    {
        match p {
            Packet::Line(l) => Ok(Some(l)),
            Packet::Failed(d) => Err(TerminalError::FailedToParseStderr(d)),
            Packet::Empty => {
                self.stderr_done = true;
                Ok(None)
            },
        }
    }

    /// Takes what a poll of the process gave, and says what to do next.
    pub fn record_poll(&mut self, p: Poll) -> (a: PollAction)
        requires
            !old(self).process_done,
        ensures
            *final(self) == after_poll(*old(self), p == Poll::Exited),
            p == Poll::Exited ==> a == PollAction::Continue,
            p == Poll::Running ==> a == PollAction::Sleep,
            p == Poll::Failed ==> a == PollAction::Stop,
    {
        match p {
            Poll::Exited => {
                self.process_done = true;
                self.stdout_done = false;
                self.stderr_done = false;
                PollAction::Continue
            },
            Poll::Running => PollAction::Sleep,
            Poll::Failed => PollAction::Stop,
        }
    }
}

/// The exit code reported when the process was ended by a signal.
pub const SIGNALLED_EXIT_CODE: i32 = 126;

/// The result of a process's exit: success on code 0; otherwise a failure with
/// its code, or with 126 where the system reports none.
pub open spec fn spec_exit_result(code: Option<i32>) -> Result<(), RuntimeError> {
    match code {
        Some(c) => if c == 0 {
            Ok(())
        } else {
            Err(RuntimeError::FailedToExecute(c as isize))
        },
        None => Err(RuntimeError::FailedToExecute(SIGNALLED_EXIT_CODE as isize)),
    }
}

/// Maps the exit code of a finished process to the command's result.
pub fn exit_result(code: Option<i32>) -> (r: Result<(), RuntimeError>)
    ensures
        r == spec_exit_result(code),
{
    match code {
        Some(c) => if c == 0 {
            Ok(())
        } else {
            Err(RuntimeError::FailedToExecute(c as isize))
        },
        None => Err(RuntimeError::FailedToExecute(SIGNALLED_EXIT_CODE as isize)),
    }
}

} // verus!

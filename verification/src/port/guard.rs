//! The transport guard: the decisions of the write→flush→poll-read cycle.
//!
//! The physical serial line, the blocking lock around it and the unbounded
//! retry loop live in the surrounding application; every decision that loop
//! takes is a function defined and verified here. [`poll_step`] decides what
//! the poll loop does with one read outcome; [`run_poll`] and
//! [`send_command`] run the same decisions over the recorded behaviour of
//! the transport during one exchange, so that the whole cycle's outcome is
//! pinned down for every behaviour the transport can show.

use vstd::prelude::*;

use crate::port::Command;
use crate::port::FAIL_CODE;
use crate::port::SUCCESS_CODE;
use crate::port::error::PortError;

verus! {

/// One observed outcome of a read attempt on the serial line.
#[derive(Clone, Copy, Debug, PartialEq, Eq, Structural)]
pub enum ReadEvent {
    /// Two bytes `[status, data]` arrived.
    Response(u8, u8),
    /// The attempt ran into the per-attempt timeout before two bytes arrived.
    TimedOut,
    /// The attempt failed with a non-timeout I/O error.
    Failed,
}

/// The outcome of trying to acquire exclusive access to the line.
#[derive(Clone, Copy, Debug, PartialEq, Eq, Structural)]
pub enum LineAccess {
    /// Exclusive access was granted.
    Granted,
    /// The lock was poisoned by a previous holder that failed mid-operation.
    Poisoned,
}

/// What the poll loop does with one read outcome.
#[derive(Clone, Copy, Debug, PartialEq, Eq, Structural)]
pub enum PollStep {
    /// A terminal response: stop polling and hand these two bytes back.
    Accept(u8, u8),
    /// A timeout or stray bytes: clear the buffer and read again.
    Retry,
    /// A fatal failure: stop polling and propagate this error.
    Fail(PortError),
}

/// What one command exchange comes to once the transport's recorded
/// behaviour is exhausted.
#[derive(Clone, Copy, Debug, PartialEq, Eq, Structural)]
pub enum SendOutcome {
    /// A terminal response `[status, data]` ended the cycle.
    Response(u8, u8),
    /// A fatal error ended the cycle.
    Fault(PortError),
    /// Nothing terminal happened yet; the live loop would still be polling.
    Pending,
}

/// The observable behaviour of the transport during one command exchange:
/// whether exclusive access was granted, whether the frame's write and flush
/// succeeded, and the outcome of each read attempt in order.
#[derive(Debug)]
pub struct LineBehavior {
    pub access: LineAccess,
    pub write_ok: bool,
    pub flush_ok: bool,
    pub reads: Vec<ReadEvent>,
}

/// Whether a status byte marks a terminal response.
pub open spec fn is_terminal_status(status: u8) -> bool {
    status == SUCCESS_CODE || status == FAIL_CODE
}

/// The decision taken on acquiring exclusive access: a poisoned lock fails
/// the call at once with the distinct `MutexPoison` error, for this and
/// every later call, rather than propagating the underlying fault.
pub fn acquire_result(access: LineAccess) -> (r: Result<(), PortError>)
    ensures
        r == (if access is Granted {
            Result::<(), PortError>::Ok(())
        } else {
            Result::<(), PortError>::Err(PortError::MutexPoison)
        }),
{
    match access {
        LineAccess::Granted => Ok(()),
        LineAccess::Poisoned => Err(PortError::MutexPoison),
    }
}

/// The decision taken after writing or flushing the frame: any failure there
/// is fatal to the call and tagged with the command in flight.
pub fn transfer_result(command: Command, ok: bool) -> (r: Result<(), PortError>)
    ensures
        r == (if ok {
            Result::<(), PortError>::Ok(())
        } else {
            Result::<(), PortError>::Err(PortError::Io { command })
        }),
{
    if ok {
        Ok(())
    } else {
        Err(PortError::Io { command })
    }
}

/// What the poll loop does with one read outcome: a terminal response ends
/// the loop, a timeout or stray bytes are retried, and any other failure is
/// fatal and tagged with the command in flight.
pub open spec fn poll_step_spec(command: Command, event: ReadEvent) -> PollStep {
    match event {
        ReadEvent::Response(status, data) => if is_terminal_status(status) {
            PollStep::Accept(status, data)
        } else {
            PollStep::Retry
        },
        ReadEvent::TimedOut => PollStep::Retry,
        ReadEvent::Failed => PollStep::Fail(PortError::Io { command }),
    }
}

/// Executable form of [`poll_step_spec`]; the application's live read loop
/// calls this once per read attempt and acts on the decision.
pub fn poll_step(command: Command, event: ReadEvent) -> (s: PollStep)
    ensures
        s == poll_step_spec(command, event),
{
    match event {
        ReadEvent::Response(status, data) => {
            if status == SUCCESS_CODE || status == FAIL_CODE {
                PollStep::Accept(status, data)
            } else {
                PollStep::Retry
            }
        },
        ReadEvent::TimedOut => PollStep::Retry,
        ReadEvent::Failed => PollStep::Fail(PortError::Io { command }),
    }
}

/// What the poll loop returns once run against a sequence of read outcomes:
/// the first terminal response or fatal failure decides, retries are
/// absorbed, and a sequence of nothing but retries leaves the loop pending.
pub open spec fn poll_spec(command: Command, events: Seq<ReadEvent>) -> SendOutcome
    decreases events.len(),
{
    if events.len() == 0 {
        SendOutcome::Pending
    } else {
        match poll_step_spec(command, events[0]) {
            PollStep::Accept(status, data) => SendOutcome::Response(status, data),
            PollStep::Fail(e) => SendOutcome::Fault(e),
            PollStep::Retry => poll_spec(command, events.drop_first()),
        }
    }
}

/// The poll loop, run over the recorded outcomes of the read attempts.
pub fn run_poll(command: Command, events: &Vec<ReadEvent>) -> (r: SendOutcome)
    ensures
        r == poll_spec(command, events@),
{
    let mut i: usize = 0;
    proof {
        assert(events@.skip(0) =~= events@);
    }
    while i < events.len()
        invariant
            i <= events@.len(),
            poll_spec(command, events@) == poll_spec(command, events@.skip(i as int)),
        decreases events@.len() - i,
    {
        proof {
            assert(events@.skip(i as int)[0] == events@[i as int]);
            assert(events@.skip(i as int).drop_first() =~= events@.skip(i as int + 1));
        }
        match poll_step(command, events[i]) {
            PollStep::Accept(status, data) => {
                return SendOutcome::Response(status, data);
            },
            PollStep::Fail(e) => {
                return SendOutcome::Fault(e);
            },
            PollStep::Retry => {
                i = i + 1;
            },
        }
    }
    proof {
        assert(events@.skip(i as int) =~= Seq::<ReadEvent>::empty());
    }
    SendOutcome::Pending
}

/// What one whole write→flush→poll cycle comes to, for a given recorded
/// behaviour of the transport: a poisoned lock fails with `MutexPoison`
/// before anything is sent, a write or flush failure is a fatal I/O error,
/// and otherwise the poll loop decides.
pub open spec fn send_spec(command: Command, line: LineBehavior) -> SendOutcome {
    if line.access is Poisoned {
        SendOutcome::Fault(PortError::MutexPoison)
    } else if !line.write_ok {
        SendOutcome::Fault(PortError::Io { command })
    } else if !line.flush_ok {
        SendOutcome::Fault(PortError::Io { command })
    } else {
        poll_spec(command, line.reads@)
    }
}

/// Send a 2-byte command frame through the guard, against a recorded
/// behaviour of the transport, and return what the cycle comes to.
pub fn send_command(command: &[u8; 2], line: &LineBehavior) -> (r: SendOutcome)
    requires
        Command::from_opcode_spec(command@[0]) is Some,
    ensures
        r == send_spec(Command::from_opcode_spec(command@[0])->Some_0, *line),
{
    let tag = Command::from_opcode(command[0]).unwrap();
    match acquire_result(line.access) {
        Err(e) => SendOutcome::Fault(e),
        Ok(()) => match transfer_result(tag, line.write_ok) {
            Err(e) => SendOutcome::Fault(e),
            Ok(()) => match transfer_result(tag, line.flush_ok) {
                Err(e) => SendOutcome::Fault(e),
                Ok(()) => run_poll(tag, &line.reads),
            },
        },
    }
}

/// The poll loop only ever hands back a terminal response: whatever the
/// transport does, a response it returns has `SUCCESS_CODE` or `FAIL_CODE`
/// as its status byte, and the only error it ever raises is the tagged I/O
/// failure.
pub proof fn lemma_poll_returns_terminal(command: Command, events: Seq<ReadEvent>)
    ensures
        poll_spec(command, events) matches SendOutcome::Response(status, data) ==> is_terminal_status(
            status,
        ),
        poll_spec(command, events) matches SendOutcome::Fault(e) ==> e == (PortError::Io {
            command,
        }),
    decreases events.len(),
{
    if events.len() != 0 {
        lemma_poll_returns_terminal(command, events.drop_first());
    }
}

/// Acquiring exclusive access on an already-poisoned lock fails with
/// `MutexPoison` for every command and every later exchange, before anything
/// is written to the line.
pub proof fn lemma_poisoned_always_fails(command: Command, line: LineBehavior)
    requires
        line.access is Poisoned,
    ensures
        send_spec(command, line) == SendOutcome::Fault(PortError::MutexPoison),
{
}

/// A transport that times out any number of times and then returns a success
/// response causes the poll loop to return exactly that response, with no
/// error surfaced for the timeouts.
pub proof fn lemma_poll_absorbs_timeouts(command: Command, events: Seq<ReadEvent>, n: int, v: u8)
    requires
        0 <= n,
        events.len() == n + 1,
        forall|i: int| 0 <= i < n ==> events[i] == ReadEvent::TimedOut,
        events[n] == ReadEvent::Response(SUCCESS_CODE, v),
    ensures
        poll_spec(command, events) == SendOutcome::Response(SUCCESS_CODE, v),
    decreases n,
{
    if n == 0 {
        assert(poll_spec(command, events) == SendOutcome::Response(SUCCESS_CODE, v));
    } else {
        assert(events[0] == ReadEvent::TimedOut);
        lemma_poll_absorbs_timeouts(command, events.drop_first(), n - 1, v);
    }
}

/// A transport that raises a non-timeout I/O failure at any read attempt,
/// after nothing but retried attempts, causes immediate propagation of the
/// tagged I/O error, whatever would have come afterwards.
pub proof fn lemma_poll_fault_is_immediate(command: Command, events: Seq<ReadEvent>, k: int)
    requires
        0 <= k < events.len(),
        events[k] == ReadEvent::Failed,
        forall|i: int| 0 <= i < k ==> poll_step_spec(command, events[i]) == PollStep::Retry,
    ensures
        poll_spec(command, events) == SendOutcome::Fault(PortError::Io { command }),
    decreases k,
{
    if k > 0 {
        assert(poll_step_spec(command, events[0]) == PollStep::Retry);
        lemma_poll_fault_is_immediate(command, events.drop_first(), k - 1);
    }
}

} // verus!

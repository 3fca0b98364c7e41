//! The fingerprint-reader protocol: commands, frames, and the driver logic.

use vstd::prelude::*;

pub mod error;
pub mod guard;
pub mod init;

use vstd::pervasive::unreached;

use crate::port::error::CommandError;
use crate::port::error::PortError;
use crate::port::error::decode_spec;
use crate::port::guard::LineBehavior;
use crate::port::guard::SendOutcome;
use crate::port::guard::lemma_poll_returns_terminal;
use crate::port::guard::send_command;
use crate::port::guard::send_spec;

verus! {

/// Status byte of a response that reports success.
pub const SUCCESS_CODE: u8 = 0xFF;

/// Status byte of a response that reports a device failure.
pub const FAIL_CODE: u8 = 0xFE;

/// Baud rate at which the reader's serial line runs.
pub const BAUD_RATE: u32 = 9600;

/// Commands that can be sent to the fingerprint reader.
#[derive(Clone, Copy, Debug, PartialEq, Eq, Structural)]
pub enum Command {
    /// Initial handshake to ensure that the reader is ready to receive commands.
    Ready,
    /// Enroll a fingerprint.
    Enroll,
    /// Match a fingerprint against the stored templates.
    Match,
    /// Clear all fingerprint templates currently held by the reader.
    Clear,
}

impl Command {
    /// The one-byte opcode that identifies this command on the wire.
    pub open spec fn opcode_spec(self) -> u8 {
        match self {
            Command::Ready => 0,
            Command::Enroll => 1,
            Command::Match => 2,
            Command::Clear => 3,
        }
    }

    /// Executable form of [`Self::opcode_spec`].
    pub fn opcode(self) -> (b: u8)
        ensures
            b == self.opcode_spec(),
    {
        match self {
            Command::Ready => 0,
            Command::Enroll => 1,
            Command::Match => 2,
            Command::Clear => 3,
        }
    }

    /// The command identified by an opcode byte, if any.
    pub open spec fn from_opcode_spec(byte: u8) -> Option<Command> {
        match byte {
            0u8 => Some(Command::Ready),
            1u8 => Some(Command::Enroll),
            2u8 => Some(Command::Match),
            3u8 => Some(Command::Clear),
            _ => None,
        }
    }

    /// Decode an opcode byte. An unrecognized byte (for instance from a
    /// corrupted echo) yields `None` rather than aborting the process.
    pub fn from_opcode(byte: u8) -> (c: Option<Command>)
        ensures
            c == Self::from_opcode_spec(byte),
    {
        match byte {
            0u8 => Some(Command::Ready),
            1u8 => Some(Command::Enroll),
            2u8 => Some(Command::Match),
            3u8 => Some(Command::Clear),
            _ => None,
        }
    }

    /// Build the 2-byte frame `[opcode, argument]` for this command.
    pub fn frame(self, argument: u8) -> (f: [u8; 2])
        ensures
            f@ =~= seq![self.opcode_spec(), argument],
    {
        [self.opcode(), argument]
    }
}

/// Trait that ports to a fingerprint reader must implement. The implementor
/// owns the physical line and the blocking I/O around it, which is why no
/// contract can be stated here; every decision its methods take is meant to
/// be delegated to the verified functions of this crate, as the operations
/// below spell out for a recorded line behaviour.
pub trait AttendancePort: Send + Sync + Sized {
    type Error;

    /// Get a port to the fingerprint reader.
    fn get() -> Result<Self, Self::Error>;

    /// Enroll a fingerprint.
    fn enroll_fingerprint(&self, fingerprint_id: u8) -> Result<(), Self::Error>;

    /// Match a fingerprint and return the fingerprint ID.
    fn match_fingerprint(&self) -> Result<i32, Self::Error>;

    /// Clear all fingerprint models currently held by the fingerprint reader.
    fn clear_fingerprints(&self) -> Result<(), Self::Error>;

    /// Send a command to the fingerprint reader, returning the response.
    fn send_command(&self, command: &[u8; 2]) -> Result<[u8; 2], Self::Error>;
}

/// Decoding an opcode byte undoes encoding a command: every command is
/// recovered from its own opcode.
pub proof fn lemma_opcode_roundtrip(command: Command)
    ensures
        Command::from_opcode_spec(command.opcode_spec()) == Some(command),
{
}

/// What one whole operation comes to: the command's frame is sent through
/// the guard against the transport's recorded behaviour, and the terminal
/// response, if one arrives, is decoded into the operation's result.
pub open spec fn exchange_spec(command: Command, argument: u8, line: LineBehavior) -> Result<
    i32,
    PortError,
>
    recommends
        !(send_spec(command, line) is Pending),
{
    match send_spec(command, line) {
        SendOutcome::Response(status, data) => decode_spec(
            seq![command.opcode_spec(), argument],
            seq![status, data],
        ),
        SendOutcome::Fault(e) => Err(e),
        SendOutcome::Pending => vstd::pervasive::arbitrary(),
    }
}

/// [`exchange_spec`] with the success value discarded, for the operations
/// that only report whether the device succeeded.
pub open spec fn unit_exchange_spec(command: Command, argument: u8, line: LineBehavior) -> Result<
    (),
    PortError,
>
    recommends
        !(send_spec(command, line) is Pending),
{
    match exchange_spec(command, argument, line) {
        Ok(_) => Ok(()),
        Err(e) => Err(e),
    }
}

/// Run one full operation: build the frame, drive it through the guard, and
/// decode the terminal response.
fn run_exchange(command: Command, argument: u8, line: &LineBehavior) -> (r: Result<i32, PortError>)
    requires
        !(send_spec(command, *line) is Pending),
    ensures
        r == exchange_spec(command, argument, *line),
{
    let frame = command.frame(argument);
    proof {
        lemma_opcode_roundtrip(command);
    }
    match send_command(&frame, line) {
        SendOutcome::Response(status, data) => {
            let response = [status, data];
            proof {
                assert(response@ =~= seq![status, data]);
                assert(frame@ =~= seq![command.opcode_spec(), argument]);
            }
            PortError::result_from_command_response(frame.as_slice(), response.as_slice())
        },
        SendOutcome::Fault(e) => Err(e),
        SendOutcome::Pending => unreached(),
    }
}

/// Initial handshake: ask the reader whether it is ready to receive
/// commands. Used once during startup; a non-success outcome is fatal to
/// startup.
pub fn ready(line: &LineBehavior) -> (r: Result<(), PortError>)
    requires
        !(send_spec(Command::Ready, *line) is Pending),
    ensures
        r == unit_exchange_spec(Command::Ready, 0, *line),
{
    match run_exchange(Command::Ready, 0, line) {
        Ok(_) => Ok(()),
        Err(e) => Err(e),
    }
}

/// Enroll a fingerprint into the given device slot. Choosing the slot is the
/// caller's responsibility.
pub fn enroll_fingerprint(fingerprint_id: u8, line: &LineBehavior) -> (r: Result<(), PortError>)
    requires
        !(send_spec(Command::Enroll, *line) is Pending),
    ensures
        r == unit_exchange_spec(Command::Enroll, fingerprint_id, *line),
{
    match run_exchange(Command::Enroll, fingerprint_id, line) {
        Ok(_) => Ok(()),
        Err(e) => Err(e),
    }
}

/// Match a fingerprint against the stored templates and return the slot id
/// of the matching template.
pub fn match_fingerprint(line: &LineBehavior) -> (r: Result<i32, PortError>)
    requires
        !(send_spec(Command::Match, *line) is Pending),
    ensures
        r == exchange_spec(Command::Match, 0, *line),
{
    run_exchange(Command::Match, 0, line)
}

/// Clear all fingerprint templates currently held by the reader.
pub fn clear_fingerprints(line: &LineBehavior) -> (r: Result<(), PortError>)
    requires
        !(send_spec(Command::Clear, *line) is Pending),
    ensures
        r == unit_exchange_spec(Command::Clear, 0, *line),
{
    match run_exchange(Command::Clear, 0, line) {
        Ok(_) => Ok(()),
        Err(e) => Err(e),
    }
}

/// The guard never surfaces a protocol-desync error: because the poll loop
/// retries every response whose status byte is not terminal, an operation's
/// device-failure error is never `InvalidResponse`.
pub proof fn lemma_operations_never_invalid_response(
    command: Command,
    argument: u8,
    line: LineBehavior,
)
    requires
        !(send_spec(command, line) is Pending),
    ensures
        match exchange_spec(command, argument, line) {
            Err(PortError::Command { source, command: tag }) => source
                != CommandError::InvalidResponse,
            _ => true,
        },
{
    lemma_poll_returns_terminal(command, line.reads@);
    assert(forall|b: u8| crate::port::error::command_error_of(b) != CommandError::InvalidResponse);
}

} // verus!

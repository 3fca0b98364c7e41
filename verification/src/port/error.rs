//! The error taxonomy of the driver and the response decoder.

use vstd::prelude::*;

use crate::port::Command;
use crate::port::FAIL_CODE;
use crate::port::SUCCESS_CODE;

verus! {

/// Errors that the device itself reports when executing a fingerprint
/// command, decoded from the data byte of a `FAIL_CODE` response, plus the
/// distinct `InvalidResponse` kind for a response whose status byte is
/// neither `SUCCESS_CODE` nor `FAIL_CODE`.
#[derive(Clone, Copy, Debug, PartialEq, Eq, Structural)]
pub enum CommandError {
    /// A response carried a status byte that is neither success nor failure.
    InvalidResponse,
    /// An unknown error occurred on the device.
    UnknownError,
    /// A packet error occurred while talking to the device.
    PacketError,
    /// The device failed to capture a fingerprint image.
    ImageFail,
    /// The captured fingerprint image was too messy.
    ImageMess,
    /// Too few character points to generate a character file from the image.
    FeatureFail,
    /// The device detected an invalid image.
    InvalidImage,
    /// The first and second fingers did not match during enrollment.
    EnrollMismatch,
    /// Invalid location for storing the fingerprint template.
    BadLocation,
    /// A flash storage error occurred on the device.
    FlashError,
    /// No matching fingerprint was found.
    FingerprintNotFound,
    /// The device received a command it does not recognize.
    UnknownCommand,
}

/// The fixed, total mapping from a device error code byte to the error kind
/// it names. Every byte outside the 11 defined codes maps to `UnknownError`.
pub open spec fn command_error_of(byte: u8) -> CommandError {
    match byte {
        1u8 => CommandError::UnknownError,
        2u8 => CommandError::PacketError,
        3u8 => CommandError::ImageFail,
        4u8 => CommandError::ImageMess,
        5u8 => CommandError::FeatureFail,
        6u8 => CommandError::InvalidImage,
        7u8 => CommandError::EnrollMismatch,
        8u8 => CommandError::BadLocation,
        9u8 => CommandError::FlashError,
        10u8 => CommandError::FingerprintNotFound,
        11u8 => CommandError::UnknownCommand,
        _ => CommandError::UnknownError,
    }
}

impl From<u8> for CommandError {
    /// Decode a device error code byte into the error kind it names.
    fn from(byte: u8) -> (e: CommandError) {
        match byte {
            1u8 => CommandError::UnknownError,
            2u8 => CommandError::PacketError,
            3u8 => CommandError::ImageFail,
            4u8 => CommandError::ImageMess,
            5u8 => CommandError::FeatureFail,
            6u8 => CommandError::InvalidImage,
            7u8 => CommandError::EnrollMismatch,
            8u8 => CommandError::BadLocation,
            9u8 => CommandError::FlashError,
            10u8 => CommandError::FingerprintNotFound,
            11u8 => CommandError::UnknownCommand,
            _ => CommandError::UnknownError,
        }
    }
}

impl vstd::std_specs::convert::FromSpecImpl<u8> for CommandError {
    open spec fn obeys_from_spec() -> bool {
        true
    }

    open spec fn from_spec(byte: u8) -> CommandError {
        command_error_of(byte)
    }
}

/// Errors that can occur when driving the fingerprint reader through the
/// port. Each kind that arises while a particular command is in flight is
/// tagged with that command.
#[derive(Clone, Copy, Debug, PartialEq, Eq, Structural)]
pub enum PortError {
    /// A non-timeout I/O failure occurred while writing, flushing or reading.
    Io { command: Command },
    /// The lock guarding the port was poisoned by a previous holder.
    MutexPoison,
    /// The serial endpoint could not be found or opened.
    SerialPort { command: Command },
    /// The device reported a failure while executing a command.
    Command { source: CommandError, command: Command },
}

/// What decoding a 2-byte response to a 2-byte command frame yields: the
/// data byte on a success status, the decoded device error on a failure
/// status, and `InvalidResponse` on any other status byte.
pub open spec fn decode_spec(command: Seq<u8>, response: Seq<u8>) -> Result<i32, PortError>
    recommends
        command.len() == 2,
        response.len() == 2,
        Command::from_opcode_spec(command[0]) is Some,
{
    let tag = Command::from_opcode_spec(command[0])->Some_0;
    if response[0] == SUCCESS_CODE {
        Ok(response[1] as i32)
    } else if response[0] == FAIL_CODE {
        Err(PortError::Command { source: command_error_of(response[1]), command: tag })
    } else {
        Err(PortError::Command { source: CommandError::InvalidResponse, command: tag })
    }
}

impl PortError {
    /// Convert a response from the port into a result that can be propagated
    /// directly: the data byte on success, and a command-tagged error on a
    /// device failure or on a status byte that is not a terminal marker.
    pub fn result_from_command_response(command: &[u8], response: &[u8]) -> (r: Result<
        i32,
        PortError,
    >)
        requires
            command@.len() == 2,
            response@.len() == 2,
            Command::from_opcode_spec(command@[0]) is Some,
        ensures
            r == decode_spec(command@, response@),
    {
        let tag = Command::from_opcode(command[0]).unwrap();
        if response[0] == SUCCESS_CODE {
            Ok(response[1] as i32)
        } else if response[0] == FAIL_CODE {
            Err(PortError::Command { source: CommandError::from(response[1]), command: tag })
        } else {
            Err(PortError::Command { source: CommandError::InvalidResponse, command: tag })
        }
    }
}

/// For every command frame and every data byte, decoding a response whose
/// status byte is `SUCCESS_CODE` yields that data byte as the result.
pub proof fn lemma_decode_success(command: Seq<u8>, data: u8)
    requires
        command.len() == 2,
        Command::from_opcode_spec(command[0]) is Some,
    ensures
        decode_spec(command, seq![SUCCESS_CODE, data]) == Ok::<i32, PortError>(data as i32),
{
}

/// For every command frame and every code byte, decoding a response whose
/// status byte is `FAIL_CODE` yields the device error that the fixed table
/// names for that code, tagged with the frame's command.
pub proof fn lemma_decode_failure(command: Seq<u8>, code: u8)
    requires
        command.len() == 2,
        Command::from_opcode_spec(command[0]) is Some,
    ensures
        decode_spec(command, seq![FAIL_CODE, code]) == Err::<i32, PortError>(PortError::Command {
            source: command_error_of(code),
            command: Command::from_opcode_spec(command[0])->Some_0,
        }),
{
}

/// Every code byte outside the 11 defined ones falls back to
/// `UnknownError`.
pub proof fn lemma_unmapped_code_falls_back(code: u8)
    requires
        code == 0 || code > 11,
    ensures
        command_error_of(code) == CommandError::UnknownError,
{
}

/// Decoding any response whose status byte is neither `SUCCESS_CODE` nor
/// `FAIL_CODE` yields `InvalidResponse`, tagged with the frame's command.
pub proof fn lemma_decode_invalid(command: Seq<u8>, status: u8, data: u8)
    requires
        command.len() == 2,
        Command::from_opcode_spec(command[0]) is Some,
        status != SUCCESS_CODE,
        status != FAIL_CODE,
    ensures
        decode_spec(command, seq![status, data]) == Err::<i32, PortError>(PortError::Command {
            source: CommandError::InvalidResponse,
            command: Command::from_opcode_spec(command[0])->Some_0,
        }),
{
}

} // verus!

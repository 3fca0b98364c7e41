use fingerprint_port::port::Command;
use fingerprint_port::port::error::CommandError;
use fingerprint_port::port::error::PortError;
use fingerprint_port::port::FAIL_CODE;
use fingerprint_port::port::SUCCESS_CODE;

#[test]
fn opcodes_are_fixed() {
    assert_eq!(Command::Ready.opcode(), 0);
    assert_eq!(Command::Enroll.opcode(), 1);
    assert_eq!(Command::Match.opcode(), 2);
    assert_eq!(Command::Clear.opcode(), 3);
}

#[test]
fn from_opcode_decodes_every_byte() {
    assert_eq!(Command::from_opcode(0), Some(Command::Ready));
    assert_eq!(Command::from_opcode(1), Some(Command::Enroll));
    assert_eq!(Command::from_opcode(2), Some(Command::Match));
    assert_eq!(Command::from_opcode(3), Some(Command::Clear));
    for byte in 4..=255u8 {
        assert_eq!(Command::from_opcode(byte), None);
    }
}

#[test]
fn frame_is_opcode_then_argument() {
    assert_eq!(Command::Enroll.frame(5), [1, 5]);
    assert_eq!(Command::Ready.frame(0), [0, 0]);
    assert_eq!(Command::Match.frame(0), [2, 0]);
    assert_eq!(Command::Clear.frame(0), [3, 0]);
}

#[test]
fn decoding_success_yields_data_byte_for_all_opcodes_and_data() {
    for opcode in 0..=3u8 {
        for data in 0..=255u8 {
            let r = PortError::result_from_command_response(
                &[opcode, 0],
                &[SUCCESS_CODE, data],
            );
            assert_eq!(r, Ok(data as i32));
        }
    }
}

#[test]
fn decoding_failure_yields_the_named_error_for_each_code() {
    let table = [
        (1u8, CommandError::UnknownError),
        (2, CommandError::PacketError),
        (3, CommandError::ImageFail),
        (4, CommandError::ImageMess),
        (5, CommandError::FeatureFail),
        (6, CommandError::InvalidImage),
        (7, CommandError::EnrollMismatch),
        (8, CommandError::BadLocation),
        (9, CommandError::FlashError),
        (10, CommandError::FingerprintNotFound),
        (11, CommandError::UnknownCommand),
    ];
    for (code, expected) in table {
        let r = PortError::result_from_command_response(&[2, 0], &[FAIL_CODE, code]);
        assert_eq!(
            r,
            Err(PortError::Command { source: expected, command: Command::Match })
        );
    }
}

#[test]
fn unmapped_failure_codes_fall_back_to_unknown_error() {
    for code in [0u8, 12, 13, 100, 255] {
        let r = PortError::result_from_command_response(&[0, 0], &[FAIL_CODE, code]);
        assert_eq!(
            r,
            Err(PortError::Command {
                source: CommandError::UnknownError,
                command: Command::Ready,
            })
        );
    }
}

#[test]
fn command_error_from_byte_matches_the_table() {
    assert_eq!(CommandError::from(5u8), CommandError::FeatureFail);
    assert_eq!(CommandError::from(10u8), CommandError::FingerprintNotFound);
    assert_eq!(CommandError::from(0u8), CommandError::UnknownError);
    assert_eq!(CommandError::from(200u8), CommandError::UnknownError);
}

#[test]
fn decoding_any_other_status_yields_invalid_response() {
    for status in [0u8, 1, 0x10, 0x7F, 0xFD] {
        for data in [0u8, 5, 255] {
            let r = PortError::result_from_command_response(&[1, 5], &[status, data]);
            assert_eq!(
                r,
                Err(PortError::Command {
                    source: CommandError::InvalidResponse,
                    command: Command::Enroll,
                })
            );
        }
    }
}

#[test]
fn error_tag_follows_the_frame_opcode() {
    for (opcode, command) in [
        (0u8, Command::Ready),
        (1, Command::Enroll),
        (2, Command::Match),
        (3, Command::Clear),
    ] {
        let r = PortError::result_from_command_response(&[opcode, 9], &[FAIL_CODE, 3]);
        assert_eq!(
            r,
            Err(PortError::Command { source: CommandError::ImageFail, command })
        );
    }
}

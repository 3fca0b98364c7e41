use fingerprint_port::port::Command;
use fingerprint_port::port::error::PortError;
use fingerprint_port::port::guard::acquire_result;
use fingerprint_port::port::guard::poll_step;
use fingerprint_port::port::guard::run_poll;
use fingerprint_port::port::guard::send_command;
use fingerprint_port::port::guard::LineAccess;
use fingerprint_port::port::guard::LineBehavior;
use fingerprint_port::port::guard::PollStep;
use fingerprint_port::port::guard::ReadEvent;
use fingerprint_port::port::guard::SendOutcome;
use fingerprint_port::port::FAIL_CODE;
use fingerprint_port::port::SUCCESS_CODE;

fn smooth_line(reads: Vec<ReadEvent>) -> LineBehavior {
    LineBehavior { access: LineAccess::Granted, write_ok: true, flush_ok: true, reads }
}

#[test]
fn poll_step_accepts_terminal_statuses() {
    assert_eq!(
        poll_step(Command::Match, ReadEvent::Response(SUCCESS_CODE, 3)),
        PollStep::Accept(SUCCESS_CODE, 3)
    );
    assert_eq!(
        poll_step(Command::Match, ReadEvent::Response(FAIL_CODE, 9)),
        PollStep::Accept(FAIL_CODE, 9)
    );
}

#[test]
fn poll_step_retries_timeouts_and_noise() {
    assert_eq!(poll_step(Command::Ready, ReadEvent::TimedOut), PollStep::Retry);
    assert_eq!(poll_step(Command::Ready, ReadEvent::Response(0x42, 7)), PollStep::Retry);
    assert_eq!(poll_step(Command::Ready, ReadEvent::Response(0, 0)), PollStep::Retry);
}

#[test]
fn poll_step_propagates_other_failures() {
    assert_eq!(
        poll_step(Command::Clear, ReadEvent::Failed),
        PollStep::Fail(PortError::Io { command: Command::Clear })
    );
}

#[test]
fn poll_absorbs_any_number_of_timeouts() {
    for n in [0usize, 1, 2, 10, 100] {
        let mut reads = vec![ReadEvent::TimedOut; n];
        reads.push(ReadEvent::Response(SUCCESS_CODE, 5));
        assert_eq!(
            run_poll(Command::Enroll, &reads),
            SendOutcome::Response(SUCCESS_CODE, 5)
        );
    }
}

#[test]
fn poll_resynchronizes_after_stray_bytes() {
    let reads = vec![
        ReadEvent::Response(0x10, 0x20),
        ReadEvent::TimedOut,
        ReadEvent::Response(0x00, 0xFF),
        ReadEvent::Response(SUCCESS_CODE, 2),
    ];
    assert_eq!(run_poll(Command::Match, &reads), SendOutcome::Response(SUCCESS_CODE, 2));
}

#[test]
fn poll_fault_propagates_immediately() {
    for k in [0usize, 1, 3] {
        let mut reads = vec![ReadEvent::TimedOut; k];
        reads.push(ReadEvent::Failed);
        reads.push(ReadEvent::Response(SUCCESS_CODE, 1));
        assert_eq!(
            run_poll(Command::Match, &reads),
            SendOutcome::Fault(PortError::Io { command: Command::Match })
        );
    }
}

#[test]
fn poll_is_pending_while_nothing_terminal_arrives() {
    assert_eq!(run_poll(Command::Ready, &vec![]), SendOutcome::Pending);
    assert_eq!(
        run_poll(Command::Ready, &vec![ReadEvent::TimedOut, ReadEvent::Response(9, 9)]),
        SendOutcome::Pending
    );
}

#[test]
fn send_command_returns_the_terminal_response() {
    let line = smooth_line(vec![ReadEvent::TimedOut, ReadEvent::Response(SUCCESS_CODE, 5)]);
    assert_eq!(send_command(&[1, 5], &line), SendOutcome::Response(SUCCESS_CODE, 5));
}

#[test]
fn send_command_fails_when_write_fails() {
    let line = LineBehavior {
        access: LineAccess::Granted,
        write_ok: false,
        flush_ok: true,
        reads: vec![ReadEvent::Response(SUCCESS_CODE, 5)],
    };
    assert_eq!(
        send_command(&[3, 0], &line),
        SendOutcome::Fault(PortError::Io { command: Command::Clear })
    );
}

#[test]
fn send_command_fails_when_flush_fails() {
    let line = LineBehavior {
        access: LineAccess::Granted,
        write_ok: true,
        flush_ok: false,
        reads: vec![],
    };
    assert_eq!(
        send_command(&[0, 0], &line),
        SendOutcome::Fault(PortError::Io { command: Command::Ready })
    );
}

#[test]
fn poisoned_access_reports_mutex_poison_every_time() {
    for _ in 0..3 {
        assert_eq!(acquire_result(LineAccess::Poisoned), Err(PortError::MutexPoison));
    }
    let line = LineBehavior {
        access: LineAccess::Poisoned,
        write_ok: true,
        flush_ok: true,
        reads: vec![ReadEvent::Response(SUCCESS_CODE, 0)],
    };
    assert_eq!(send_command(&[2, 0], &line), SendOutcome::Fault(PortError::MutexPoison));
    assert_eq!(send_command(&[2, 0], &line), SendOutcome::Fault(PortError::MutexPoison));
}

#[test]
fn granted_access_is_not_an_error() {
    assert_eq!(acquire_result(LineAccess::Granted), Ok(()));
}

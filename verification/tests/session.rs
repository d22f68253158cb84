use termcanvas::session::{
    init, raw_mode, sequence, Attributes, Command, Flags, Outcome, Screen, SessionError, Stage,
    Step,
};

const FLAGS: Flags =
    Flags { canonical: 0o2, echo: 0o10, flow_out: 0o2000, flow_in: 0o10000, sequences: 0 };

const FOUND: Attributes =
    Attributes { input_flags: 0o12500, local_flags: 0o105073, min_bytes: 4, timeout: 9 };

const RAW: Attributes =
    Attributes { input_flags: 0o500, local_flags: 0o105061, min_bytes: 1, timeout: 0 };

#[test]
fn raw_mode_turns_off_four_flags() {
    assert_eq!(raw_mode(FOUND, FLAGS), RAW);
    assert_eq!(raw_mode(RAW, FLAGS), RAW);
}

#[test]
fn raw_mode_reads_byte_by_byte() {
    let none = Flags { canonical: 0, echo: 0, flow_out: 0, flow_in: 0, sequences: 0 };
    let raw = raw_mode(FOUND, none);
    assert_eq!(raw.input_flags, FOUND.input_flags);
    assert_eq!(raw.local_flags, FOUND.local_flags);
    assert_eq!(raw.min_bytes, 1);
    assert_eq!(raw.timeout, 0);
}

#[test]
fn raw_mode_with_other_bits() {
    let flags =
        Flags { canonical: 0x100, echo: 0x8, flow_out: 0x200, flow_in: 0x400, sequences: 0 };
    let found =
        Attributes { input_flags: u64::MAX, local_flags: u64::MAX, min_bytes: 0, timeout: 0 };
    let raw = raw_mode(found, flags);
    assert_eq!(raw.input_flags, u64::MAX - 0x600);
    assert_eq!(raw.local_flags, u64::MAX - 0x108);
}

#[test]
fn raw_mode_turns_on_control_sequences() {
    let flags = Flags { canonical: 0, echo: 0, flow_out: 0, flow_in: 0, sequences: 0x4 };
    let found = Attributes { input_flags: 0x3, local_flags: 0x3, min_bytes: 0, timeout: 0 };
    assert_eq!(
        raw_mode(found, flags),
        Attributes { input_flags: 0x3, local_flags: 0x7, min_bytes: 1, timeout: 0 }
    );
}

#[test]
fn screen_sequences() {
    assert_eq!(sequence(Screen::Alternate), "\x1b[?1049h\x1b[2J\x1b[H");
    assert_eq!(sequence(Screen::Cleared), "\x1b[2J\x1b[H");
}

#[test]
fn error_messages() {
    assert_eq!(SessionError::QueryFailed.message(), "Failed to get terminal attributes");
    assert_eq!(SessionError::SetFailed.message(), "Failed to set terminal attributes");
    assert_eq!(SessionError::WriteFailed.message(), "Failed to write to handle");
    assert_eq!(SessionError::Unsupported.message(), "Platform unsupported");
}

#[test]
fn session_begins_and_ends() {
    let (mut handle, first) = init(FLAGS);
    assert_eq!(first, Command::Query);
    assert_eq!(handle.stage(), Stage::Querying);
    assert_eq!(handle.step(Outcome::Read(FOUND)), Step::Run(Command::Apply(RAW)));
    assert_eq!(handle.saved(), FOUND);
    assert_eq!(handle.stage(), Stage::Applying);
    assert_eq!(handle.step(Outcome::Done), Step::Run(Command::Write(Screen::Alternate)));
    assert_eq!(handle.stage(), Stage::Entering);
    assert_eq!(handle.step(Outcome::Done), Step::Ready);
    assert_eq!(handle.stage(), Stage::Active);

    assert_eq!(handle.release(), Step::Run(Command::Apply(FOUND)));
    assert_eq!(handle.stage(), Stage::Restoring);
    assert_eq!(handle.step(Outcome::Done), Step::Run(Command::Write(Screen::Cleared)));
    assert_eq!(handle.stage(), Stage::Clearing);
    assert_eq!(handle.step(Outcome::Done), Step::Released);
    assert_eq!(handle.stage(), Stage::Released);
    assert_eq!(handle.saved(), FOUND);
}

#[test]
fn query_failure_ends_the_session() {
    let (mut handle, _) = init(FLAGS);
    assert_eq!(handle.step(Outcome::Failed), Step::Failed(SessionError::QueryFailed));
    assert_eq!(handle.stage(), Stage::Failed(SessionError::QueryFailed));
    assert_eq!(handle.step(Outcome::Done), Step::Failed(SessionError::QueryFailed));
    assert_eq!(handle.release(), Step::Released);
}

#[test]
fn query_answered_without_attributes_is_a_failure() {
    let (mut handle, _) = init(FLAGS);
    assert_eq!(handle.step(Outcome::Done), Step::Failed(SessionError::QueryFailed));
}

#[test]
fn unsupported_platform() {
    let (mut handle, _) = init(FLAGS);
    assert_eq!(handle.step(Outcome::Unsupported), Step::Failed(SessionError::Unsupported));
    assert_eq!(handle.stage(), Stage::Failed(SessionError::Unsupported));

    let (mut handle, _) = init(FLAGS);
    handle.step(Outcome::Read(FOUND));
    assert_eq!(handle.step(Outcome::Unsupported), Step::Failed(SessionError::Unsupported));
}

#[test]
fn set_failure_ends_the_session() {
    let (mut handle, _) = init(FLAGS);
    handle.step(Outcome::Read(FOUND));
    assert_eq!(handle.step(Outcome::Failed), Step::Failed(SessionError::SetFailed));
    assert_eq!(handle.stage(), Stage::Failed(SessionError::SetFailed));
}

#[test]
fn write_failure_restores_before_it_fails() {
    let (mut handle, _) = init(FLAGS);
    handle.step(Outcome::Read(FOUND));
    handle.step(Outcome::Done);
    assert_eq!(handle.step(Outcome::Failed), Step::Run(Command::Apply(FOUND)));
    assert_eq!(handle.stage(), Stage::Aborting);
    assert_eq!(handle.step(Outcome::Done), Step::Failed(SessionError::WriteFailed));
    assert_eq!(handle.stage(), Stage::Failed(SessionError::WriteFailed));
}

#[test]
fn restore_failure_is_reported_and_not_raised() {
    let (mut handle, _) = init(FLAGS);
    handle.step(Outcome::Read(FOUND));
    handle.step(Outcome::Done);
    handle.step(Outcome::Done);
    assert_eq!(handle.release(), Step::Run(Command::Apply(FOUND)));
    assert_eq!(handle.step(Outcome::Failed), Step::Run(Command::Report));
    assert_eq!(handle.stage(), Stage::Reporting);
    assert_eq!(handle.step(Outcome::Done), Step::Run(Command::Write(Screen::Cleared)));
    assert_eq!(handle.step(Outcome::Failed), Step::Released);
    assert_eq!(handle.stage(), Stage::Released);
}

#[test]
fn release_before_raw_mode_is_confirmed_restores_too() {
    let (mut handle, _) = init(FLAGS);
    handle.step(Outcome::Read(FOUND));
    assert_eq!(handle.release(), Step::Run(Command::Apply(FOUND)));

    let (mut handle, _) = init(FLAGS);
    handle.step(Outcome::Read(FOUND));
    handle.step(Outcome::Done);
    assert_eq!(handle.release(), Step::Run(Command::Apply(FOUND)));
}

#[test]
fn release_before_anything_was_read_has_nothing_to_restore() {
    let (mut handle, _) = init(FLAGS);
    assert_eq!(handle.release(), Step::Released);
    assert_eq!(handle.stage(), Stage::Released);
    assert_eq!(handle.step(Outcome::Read(FOUND)), Step::Released);
}

#[test]
fn release_twice_asks_again_for_the_same() {
    let (mut handle, _) = init(FLAGS);
    handle.step(Outcome::Read(FOUND));
    handle.step(Outcome::Done);
    handle.step(Outcome::Done);
    assert_eq!(handle.release(), Step::Run(Command::Apply(FOUND)));
    assert_eq!(handle.release(), Step::Run(Command::Apply(FOUND)));
    handle.step(Outcome::Failed);
    assert_eq!(handle.release(), Step::Run(Command::Report));
    handle.step(Outcome::Done);
    assert_eq!(handle.release(), Step::Run(Command::Write(Screen::Cleared)));
    handle.step(Outcome::Done);
    assert_eq!(handle.release(), Step::Released);
}

#[test]
fn outcomes_while_active_change_nothing() {
    let (mut handle, _) = init(FLAGS);
    handle.step(Outcome::Read(FOUND));
    handle.step(Outcome::Done);
    handle.step(Outcome::Done);
    assert_eq!(handle.step(Outcome::Failed), Step::Ready);
    assert_eq!(handle.step(Outcome::Read(RAW)), Step::Ready);
    assert_eq!(handle.stage(), Stage::Active);
    assert_eq!(handle.saved(), FOUND);
}

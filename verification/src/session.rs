//! The life of a terminal session, as a machine that is told what happened
//! and says what to do next.
//!
//! A session puts the terminal into raw mode on the alternate screen and
//! brings it back when it ends. The machine here makes every decision of that:
//! what is asked of the terminal and in which order, which failure ends the
//! session with which error, and that the attributes found at the start are
//! set again before the session is over. The caller carries out each command
//! and reports how it went.

use vstd::prelude::*;

verus! {

/// What a session reads and changes of a terminal's line discipline.
#[derive(Debug, Clone, Copy, PartialEq, Eq, Structural)]
pub struct Attributes {
    /// The flags of input processing.
    pub input_flags: u64,
    /// The flags of local processing.
    pub local_flags: u64,
    /// How many bytes a read waits for.
    pub min_bytes: u8,
    /// How long a read waits, in tenths of a second.
    pub timeout: u8,
}

/// The bits that the platform gives to the flags that raw mode changes. A
/// flag that the platform does not have has no bit: its field is 0.
#[derive(Debug, Clone, Copy, PartialEq, Eq, Structural)]
pub struct Flags {
    /// Local flag: input is handed over line by line.
    pub canonical: u64,
    /// Local flag: input is echoed.
    pub echo: u64,
    /// Input flag: output stops and starts on control characters.
    pub flow_out: u64,
    /// Input flag: the terminal is sent control characters to stop and start.
    pub flow_in: u64,
    /// Local flag: control sequences in the output are carried out. Raw mode
    /// turns it on where a console has it off by default.
    pub sequences: u64,
}

/// The attributes of raw mode: those found, with line-by-line input, echo and
/// flow control turned off, control sequences turned on, and with reads that
/// return as soon as one byte is there.
pub open spec fn raw_of(found: Attributes, flags: Flags) -> Attributes {
    Attributes {
        input_flags: found.input_flags & !(flags.flow_out | flags.flow_in),
        local_flags: (found.local_flags & !(flags.canonical | flags.echo)) | flags.sequences,
        min_bytes: 1,
        timeout: 0,
    }
}

/// The attributes of raw mode.
pub fn raw_mode(found: Attributes, flags: Flags) -> (raw: Attributes)
    ensures
        raw == raw_of(found, flags),
{
    Attributes {
        input_flags: found.input_flags & !(flags.flow_out | flags.flow_in),
        local_flags: (found.local_flags & !(flags.canonical | flags.echo)) | flags.sequences,
        min_bytes: 1,
        timeout: 0,
    }
}

/// Raw mode has flow control off and control sequences on; line-by-line
/// input and echo are off unless they share a bit with control sequences; and
/// every other flag is as it was found.
pub proof fn lemma_raw_flags(found: Attributes, flags: Flags)
    ensures
        raw_of(found, flags).input_flags & flags.flow_out == 0,
        raw_of(found, flags).input_flags & flags.flow_in == 0,
        raw_of(found, flags).local_flags & flags.sequences == flags.sequences,
        raw_of(found, flags).local_flags & flags.canonical == flags.sequences & flags.canonical,
        raw_of(found, flags).local_flags & flags.echo == flags.sequences & flags.echo,
        forall|bit: u64|
            bit & (flags.canonical | flags.echo | flags.sequences) == 0 ==> #[trigger] (raw_of(
                found,
                flags,
            ).local_flags & bit) == found.local_flags & bit,
        forall|bit: u64|
            bit & (flags.flow_out | flags.flow_in) == 0 ==> #[trigger] (raw_of(
                found,
                flags,
            ).input_flags & bit) == found.input_flags & bit,
{
    let local = found.local_flags;
    let input = found.input_flags;
    let (a, b) = (flags.canonical, flags.echo);
    let (c, d) = (flags.flow_out, flags.flow_in);
    let e = flags.sequences;
    assert((input & !(c | d)) & c == 0) by (bit_vector);
    assert((input & !(c | d)) & d == 0) by (bit_vector);
    assert(((local & !(a | b)) | e) & e == e) by (bit_vector);
    assert(((local & !(a | b)) | e) & a == e & a) by (bit_vector);
    assert(((local & !(a | b)) | e) & b == e & b) by (bit_vector);
    assert forall|bit: u64| bit & (a | b | e) == 0 implies #[trigger] (((local & !(a | b)) | e)
        & bit) == local & bit by {
        assert(bit & (a | b | e) == 0 ==> ((local & !(a | b)) | e) & bit == local & bit)
            by (bit_vector);
    }
    assert forall|bit: u64| bit & (c | d) == 0 implies #[trigger] ((input & !(c | d)) & bit)
        == input & bit by {
        assert(bit & (c | d) == 0 ==> (input & !(c | d)) & bit == input & bit) by (bit_vector);
    }
}

/// A text that the terminal takes as a command for its screen.
#[derive(Debug, Clone, Copy, PartialEq, Eq, Structural)]
pub enum Screen {
    /// Switch to the alternate screen, clear it, and move the cursor to the
    /// top left corner.
    Alternate,
    /// Clear the screen and move the cursor to the top left corner.
    Cleared,
}

/// The characters of a screen command.
pub open spec fn sequence_of(screen: Screen) -> Seq<char> {
    match screen {
        Screen::Alternate => seq![
            '\x1b',
            '[',
            '?',
            '1',
            '0',
            '4',
            '9',
            'h',
            '\x1b',
            '[',
            '2',
            'J',
            '\x1b',
            '[',
            'H',
        ],
        Screen::Cleared => seq!['\x1b', '[', '2', 'J', '\x1b', '[', 'H'],
    }
}

/// The text of a screen command.
pub fn sequence(screen: Screen) -> (text: &'static str)
    ensures
        text@ == sequence_of(screen),
{
    match screen {
        Screen::Alternate => {
            proof {
                reveal_strlit("\x1b[?1049h\x1b[2J\x1b[H");
                assert("\x1b[?1049h\x1b[2J\x1b[H"@ =~= sequence_of(screen));
            }
            "\x1b[?1049h\x1b[2J\x1b[H"
        },
        Screen::Cleared => {
            proof {
                reveal_strlit("\x1b[2J\x1b[H");
                assert("\x1b[2J\x1b[H"@ =~= sequence_of(screen));
            }
            "\x1b[2J\x1b[H"
        },
    }
}

/// Why a session did not begin.
#[derive(Debug, Clone, Copy, PartialEq, Eq, Structural)]
pub enum SessionError {
    /// The attributes of the terminal could not be read.
    QueryFailed,
    /// The attributes of raw mode could not be set.
    SetFailed,
    /// The command for the alternate screen could not be written.
    WriteFailed,
    /// The platform has no terminal attributes to read.
    Unsupported,
}

impl SessionError {
    /// The error in words.
    pub fn message(&self) -> (text: &'static str)
        ensures
            *self == SessionError::QueryFailed ==> text@ == "Failed to get terminal attributes"@,
            *self == SessionError::SetFailed ==> text@ == "Failed to set terminal attributes"@,
            *self == SessionError::WriteFailed ==> text@ == "Failed to write to handle"@,
            *self == SessionError::Unsupported ==> text@ == "Platform unsupported"@,
    {
        match self {
            SessionError::QueryFailed => "Failed to get terminal attributes",
            SessionError::SetFailed => "Failed to set terminal attributes",
            SessionError::WriteFailed => "Failed to write to handle",
            SessionError::Unsupported => "Platform unsupported",
        }
    }
}

/// Something for the caller to do to the terminal.
#[derive(Debug, Clone, Copy, PartialEq, Eq, Structural)]
pub enum Command {
    /// Read the attributes of the terminal.
    Query,
    /// Set the attributes of the terminal, at once.
    Apply(Attributes),
    /// Write a screen command to the terminal and flush.
    Write(Screen),
    /// Tell the diagnostic stream that the attributes could not be restored.
    Report,
}

/// How a command went.
#[derive(Debug, Clone, Copy, PartialEq, Eq, Structural)]
pub enum Outcome {
    /// The attributes that were read.
    Read(Attributes),
    /// The command was carried out.
    Done,
    /// The command failed.
    Failed,
    /// The platform has no such command.
    Unsupported,
}

/// What a session comes to after an outcome.
#[derive(Debug, Clone, Copy, PartialEq, Eq, Structural)]
pub enum Step {
    /// The caller is to carry out a command and report its outcome.
    Run(Command),
    /// The session has begun: the terminal is in raw mode on the alternate
    /// screen.
    Ready,
    /// The session is over.
    Released,
    /// The session did not begin.
    Failed(SessionError),
}

/// How far a session has come.
#[derive(Debug, Clone, Copy, PartialEq, Eq, Structural)]
pub enum Stage {
    /// The attributes are being read.
    Querying,
    /// The attributes of raw mode are being set.
    Applying,
    /// The terminal is in raw mode; the alternate screen is being entered.
    Entering,
    /// The session has begun.
    Active,
    /// The alternate screen could not be entered; the attributes found at the
    /// start are being set again.
    Aborting,
    /// The session is ending; the attributes found at the start are being
    /// set again.
    Restoring,
    /// The attributes could not be restored; that is being reported.
    Reporting,
    /// The screen is being cleared.
    Clearing,
    /// The session is over.
    Released,
    /// The session did not begin.
    Failed(SessionError),
}

/// A session as the machine sees it.
#[derive(Debug, Clone, Copy, PartialEq, Eq, Structural)]
pub struct State {
    /// The bits of the flags that raw mode turns off.
    pub flags: Flags,
    /// The attributes found at the start; zero until they are read.
    pub saved: Attributes,
    /// How far the session has come.
    pub stage: Stage,
}

/// Whether the terminal is in raw mode at a stage, so that the session owes
/// it the attributes found at the start.
pub open spec fn altered(stage: Stage) -> bool {
    stage == Stage::Entering || stage == Stage::Active
}

/// The state after an outcome, and what the session comes to.
///
/// A session begins by reading the attributes, setting those of raw mode and
/// entering the alternate screen, in this order; the first of these that
/// fails ends it, but not before the attributes found are set again if raw
/// mode was reached. An outcome that arrives while the session runs, or after
/// it is over, changes nothing. The end of a session is told by `ended`, not
/// by an outcome.
pub open spec fn next(state: State, outcome: Outcome) -> (State, Step) {
    match state.stage {
        Stage::Querying => match outcome {
            Outcome::Read(found) => (
                State { saved: found, stage: Stage::Applying, ..state },
                Step::Run(Command::Apply(raw_of(found, state.flags))),
            ),
            Outcome::Unsupported => (
                State { stage: Stage::Failed(SessionError::Unsupported), ..state },
                Step::Failed(SessionError::Unsupported),
            ),
            _ => (
                State { stage: Stage::Failed(SessionError::QueryFailed), ..state },
                Step::Failed(SessionError::QueryFailed),
            ),
        },
        Stage::Applying => match outcome {
            Outcome::Done => (
                State { stage: Stage::Entering, ..state },
                Step::Run(Command::Write(Screen::Alternate)),
            ),
            Outcome::Unsupported => (
                State { stage: Stage::Failed(SessionError::Unsupported), ..state },
                Step::Failed(SessionError::Unsupported),
            ),
            _ => (
                State { stage: Stage::Failed(SessionError::SetFailed), ..state },
                Step::Failed(SessionError::SetFailed),
            ),
        },
        Stage::Entering => match outcome {
            Outcome::Done => (State { stage: Stage::Active, ..state }, Step::Ready),
            _ => (
                State { stage: Stage::Aborting, ..state },
                Step::Run(Command::Apply(state.saved)),
            ),
        },
        Stage::Active => (state, Step::Ready),
        Stage::Aborting => (
            State { stage: Stage::Failed(SessionError::WriteFailed), ..state },
            Step::Failed(SessionError::WriteFailed),
        ),
        Stage::Restoring => match outcome {
            Outcome::Done => (
                State { stage: Stage::Clearing, ..state },
                Step::Run(Command::Write(Screen::Cleared)),
            ),
            _ => (State { stage: Stage::Reporting, ..state }, Step::Run(Command::Report)),
        },
        Stage::Reporting => (
            State { stage: Stage::Clearing, ..state },
            Step::Run(Command::Write(Screen::Cleared)),
        ),
        Stage::Clearing => (State { stage: Stage::Released, ..state }, Step::Released),
        Stage::Released => (state, Step::Released),
        Stage::Failed(error) => (state, Step::Failed(error)),
    }
}

/// The state after the session is told to end, and what it comes to.
///
/// A session that may have reached raw mode sets the attributes found at the
/// start. One that has not, has nothing to restore and is over. One that is
/// already ending goes on as it was.
pub open spec fn ended(state: State) -> (State, Step) {
    match state.stage {
        Stage::Applying | Stage::Entering | Stage::Active => (
            State { stage: Stage::Restoring, ..state },
            Step::Run(Command::Apply(state.saved)),
        ),
        Stage::Querying | Stage::Failed(_) | Stage::Released => (
            State { stage: Stage::Released, ..state },
            Step::Released,
        ),
        Stage::Aborting | Stage::Restoring => (state, Step::Run(Command::Apply(state.saved))),
        Stage::Reporting => (state, Step::Run(Command::Report)),
        Stage::Clearing => (state, Step::Run(Command::Write(Screen::Cleared))),
    }
}

/// Once the attributes have been read, nothing that happens to a session
/// changes what it holds as the attributes found at the start.
pub proof fn lemma_saved_kept(state: State, outcome: Outcome)
    requires
        state.stage != Stage::Querying,
    ensures
        next(state, outcome).0.saved == state.saved,
        ended(state).0.saved == state.saved,
{
}

/// A session that has put the terminal into raw mode keeps it there or asks
/// for the attributes found at the start to be set: it does not fail, and it
/// is not over, before it has asked for that. Told to end, it asks for it at
/// once, and so does a session that was still waiting to hear whether raw
/// mode was reached.
pub proof fn lemma_restores(state: State, outcome: Outcome)
    requires
        altered(state.stage) || state.stage == Stage::Applying,
    ensures
        altered(state.stage) ==> next(state, outcome).1 == Step::Ready || next(state, outcome).1
            == Step::Run(Command::Apply(state.saved)),
        altered(state.stage) ==> (next(state, outcome).1 == Step::Ready <==> altered(
            next(state, outcome).0.stage,
        )),
        ended(state).1 == Step::Run(Command::Apply(state.saved)),
{
}

/// Whatever comes of restoring the terminal, the end of a session is never
/// a failure: a session that was told to end comes to be released within
/// three outcomes, and on the way asks only for a report and for the screen
/// to be cleared.
pub proof fn lemma_release_completes(state: State, first: Outcome, second: Outcome, third: Outcome)
    requires
        altered(state.stage) || state.stage == Stage::Applying,
    ensures
        ({
            let restoring = ended(state).0;
            let (one, step_one) = next(restoring, first);
            let (two, step_two) = next(one, second);
            let (three, step_three) = next(two, third);
            &&& !(step_one is Failed) && !(step_two is Failed) && !(step_three is Failed)
            &&& first == Outcome::Done ==> step_one == Step::Run(Command::Write(Screen::Cleared))
                && step_two == Step::Released
            &&& first != Outcome::Done ==> step_one == Step::Run(Command::Report) && step_two
                == Step::Run(Command::Write(Screen::Cleared)) && step_three == Step::Released
            &&& three.stage == Stage::Released
        }),
{
}

/// The state of a session that has just been told to begin.
pub open spec fn begun(flags: Flags) -> State {
    State {
        flags,
        saved: Attributes { input_flags: 0, local_flags: 0, min_bytes: 0, timeout: 0 },
        stage: Stage::Querying,
    }
}

/// A terminal session. It is made by `init`, moved on by `step` with the
/// outcome of each command, and ended by `release`.
pub struct Handle {
    state: State,
}

impl View for Handle {
    type V = State;

    closed spec fn view(&self) -> State {
        self.state
    }
}

/// Begins a session on a terminal whose flags have the given bits. The first
/// thing to do is to read the terminal's attributes.
pub fn init(flags: Flags) -> (begin: (Handle, Command))
    ensures
        begin.0@ == begun(flags),
        begin.1 == Command::Query,
{
    let saved = Attributes { input_flags: 0, local_flags: 0, min_bytes: 0, timeout: 0 };
    (Handle { state: State { flags, saved, stage: Stage::Querying } }, Command::Query)
}

impl Handle {
    /// The attributes found at the start, once they have been read.
    pub fn saved(&self) -> (found: Attributes)
        ensures
            found == self@.saved,
    {
        self.state.saved
    }

    /// How far the session has come.
    pub fn stage(&self) -> (stage: Stage)
        ensures
            stage == self@.stage,
    {
        self.state.stage
    }

    /// Takes the outcome of the command that the session asked for last, and
    /// says what the session comes to.
    pub fn step(&mut self, outcome: Outcome) -> (step: Step)
        ensures
            (final(self)@, step) == next(old(self)@, outcome),
    {
        let state = self.state;
        match state.stage {
            Stage::Querying => match outcome {
                Outcome::Read(found) => {
                    self.state.saved = found;
                    self.state.stage = Stage::Applying;
                    Step::Run(Command::Apply(raw_mode(found, state.flags)))
                },
                Outcome::Unsupported => self.fail(SessionError::Unsupported),
                _ => self.fail(SessionError::QueryFailed),
            },
            Stage::Applying => match outcome {
                Outcome::Done => {
                    self.state.stage = Stage::Entering;
                    Step::Run(Command::Write(Screen::Alternate))
                },
                Outcome::Unsupported => self.fail(SessionError::Unsupported),
                _ => self.fail(SessionError::SetFailed),
            },
            Stage::Entering => match outcome {
                Outcome::Done => {
                    self.state.stage = Stage::Active;
                    Step::Ready
                },
                _ => {
                    self.state.stage = Stage::Aborting;
                    Step::Run(Command::Apply(state.saved))
                },
            },
            Stage::Active => Step::Ready,
            Stage::Aborting => self.fail(SessionError::WriteFailed),
            Stage::Restoring => match outcome {
                Outcome::Done => {
                    self.state.stage = Stage::Clearing;
                    Step::Run(Command::Write(Screen::Cleared))
                },
                _ => {
                    self.state.stage = Stage::Reporting;
                    Step::Run(Command::Report)
                },
            },
            Stage::Reporting => {
                self.state.stage = Stage::Clearing;
                Step::Run(Command::Write(Screen::Cleared))
            },
            Stage::Clearing => {
                self.state.stage = Stage::Released;
                Step::Released
            },
            Stage::Released => Step::Released,
            Stage::Failed(error) => Step::Failed(error),
        }
    }

    /// Ends the session with an error.
    fn fail(&mut self, error: SessionError) -> (step: Step)
        ensures
            final(self)@ == (State { stage: Stage::Failed(error), ..old(self)@ }),
            step == Step::Failed(error),
    {
        self.state.stage = Stage::Failed(error);
        Step::Failed(error)
    }

    /// Tells the session to end, and says what it comes to.
    pub fn release(&mut self) -> (step: Step)
        ensures
            (final(self)@, step) == ended(old(self)@),
    {
        let state = self.state;
        match state.stage {
            Stage::Applying | Stage::Entering | Stage::Active => {
                self.state.stage = Stage::Restoring;
                Step::Run(Command::Apply(state.saved))
            },
            Stage::Querying | Stage::Failed(_) | Stage::Released => {
                self.state.stage = Stage::Released;
                Step::Released
            },
            Stage::Aborting | Stage::Restoring => Step::Run(Command::Apply(state.saved)),
            Stage::Reporting => Step::Run(Command::Report),
            Stage::Clearing => Step::Run(Command::Write(Screen::Cleared)),
        }
    }
}

} // verus!

//! One process from its start to its end: which state follows which
//! event, what is to be done next, and how the run concludes.

use vstd::prelude::*;
use crate::execution_error::{ErrorKind, ExecutionError};
use crate::text::chars::{from_chars, views};
use crate::text::decimal::{seconds_chars, seconds_text};
use crate::text::lines::{join_texts, joined};

verus! {

/// Where a process stands.
#[derive(Clone, Copy, Debug, PartialEq, Eq, Structural)]
pub enum ProcessState {
    /// The process is being started.
    Spawning,
    /// The process runs.
    Running,
    /// The process ended with success.
    Completed,
    /// The process did not end within the time that it was allowed:
    /// `seconds` seconds and `nanos` billionths of a second.
    TimedOut { seconds: u64, nanos: u32 },
    /// The system could not start the process, or could not wait for it.
    SpawnFailed,
    /// The process ended without success.
    NonZeroExit,
}

/// What happened to a process.
#[derive(Clone, Copy, Debug, PartialEq, Eq, Structural)]
pub enum ProcessEvent {
    /// The process was started.
    Spawned,
    /// The process could not be started.
    SpawnFailed,
    /// The process ended, with or without success.
    Exited { success: bool },
    /// The system could not wait for the process.
    WaitFailed,
    /// The time allowed for the process is over: `seconds` seconds and
    /// `nanos` billionths of a second.
    TimeoutElapsed { seconds: u64, nanos: u32 },
}

/// What the engine does next.
#[derive(Clone, Copy, Debug, PartialEq, Eq, Structural)]
pub enum ProcessAction {
    /// Read both output streams line by line, and wait until the process
    /// ends or its time is over.
    AwaitExit,
    /// Wait until both streams have been read to their end, then conclude.
    DrainOutput,
    /// Stop waiting for the process, end it, then conclude.
    StopProcess,
    /// Conclude: there is no process.
    Conclude,
    /// Nothing: the event does not concern this state.
    Ignore,
}

/// The lines that a process wrote, in the order in which it wrote them, for
/// each of its two streams. Lines are added at the end and never change.
#[derive(Debug)]
pub struct CapturedOutput {
    stdout: Vec<String>,
    stderr: Vec<String>,
}

/// The states in which a process has come to its end.
pub open spec fn is_terminal(state: ProcessState) -> bool {
    state != ProcessState::Spawning && state != ProcessState::Running
}

/// The events that end a running process.
pub open spec fn ends_a_run(event: ProcessEvent) -> bool {
    event is Exited || event is WaitFailed || event is TimeoutElapsed
}

/// The state that follows `state` on `event`, and what is to be done
/// then. A process that is being started is running once it has started,
/// and has failed if it could not be. A running process completes when it
/// ends with success, fails when it ends without or the system cannot
/// wait for it, and has timed out when its time is over first. Nothing
/// follows a state in which the process has come to its end.
pub open spec fn spec_step(state: ProcessState, event: ProcessEvent) -> (
    ProcessState,
    ProcessAction,
) {
    match (state, event) {
        (ProcessState::Spawning, ProcessEvent::Spawned) => (
            ProcessState::Running,
            ProcessAction::AwaitExit,
        ),
        (ProcessState::Spawning, ProcessEvent::SpawnFailed) => (
            ProcessState::SpawnFailed,
            ProcessAction::Conclude,
        ),
        (ProcessState::Running, ProcessEvent::Exited { success }) => if success {
            (ProcessState::Completed, ProcessAction::DrainOutput)
        } else {
            (ProcessState::NonZeroExit, ProcessAction::DrainOutput)
        },
        (ProcessState::Running, ProcessEvent::WaitFailed) => (
            ProcessState::SpawnFailed,
            ProcessAction::StopProcess,
        ),
        (ProcessState::Running, ProcessEvent::TimeoutElapsed { seconds, nanos }) => (
            ProcessState::TimedOut { seconds, nanos },
            ProcessAction::StopProcess,
        ),
        _ => (state, ProcessAction::Ignore),
    }
}

/// The message of a run that took longer than the `seconds` seconds and
/// `nanos` billionths of a second that it was allowed. It names that time
/// in seconds, with the part of a second behind a point where there is
/// one.
pub open spec fn spec_timeout_message(seconds: u64, nanos: u32) -> Seq<char> {
    "process timed out after "@ + seconds_text(seconds as nat, nanos as nat) + "[s]"@
}

/// How a run concludes in `state`: with the lines of the output stream
/// where the process completed, else with one error. A process that ended
/// without success fails with all it wrote to its error stream, one line
/// below the other; one whose time was over, with a message that names
/// the time it was allowed; one that the system could not start or
/// wait for, with the `system_error` that the system gave. `None` while
/// the process has not come to its end.
pub open spec fn spec_conclude(
    state: ProcessState,
    stdout: Seq<Seq<char>>,
    stderr: Seq<Seq<char>>,
    system_error: Seq<char>,
) -> Option<Result<Seq<Seq<char>>, (ErrorKind, Seq<char>)>> {
    match state {
        ProcessState::Spawning | ProcessState::Running => None,
        ProcessState::Completed => Some(Ok(stdout)),
        ProcessState::NonZeroExit => Some(
            Err((ErrorKind::NonZeroExit, joined(stderr, seq!['\n']))),
        ),
        ProcessState::TimedOut { seconds, nanos } => Some(
            Err((ErrorKind::Timeout, spec_timeout_message(seconds, nanos))),
        ),
        ProcessState::SpawnFailed => Some(Err((ErrorKind::Spawn, system_error))),
    }
}

/// What a conclusion says, without the strings that carry it.
pub open spec fn conclusion_view(
    conclusion: Option<Result<Vec<String>, ExecutionError>>,
) -> Option<Result<Seq<Seq<char>>, (ErrorKind, Seq<char>)>> {
    match conclusion {
        None => None,
        Some(Ok(lines)) => Some(Ok(views(lines@))),
        Some(Err(error)) => Some(Err((error.kind, error.message@))),
    }
}

impl CapturedOutput {
    /// The lines of the output stream so far.
    pub closed spec fn stdout_lines(&self) -> Seq<Seq<char>> {
        views(self.stdout@)
    }

    /// The lines of the error stream so far.
    pub closed spec fn stderr_lines(&self) -> Seq<Seq<char>> {
        views(self.stderr@)
    }

    /// No lines yet.
    pub fn new() -> (r: Self)
        ensures
            r.stdout_lines() == Seq::<Seq<char>>::empty(),
            r.stderr_lines() == Seq::<Seq<char>>::empty(),
    {
        let r = CapturedOutput { stdout: Vec::new(), stderr: Vec::new() };
        assert(r.stdout_lines() =~= Seq::<Seq<char>>::empty());
        assert(r.stderr_lines() =~= Seq::<Seq<char>>::empty());
        r
    }

    /// Adds a line that the process wrote to its output stream.
    pub fn push_stdout(&mut self, line: String)
        ensures
            final(self).stdout_lines() == old(self).stdout_lines().push(line@),
            final(self).stderr_lines() == old(self).stderr_lines(),
    {
        self.stdout.push(line);
        assert(views(self.stdout@) =~= views(old(self).stdout@).push(line@));
    }

    /// Adds a line that the process wrote to its error stream.
    pub fn push_stderr(&mut self, line: String)
        ensures
            final(self).stderr_lines() == old(self).stderr_lines().push(line@),
            final(self).stdout_lines() == old(self).stdout_lines(),
    {
        self.stderr.push(line);
        assert(views(self.stderr@) =~= views(old(self).stderr@).push(line@));
    }

    /// The lines of the output stream so far.
    pub fn stdout(&self) -> (r: &Vec<String>)
        ensures
            views(r@) == self.stdout_lines(),
    {
        &self.stdout
    }

    /// The lines of the error stream so far.
    pub fn stderr(&self) -> (r: &Vec<String>)
        ensures
            views(r@) == self.stderr_lines(),
    {
        &self.stderr
    }

    /// The two streams, the output stream first.
    pub fn into_streams(self) -> (r: (Vec<String>, Vec<String>))
        ensures
            views(r.0@) == self.stdout_lines(),
            views(r.1@) == self.stderr_lines(),
    {
        (self.stdout, self.stderr)
    }
}

/// The state that follows `state` on `event`, and what is to be done then.
pub fn step(state: ProcessState, event: ProcessEvent) -> (r: (ProcessState, ProcessAction))
    ensures
        r == spec_step(state, event),
{
    match state {
        ProcessState::Spawning => match event {
            ProcessEvent::Spawned => (ProcessState::Running, ProcessAction::AwaitExit),
            ProcessEvent::SpawnFailed => (ProcessState::SpawnFailed, ProcessAction::Conclude),
            _ => (state, ProcessAction::Ignore),
        },
        ProcessState::Running => match event {
            ProcessEvent::Exited { success } => if success {
                (ProcessState::Completed, ProcessAction::DrainOutput)
            } else {
                (ProcessState::NonZeroExit, ProcessAction::DrainOutput)
            },
            ProcessEvent::WaitFailed => (ProcessState::SpawnFailed, ProcessAction::StopProcess),
            ProcessEvent::TimeoutElapsed { seconds, nanos } => (
                ProcessState::TimedOut { seconds, nanos },
                ProcessAction::StopProcess,
            ),
            _ => (state, ProcessAction::Ignore),
        },
        _ => (state, ProcessAction::Ignore),
    }
}

/// The message of a run that took longer than the `seconds` seconds and
/// `nanos` billionths of a second that it was allowed.
pub fn timeout_message(seconds: u64, nanos: u32) -> (r: String)
    ensures
        r@ == spec_timeout_message(seconds, nanos),
{
    let mut out = String::from_str("process timed out after ");
    let number = from_chars(&seconds_chars(seconds, nanos));
    out.append(number.as_str());
    out.append("[s]");
    out
}

/// How a run concludes in `state`, given what the process wrote and what
/// the system said when it could not start the process or wait for it.
pub fn conclude(state: ProcessState, output: CapturedOutput, system_error: &str) -> (r: Option<
    Result<Vec<String>, ExecutionError>,
>)
    ensures
        conclusion_view(r) == spec_conclude(
            state,
            output.stdout_lines(),
            output.stderr_lines(),
            system_error@,
        ),
        r matches Some(Err(error)) ==> error.code is None,
{
    match state {
        ProcessState::Spawning | ProcessState::Running => None,
        ProcessState::Completed => {
            let streams = output.into_streams();
            Some(Ok(streams.0))
        },
        ProcessState::NonZeroExit => {
            let mut newline = String::new();
            newline.push('\n');
            assert(newline@ == seq!['\n']);
            let message = join_texts(output.stderr(), newline.as_str());
            Some(Err(ExecutionError::new(ErrorKind::NonZeroExit, message, None)))
        },
        ProcessState::TimedOut { seconds, nanos } => Some(
            Err(ExecutionError::new(ErrorKind::Timeout, timeout_message(seconds, nanos), None)),
        ),
        ProcessState::SpawnFailed => Some(
            Err(ExecutionError::new(ErrorKind::Spawn, String::from_str(system_error), None)),
        ),
    }
}

/// A process that has come to its end stays as it is, whatever happens.
pub proof fn lemma_terminal_states_stay(state: ProcessState, event: ProcessEvent)
    requires
        is_terminal(state),
    ensures
        spec_step(state, event) == (state, ProcessAction::Ignore),
{
}

/// From its start a process comes to its end in two events at most: the
/// one that tells whether it started, and one that ends its run.
pub proof fn lemma_two_events_end_a_process(first: ProcessEvent, second: ProcessEvent)
    requires
        first == ProcessEvent::Spawned || first == ProcessEvent::SpawnFailed,
        ends_a_run(second),
    ensures
        is_terminal(spec_step(spec_step(ProcessState::Spawning, first).0, second).0),
{
}

/// A run concludes exactly when its process has come to its end.
pub proof fn lemma_conclusion_needs_the_end(
    state: ProcessState,
    stdout: Seq<Seq<char>>,
    stderr: Seq<Seq<char>>,
    system_error: Seq<char>,
)
    ensures
        spec_conclude(state, stdout, stderr, system_error) is Some == is_terminal(state),
{
}

} // verus!

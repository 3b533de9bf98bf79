//! The invocation protocol: the error taxonomy, the state machine that
//! classifies the outcome of one external-tool invocation, and the rendering
//! of errors into human-readable messages.
//!
//! The external tool writes its status text to the console device, so the
//! application runs it through a shell with the output redirected into a
//! temporary log file, then reads that file back. All decisions along that
//! path — fail before spawning when the tool is missing, fail when no
//! temporary directory could be made, fail when the shell could not be
//! launched, and classify the read log lines by the exit status — are made
//! here, by [`advance`], one verified step per event the application
//! observes. The application only performs the file system and process work
//! and feeds each observation back in.

use vstd::prelude::*;
use vstd::string::StringExecFns;

use crate::text::{dec_int, i32_to_dec, join_sep, join_with, views_of};

verus! {

/// Contains errors raised as a result of an operation using
/// a [`crate::Wrapper`]. Every variant carries the fully composed command
/// line for diagnostics.
#[derive(Debug, Clone, PartialEq, Eq)]
pub enum WrapperErr {
    /// Raised when no external tool is found at the path given to the wrapper.
    LunarMagicMissing { command: String },
    /// Raised when an operation by the external tool fails: the process ran
    /// and its log was read, but it reported a non-success exit status.
    /// Carries the exit code, when the OS reported one, and the captured
    /// output lines.
    Operation { code: Option<i32>, command: String, output: Vec<String> },
    /// Raised when the underlying command couldn't be executed by the OS.
    FailedToExecute { command: String },
    /// Raised when no temp file for logging the external tool's output was
    /// found after the process ran.
    NoTempFile { command: String },
    /// Raised when no temporary directory to keep the log file could be
    /// created.
    NoTempDir { command: String },
}

/// Result of invoking an operation through a [`crate::Wrapper`].
///
/// Contains the text output of the external tool if the operation succeeded
/// or a [`WrapperErr`] otherwise.
pub type ResultL = Result<Vec<String>, WrapperErr>;

/// What the OS reported of a process that did launch.
#[derive(Debug, Clone, Copy, PartialEq, Eq, Structural)]
pub struct ExitInfo {
    /// Whether the process exited successfully.
    pub success: bool,
    /// The exit code, when one was available.
    pub code: Option<i32>,
}

/// The stations of one invocation, in the order the protocol visits them.
#[derive(Debug, Clone, Copy, PartialEq, Eq, Structural)]
pub enum Phase {
    /// Nothing has been checked yet.
    NotStarted,
    /// The tool executable was found on disk.
    ToolChecked,
    /// A fresh temporary directory for the log file exists.
    TempDirCreated,
    /// The shell-wrapped process ran to completion with this exit status.
    ProcessLaunched { success: bool, code: Option<i32> },
}

/// One observation the application hands back to the state machine.
#[derive(Debug, Clone, PartialEq, Eq)]
pub enum Event {
    /// Whether the configured tool path exists on disk.
    ToolFound { exists: bool },
    /// Whether a fresh temporary directory could be created.
    TempDirMade { created: bool },
    /// The exit status of the shell-wrapped process, or `None` when the OS
    /// could not launch it at all.
    LaunchDone { exit: Option<ExitInfo> },
    /// The lines of the temporary log file, or `None` when it could not be
    /// opened for reading.
    LogRead { lines: Option<Vec<String>> },
}

/// What one step of the machine yields: either the next phase, or the final
/// result of the invocation.
#[derive(Debug, PartialEq, Eq)]
pub enum Advance {
    Next(Phase),
    Done(ResultL),
}

/// Which event each phase waits for: the protocol checks the tool first,
/// then makes the temporary directory, then launches, then reads the log.
pub open spec fn expects(phase: Phase, event: Event) -> bool {
    match (phase, event) {
        (Phase::NotStarted, Event::ToolFound { .. }) => true,
        (Phase::ToolChecked, Event::TempDirMade { .. }) => true,
        (Phase::TempDirCreated, Event::LaunchDone { .. }) => true,
        (Phase::ProcessLaunched { .. }, Event::LogRead { .. }) => true,
        _ => false,
    }
}

/// The transition function of the invocation protocol. A failed check
/// short-circuits to a terminal result carrying the full command line; on
/// the last step the log lines are returned as the success value when the
/// exit status was a success, and inside [`WrapperErr::Operation`], together
/// with the exit code, when it was not. A mismatched phase/event pair leaves
/// the phase unchanged; [`advance`] never admits one.
pub open spec fn spec_advance(phase: Phase, event: Event, command: String) -> Advance {
    match (phase, event) {
        (Phase::NotStarted, Event::ToolFound { exists }) => if exists {
            Advance::Next(Phase::ToolChecked)
        } else {
            Advance::Done(Err(WrapperErr::LunarMagicMissing { command }))
        },
        (Phase::ToolChecked, Event::TempDirMade { created }) => if created {
            Advance::Next(Phase::TempDirCreated)
        } else {
            Advance::Done(Err(WrapperErr::NoTempDir { command }))
        },
        (Phase::TempDirCreated, Event::LaunchDone { exit }) => match exit {
            Some(info) => Advance::Next(
                Phase::ProcessLaunched { success: info.success, code: info.code },
            ),
            None => Advance::Done(Err(WrapperErr::FailedToExecute { command })),
        },
        (Phase::ProcessLaunched { success, code }, Event::LogRead { lines }) => match lines {
            None => Advance::Done(Err(WrapperErr::NoTempFile { command })),
            Some(output) => if success {
                Advance::Done(Ok(output))
            } else {
                Advance::Done(Err(WrapperErr::Operation { code, command, output }))
            },
        },
        _ => Advance::Next(phase),
    }
}

/// Performs one step of the invocation protocol: from the current phase and
/// the observation the application made, decide the next phase or the final
/// result. The application performs no classification of its own.
pub fn advance(phase: Phase, event: Event, command: String) -> (r: Advance)
    requires
        expects(phase, event),
    ensures
        r == spec_advance(phase, event, command),
{
    match phase {
        Phase::NotStarted => match event {
            Event::ToolFound { exists } => if exists {
                Advance::Next(Phase::ToolChecked)
            } else {
                Advance::Done(Err(WrapperErr::LunarMagicMissing { command }))
            },
            _ => {
                proof {
                    assert(false);
                }
                vstd::pervasive::unreached()
            },
        },
        Phase::ToolChecked => match event {
            Event::TempDirMade { created } => if created {
                Advance::Next(Phase::TempDirCreated)
            } else {
                Advance::Done(Err(WrapperErr::NoTempDir { command }))
            },
            _ => {
                proof {
                    assert(false);
                }
                vstd::pervasive::unreached()
            },
        },
        Phase::TempDirCreated => match event {
            Event::LaunchDone { exit } => match exit {
                Some(info) => Advance::Next(
                    Phase::ProcessLaunched { success: info.success, code: info.code },
                ),
                None => Advance::Done(Err(WrapperErr::FailedToExecute { command })),
            },
            _ => {
                proof {
                    assert(false);
                }
                vstd::pervasive::unreached()
            },
        },
        Phase::ProcessLaunched { success, code } => match event {
            Event::LogRead { lines } => match lines {
                None => Advance::Done(Err(WrapperErr::NoTempFile { command })),
                Some(output) => if success {
                    Advance::Done(Ok(output))
                } else {
                    Advance::Done(Err(WrapperErr::Operation { code, command, output }))
                },
            },
            _ => {
                proof {
                    assert(false);
                }
                vstd::pervasive::unreached()
            },
        },
    }
}

/// The result of running the machine from `phase` through `events` in order:
/// the terminal result as soon as one step yields it, later events ignored;
/// `Advance::Next` of the phase reached when the events run out first.
pub open spec fn machine_result(phase: Phase, events: Seq<Event>, command: String) -> Advance
    decreases events.len(),
{
    if events.len() == 0 {
        Advance::Next(phase)
    } else {
        match spec_advance(phase, events[0], command) {
            Advance::Next(next) => machine_result(next, events.drop_first(), command),
            done => done,
        }
    }
}

/// A missing tool ends the invocation at once: whatever observations would
/// have followed, the result is `LunarMagicMissing` with the attempted
/// command line, and the machine never reaches the launch step — no process
/// is spawned.
pub proof fn lemma_missing_tool_short_circuits(events: Seq<Event>, command: String)
    requires
        events.len() >= 1,
        events[0] == (Event::ToolFound { exists: false }),
    ensures
        machine_result(Phase::NotStarted, events, command) == Advance::Done(
            Err(WrapperErr::LunarMagicMissing { command }),
        ),
{
}

/// The line handed to the shell: the full command with its console output
/// redirected into the log file.
pub fn shell_line(command: &str, log_path: &str) -> (r: String)
    ensures
        r@ == command@ + " > "@ + log_path@,
{
    let mut r = String::from_str(command);
    r.append(" > ");
    r.append(log_path);
    proof {
        assert(r@ =~= command@ + " > "@ + log_path@);
    }
    r
}

/// The human-readable message for each error, over the payload it carries.
pub open spec fn rendered_message(e: WrapperErr) -> Seq<char> {
    match e {
        WrapperErr::LunarMagicMissing { command } => "Lunar Magic not found while performing operation '"@
            + command@ + "'"@,
        WrapperErr::Operation { code, command, output } => match code {
            Some(c) => "Lunar Magic returned with error code "@ + dec_int(c as int)
                + " while performing operation '"@ + command@
                + "' with the following output:\n\t"@ + join_sep(views_of(output@), "\n\t"@),
            None => "Lunar Magic failed while performing operation '"@ + command@
                + "' with the following output:\n\t"@ + join_sep(views_of(output@), "\n\t"@),
        },
        WrapperErr::FailedToExecute { command } => "Failed to execute Lunar Magic while attempting to perform operation '"@
            + command@ + "'"@,
        WrapperErr::NoTempDir { command } => "Failed to create temporary folder while attempting to perform operation '"@
            + command@ + "'"@,
        WrapperErr::NoTempFile { command } => "Failed to read temporary log file while attempting to perform operation '"@
            + command@ + "'"@,
    }
}

impl WrapperErr {
    /// Renders the error as a human-readable message carrying the command
    /// line and, for a failed operation, the exit code and the captured
    /// output lines.
    pub fn message(&self) -> (r: String)
        ensures
            r@ == rendered_message(*self),
    {
        match self {
            WrapperErr::LunarMagicMissing { command } => {
                let mut r = String::from_str(
                    "Lunar Magic not found while performing operation '",
                );
                r.append(command.as_str());
                r.append("'");
                proof {
                    assert(r@ =~= rendered_message(*self));
                }
                r
            },
            WrapperErr::Operation { code, command, output } => {
                let mut r = match code {
                    Some(c) => {
                        let mut r = String::from_str(
                            "Lunar Magic returned with error code ",
                        );
                        let digits = i32_to_dec(*c);
                        r.append(digits.as_str());
                        r.append(" while performing operation '");
                        r
                    },
                    None => String::from_str(
                        "Lunar Magic failed while performing operation '",
                    ),
                };
                r.append(command.as_str());
                r.append("' with the following output:\n\t");
                let joined = join_with(output, "\n\t");
                r.append(joined.as_str());
                proof {
                    assert(r@ =~= rendered_message(*self));
                }
                r
            },
            WrapperErr::FailedToExecute { command } => {
                let mut r = String::from_str(
                    "Failed to execute Lunar Magic while attempting to perform operation '",
                );
                r.append(command.as_str());
                r.append("'");
                proof {
                    assert(r@ =~= rendered_message(*self));
                }
                r
            },
            WrapperErr::NoTempDir { command } => {
                let mut r = String::from_str(
                    "Failed to create temporary folder while attempting to perform operation '",
                );
                r.append(command.as_str());
                r.append("'");
                proof {
                    assert(r@ =~= rendered_message(*self));
                }
                r
            },
            WrapperErr::NoTempFile { command } => {
                let mut r = String::from_str(
                    "Failed to read temporary log file while attempting to perform operation '",
                );
                r.append(command.as_str());
                r.append("'");
                proof {
                    assert(r@ =~= rendered_message(*self));
                }
                r
            },
        }
    }
}

} // verus!

//! The session: the working directory, and what follows from each action
//! once the operating system has answered.

use vstd::prelude::*;
use crate::command::{Action, ActionView, ShellError, ShellErrorView};

verus! {

/// The status of a command that was carried out.
pub const STATUS_SUCCESS: i32 = 1;

/// The status of a command that was not carried out.
pub const STATUS_FAILURE: i32 = 0;

/// The status with which the shell ends when it can no longer observe the
/// programs that it starts.
pub const FATAL_CODE: i32 = 1;

/// What the operating system answered when the caller tried to carry out an
/// action.
#[derive(Debug, Clone, PartialEq, Eq)]
pub enum Reply {
    /// It was carried out; `cwd` is the working directory that the operating
    /// system reports afterwards, resolved.
    Done { cwd: String },
    /// It was refused: the directory could not be entered or the program
    /// could not be started. `message` describes the failure.
    Refused { message: String },
    /// The program was started, but waiting for its end failed.
    WaitFailed { recoverable: bool },
}

/// `Reply` over sequences of characters.
pub enum ReplyView {
    Done { cwd: Seq<char> },
    Refused { message: Seq<char> },
    WaitFailed { recoverable: bool },
}

impl View for Reply {
    type V = ReplyView;

    open spec fn view(&self) -> ReplyView {
        match *self {
            Reply::Done { cwd } => ReplyView::Done { cwd: cwd@ },
            Reply::Refused { message } => ReplyView::Refused { message: message@ },
            Reply::WaitFailed { recoverable } => ReplyView::WaitFailed { recoverable },
        }
    }
}

/// How the shell goes on after a command line.
#[derive(Debug, Clone, Copy, PartialEq, Eq)]
pub enum Next {
    /// Prompt for the next line; `status` is the status of this one.
    Prompt { status: i32 },
    /// End the shell with status `code`.
    Terminate { code: i32 },
}

/// What is to be shown for a command line, and how the shell goes on.
#[derive(Debug, Clone, PartialEq, Eq)]
pub struct Outcome {
    /// A line for standard output.
    pub output: Option<String>,
    /// What went wrong, to be reported on the error stream.
    pub error: Option<ShellError>,
    /// Whether the shell prompts again or ends.
    pub next: Next,
}

/// `Outcome` over sequences of characters.
pub struct OutcomeView {
    pub output: Option<Seq<char>>,
    pub error: Option<ShellErrorView>,
    pub next: Next,
}

impl View for Outcome {
    type V = OutcomeView;

    open spec fn view(&self) -> OutcomeView {
        OutcomeView {
            output: match self.output {
                Some(text) => Some(text@),
                None => None,
            },
            error: match self.error {
                Some(error) => Some(error@),
                None => None,
            },
            next: self.next,
        }
    }
}

/// Nothing to show; prompt again.
pub open spec fn quiet() -> OutcomeView {
    OutcomeView { output: None, error: None, next: Next::Prompt { status: STATUS_SUCCESS } }
}

/// The command was not carried out: report why, and prompt again.
pub open spec fn failed(error: ShellErrorView) -> OutcomeView {
    OutcomeView { output: None, error: Some(error), next: Next::Prompt { status: STATUS_FAILURE } }
}

/// Waiting for a program failed: report it, and prompt again if the shell
/// can go on, else end it.
pub open spec fn wait_failed(recoverable: bool) -> OutcomeView {
    if recoverable {
        failed(ShellErrorView::WaitFailed)
    } else {
        OutcomeView {
            output: None,
            error: Some(ShellErrorView::WaitFailed),
            next: Next::Terminate { code: FATAL_CODE },
        }
    }
}

/// The working directory after `action` was answered by `reply`: the
/// directory that was entered, if one was, else the one before.
pub open spec fn next_dir(cwd: Seq<char>, action: ActionView, reply: ReplyView) -> Seq<char> {
    match (action, reply) {
        (ActionView::ChangeDir { .. }, ReplyView::Done { cwd: resolved }) => resolved,
        _ => cwd,
    }
}

/// What follows when `action` was answered by `reply`. Where the action
/// needs nothing from the operating system, the reply does not matter.
pub open spec fn outcome_of(action: ActionView, reply: ReplyView) -> OutcomeView {
    match action {
        ActionView::Reprompt => quiet(),
        ActionView::Print { text } => OutcomeView {
            output: Some(text),
            error: None,
            next: Next::Prompt { status: STATUS_SUCCESS },
        },
        ActionView::Exit { code } => OutcomeView {
            output: None,
            error: None,
            next: Next::Terminate { code },
        },
        ActionView::ChangeDir { .. } => match reply {
            ReplyView::Done { .. } => quiet(),
            ReplyView::Refused { message } => failed(ShellErrorView::InvalidDirectory { message }),
            ReplyView::WaitFailed { recoverable } => wait_failed(recoverable),
        },
        ActionView::Spawn { name, .. } => match reply {
            ReplyView::Done { .. } => quiet(),
            ReplyView::Refused { .. } => failed(ShellErrorView::CommandNotFound { name }),
            ReplyView::WaitFailed { recoverable } => wait_failed(recoverable),
        },
    }
}

/// No further line can be read: the shell ends, with status 0 where the
/// input simply came to its end, and as after a fatal failure where reading
/// failed.
pub open spec fn input_ended(clean: bool) -> OutcomeView {
    OutcomeView {
        output: None,
        error: None,
        next: Next::Terminate { code: if clean { 0 } else { FATAL_CODE } },
    }
}

impl Outcome {
    /// What follows when no line could be read: `clean` tells whether the
    /// input came to its end, or reading it failed.
    pub fn end_of_input(clean: bool) -> (outcome: Outcome)
        ensures
            outcome@ == input_ended(clean),
    {
        let code: i32 = if clean { 0 } else { FATAL_CODE };
        Outcome { output: None, error: None, next: Next::Terminate { code } }
    }

    /// The outcome of a line that could not be turned into an action.
    pub fn failure(error: ShellError) -> (outcome: Outcome)
        ensures
            outcome@ == failed(error@),
    {
        Outcome { output: None, error: Some(error), next: Next::Prompt { status: STATUS_FAILURE } }
    }
}

/// The state of one shell session.
#[derive(Debug, Clone, PartialEq, Eq)]
pub struct Session {
    /// The working directory, which every program that is started inherits.
    pub cwd: String,
}

impl Session {
    /// A session that starts in `cwd`.
    pub fn new(cwd: String) -> (session: Session)
        ensures
            session.cwd == cwd,
    {
        Session { cwd }
    }

    /// The working directory.
    pub fn working_dir(&self) -> (dir: &str)
        ensures
            dir@ == self.cwd@,
    {
        self.cwd.as_str()
    }

    /// Takes note of what came of `action`. Only a `cd` that was carried out
    /// changes the working directory. A failure is reported and the shell
    /// prompts again; it ends only on `exit`, or when waiting for a program
    /// failed beyond recovery.
    pub fn settle(&mut self, action: &Action, reply: Reply) -> (outcome: Outcome)
        ensures
            final(self).cwd@ == next_dir(old(self).cwd@, action@, reply@),
            outcome@ == outcome_of(action@, reply@),
    {
        let quiet = Outcome {
            output: None,
            error: None,
            next: Next::Prompt { status: STATUS_SUCCESS },
        };
        match action {
            Action::Reprompt => quiet,
            Action::Print { text } => Outcome {
                output: Some(text.clone()),
                error: None,
                next: Next::Prompt { status: STATUS_SUCCESS },
            },
            Action::Exit { code } => Outcome {
                output: None,
                error: None,
                next: Next::Terminate { code: *code },
            },
            Action::ChangeDir { .. } => match reply {
                Reply::Done { cwd } => {
                    self.cwd = cwd;
                    quiet
                },
                Reply::Refused { message } => Outcome::failure(
                    ShellError::InvalidDirectory { message },
                ),
                Reply::WaitFailed { recoverable } => Self::wait_failure(recoverable),
            },
            Action::Spawn { name, .. } => match reply {
                Reply::Done { .. } => quiet,
                Reply::Refused { .. } => Outcome::failure(
                    ShellError::CommandNotFound { name: name.clone() },
                ),
                Reply::WaitFailed { recoverable } => Self::wait_failure(recoverable),
            },
        }
    }

    fn wait_failure(recoverable: bool) -> (outcome: Outcome)
        ensures
            outcome@ == wait_failed(recoverable),
    {
        if recoverable {
            Outcome::failure(ShellError::WaitFailed)
        } else {
            Outcome {
                output: None,
                error: Some(ShellError::WaitFailed),
                next: Next::Terminate { code: FATAL_CODE },
            }
        }
    }
}

} // verus!

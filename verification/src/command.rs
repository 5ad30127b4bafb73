//! Deciding what a command line asks for.

use vstd::prelude::*;
use vstd::string::StringExecFns;
use crate::tokenizer::words_of;

verus! {

/// The status with which the shell ends on `exit`.
pub const EXIT_CODE: i32 = 0;

/// The name of the built-in that changes the working directory.
pub open spec fn cd_name() -> Seq<char> {
    "cd"@
}

/// The name of the built-in that prints the help text.
pub open spec fn help_name() -> Seq<char> {
    "help"@
}

/// The name of the built-in that ends the shell.
pub open spec fn exit_name() -> Seq<char> {
    "exit"@
}

/// The text that `help` prints.
pub open spec fn help_text() -> Seq<char> {
    "HELP!"@
}

/// Why a command line was not carried out.
#[derive(Debug, Clone, PartialEq, Eq)]
pub enum ShellError {
    /// `cd` was given no directory.
    MissingArgument,
    /// The directory could not be entered; `message` is the operating
    /// system's description of the failure.
    InvalidDirectory { message: String },
    /// No program of this name could be started.
    CommandNotFound { name: String },
    /// The end of a started program could not be observed.
    WaitFailed,
}

/// `ShellError` over sequences of characters.
pub enum ShellErrorView {
    MissingArgument,
    InvalidDirectory { message: Seq<char> },
    CommandNotFound { name: Seq<char> },
    WaitFailed,
}

impl View for ShellError {
    type V = ShellErrorView;

    open spec fn view(&self) -> ShellErrorView {
        match *self {
            ShellError::MissingArgument => ShellErrorView::MissingArgument,
            ShellError::InvalidDirectory { message } => ShellErrorView::InvalidDirectory {
                message: message@,
            },
            ShellError::CommandNotFound { name } => ShellErrorView::CommandNotFound { name: name@ },
            ShellError::WaitFailed => ShellErrorView::WaitFailed,
        }
    }
}

/// What is said of `cd` without a directory.
pub open spec fn missing_argument_text() -> Seq<char> {
    "cd: missing argument"@
}

/// What is said, after its name, of a program that could not be started.
pub open spec fn not_found_text() -> Seq<char> {
    ": Command not found--Did you mean something else?"@
}

/// What is said of a program whose end could not be observed.
pub open spec fn wait_failed_text() -> Seq<char> {
    "Can not wait for child to complete."@
}

/// The line that tells the user of `error`.
pub open spec fn message_of(error: ShellErrorView) -> Seq<char> {
    match error {
        ShellErrorView::MissingArgument => missing_argument_text(),
        ShellErrorView::InvalidDirectory { message } => message,
        ShellErrorView::CommandNotFound { name } => name + not_found_text(),
        ShellErrorView::WaitFailed => wait_failed_text(),
    }
}

impl ShellError {
    /// The line to write to the error stream.
    pub fn message(&self) -> (text: String)
        ensures
            text@ == message_of(self@),
    {
        match self {
            ShellError::MissingArgument => "cd: missing argument".to_owned(),
            ShellError::InvalidDirectory { message } => message.clone(),
            ShellError::CommandNotFound { name } => name.clone().concat(
                ": Command not found--Did you mean something else?",
            ),
            ShellError::WaitFailed => "Can not wait for child to complete.".to_owned(),
        }
    }
}

/// What the shell is to do for one command line.
#[derive(Debug, Clone, PartialEq, Eq)]
pub enum Action {
    /// The line held no word: nothing is done.
    Reprompt,
    /// Make `path` the working directory.
    ChangeDir { path: String },
    /// Write `text` and a line end to standard output.
    Print { text: String },
    /// End the shell with status `code`.
    Exit { code: i32 },
    /// Run the program `name`, found on the search path, with `arguments`,
    /// and wait until it ends.
    Spawn { name: String, arguments: Vec<String> },
}

/// `Action` over sequences of characters.
pub enum ActionView {
    Reprompt,
    ChangeDir { path: Seq<char> },
    Print { text: Seq<char> },
    Exit { code: i32 },
    Spawn { name: Seq<char>, arguments: Seq<Seq<char>> },
}

impl View for Action {
    type V = ActionView;

    open spec fn view(&self) -> ActionView {
        match *self {
            Action::Reprompt => ActionView::Reprompt,
            Action::ChangeDir { path } => ActionView::ChangeDir { path: path@ },
            Action::Print { text } => ActionView::Print { text: text@ },
            Action::Exit { code } => ActionView::Exit { code },
            Action::Spawn { name, arguments } => ActionView::Spawn {
                name: name@,
                arguments: words_of(arguments@),
            },
        }
    }
}

/// What `cd` asks for: the first argument is the directory to enter, and
/// without one there is nothing to do but to say so.
pub open spec fn cd_of(tokens: Seq<Seq<char>>) -> Result<ActionView, ShellErrorView> {
    if tokens.len() >= 2 {
        Ok(ActionView::ChangeDir { path: tokens[1] })
    } else {
        Err(ShellErrorView::MissingArgument)
    }
}

/// What a line asks for that names no built-in: the first word is the
/// program and the words after it are its arguments.
pub open spec fn other_of(tokens: Seq<Seq<char>>) -> ActionView {
    if tokens.len() == 0 {
        ActionView::Reprompt
    } else {
        ActionView::Spawn { name: tokens[0], arguments: tokens.skip(1) }
    }
}

/// What a line of the given words asks for. A line without words asks for
/// nothing; otherwise the first word decides.
pub open spec fn classify(tokens: Seq<Seq<char>>) -> Result<ActionView, ShellErrorView> {
    if tokens.len() == 0 {
        Ok(ActionView::Reprompt)
    } else if tokens[0] == cd_name() {
        cd_of(tokens)
    } else if tokens[0] == help_name() {
        Ok(ActionView::Print { text: help_text() })
    } else if tokens[0] == exit_name() {
        Ok(ActionView::Exit { code: EXIT_CODE })
    } else {
        Ok(other_of(tokens))
    }
}

/// The view of a decision.
pub open spec fn decision_view(r: Result<Action, ShellError>) -> Result<
    ActionView,
    ShellErrorView,
> {
    match r {
        Ok(action) => Ok(action@),
        Err(error) => Err(error@),
    }
}

/// One command line, split into words: the command's name and its arguments.
#[derive(Debug)]
pub struct Funcs {
    /// The words, the command's name first.
    pub args: Vec<String>,
}

impl Funcs {
    /// The words of the line.
    pub open spec fn tokens(&self) -> Seq<Seq<char>> {
        words_of(self.args@)
    }

    /// The command line that is made of the words `args`.
    pub fn new(args: Vec<String>) -> (funcs: Funcs)
        ensures
            funcs.args == args,
            funcs.tokens() == words_of(args@),
    {
        Funcs { args }
    }

    /// The built-in `cd`: asks for the directory that the second word names
    /// to be entered, and fails with `MissingArgument` where there is none.
    pub fn cd(&self) -> (decision: Result<Action, ShellError>)
        ensures
            decision_view(decision) == cd_of(self.tokens()),
    {
        if self.args.len() >= 2 {
            Ok(Action::ChangeDir { path: self.args[1].clone() })
        } else {
            Err(ShellError::MissingArgument)
        }
    }

    /// The built-in `help`: asks for the help text to be printed.
    pub fn help(&self) -> (action: Action)
        ensures
            action@ == (ActionView::Print { text: help_text() }),
    {
        Action::Print { text: "HELP!".to_owned() }
    }

    /// The built-in `exit`: asks for the shell to end with `EXIT_CODE`.
    pub fn exit(&self) -> (action: Action)
        ensures
            action@ == (ActionView::Exit { code: EXIT_CODE }),
    {
        Action::Exit { code: EXIT_CODE }
    }

    /// A line that names no built-in: asks for the program that the first
    /// word names to be run with the words after it, and for nothing where
    /// there is no word.
    pub fn other(&self) -> (action: Action)
        ensures
            action@ == other_of(self.tokens()),
    {
        let n: usize = self.args.len();
        if n == 0 {
            return Action::Reprompt;
        }
        let name: String = self.args[0].clone();
        let mut arguments: Vec<String> = Vec::new();
        let mut i: usize = 1;
        while i < n
            invariant
                n == self.args.len(),
                1 <= i <= n,
                words_of(arguments@) =~= self.tokens().subrange(1, i as int),
            decreases n - i,
        {
            let argument: String = self.args[i].clone();
            proof {
                assert(words_of(arguments@.push(argument)) =~= words_of(arguments@).push(
                    self.tokens()[i as int],
                ));
            }
            arguments.push(argument);
            i = i + 1;
        }
        assert(words_of(arguments@) =~= self.tokens().skip(1));
        Action::Spawn { name, arguments }
    }

    /// Decides what the line asks for: nothing where it has no word, else
    /// what the built-in asks for that the first word names, or what `other`
    /// does where it names none.
    pub fn dispatch(&self) -> (decision: Result<Action, ShellError>)
        ensures
            decision_view(decision) == classify(self.tokens()),
    {
        if self.args.len() == 0 {
            return Ok(Action::Reprompt);
        }
        let cd: String = "cd".to_owned();
        let help: String = "help".to_owned();
        let exit: String = "exit".to_owned();
        if self.args[0] == cd {
            self.cd()
        } else if self.args[0] == help {
            Ok(self.help())
        } else if self.args[0] == exit {
            Ok(self.exit())
        } else {
            Ok(self.other())
        }
    }
}

} // verus!

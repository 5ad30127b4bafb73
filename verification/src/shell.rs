//! One turn of the shell, from the line that was read to what follows from
//! it, and what holds of every turn.

use vstd::prelude::*;
use crate::command::{
    cd_name, classify, decision_view, exit_name, help_name, help_text, Action, ActionView, Funcs,
    ShellError, ShellErrorView, EXIT_CODE,
};
use crate::session::{failed, next_dir, outcome_of, quiet, Next, OutcomeView, ReplyView};
use crate::tokenizer::{is_whitespace, lemma_blank_line_has_no_words, split_words, tokenize};

verus! {

/// What a line asks for: what its words ask for.
pub open spec fn meaning(line: Seq<char>) -> Result<ActionView, ShellErrorView> {
    classify(split_words(line))
}

/// Whether `name` is the name of a built-in.
pub open spec fn is_builtin(name: Seq<char>) -> bool {
    name == cd_name() || name == help_name() || name == exit_name()
}

/// Splits `line` into words and decides what it asks for.
pub fn interpret(line: &str) -> (decision: Result<Action, ShellError>)
    ensures
        decision_view(decision) == meaning(line@),
{
    Funcs::new(tokenize(line)).dispatch()
}

/// The names of the built-ins differ from one another, and the help text is
/// not empty.
pub proof fn lemma_builtin_names()
    ensures
        cd_name() != help_name(),
        cd_name() != exit_name(),
        help_name() != exit_name(),
        help_text().len() > 0,
{
    reveal_strlit("cd");
    reveal_strlit("help");
    reveal_strlit("exit");
    reveal_strlit("HELP!");
    assert(cd_name().len() == 2 && help_name().len() == 4);
    assert(help_name()[0] == 'h' && exit_name()[0] == 'e');
}

/// A line of nothing but whitespace, the empty line among them, asks for
/// nothing: the shell prompts again, reports no error and stays in its
/// directory.
pub proof fn lemma_blank_line_reprompts(line: Seq<char>, cwd: Seq<char>, reply: ReplyView)
    requires
        forall|k: int| 0 <= k < line.len() ==> is_whitespace(#[trigger] line[k]),
    ensures
        meaning(line) == Ok::<ActionView, ShellErrorView>(ActionView::Reprompt),
        outcome_of(ActionView::Reprompt, reply) == quiet(),
        quiet().error is None,
        quiet().next is Prompt,
        next_dir(cwd, ActionView::Reprompt, reply) == cwd,
{
    lemma_blank_line_has_no_words(line);
}

/// `cd` with a directory that could be entered: the working directory is
/// from then on the resolved path that the operating system reports, and
/// nothing is shown.
pub proof fn lemma_cd_enters_directory(tokens: Seq<Seq<char>>, cwd: Seq<char>, resolved: Seq<char>)
    requires
        tokens.len() >= 2,
        tokens[0] == cd_name(),
    ensures
        classify(tokens) == Ok::<ActionView, ShellErrorView>(
            ActionView::ChangeDir { path: tokens[1] },
        ),
        next_dir(cwd, classify(tokens)->Ok_0, ReplyView::Done { cwd: resolved }) == resolved,
        outcome_of(classify(tokens)->Ok_0, ReplyView::Done { cwd: resolved }) == quiet(),
{
}

/// `cd` with a directory that could not be entered: the working directory
/// stays what it was, the operating system's message is reported, and the
/// shell prompts again.
pub proof fn lemma_cd_failure_keeps_directory(
    tokens: Seq<Seq<char>>,
    cwd: Seq<char>,
    message: Seq<char>,
)
    requires
        tokens.len() >= 2,
        tokens[0] == cd_name(),
    ensures
        classify(tokens) is Ok,
        next_dir(cwd, classify(tokens)->Ok_0, ReplyView::Refused { message }) == cwd,
        outcome_of(classify(tokens)->Ok_0, ReplyView::Refused { message }) == failed(
            ShellErrorView::InvalidDirectory { message },
        ),
        outcome_of(classify(tokens)->Ok_0, ReplyView::Refused { message }).next is Prompt,
{
}

/// `cd` without a directory is an error, and no action is taken.
pub proof fn lemma_cd_needs_directory(tokens: Seq<Seq<char>>)
    requires
        tokens.len() == 1,
        tokens[0] == cd_name(),
    ensures
        classify(tokens) == Err::<ActionView, ShellErrorView>(ShellErrorView::MissingArgument),
{
}

/// `exit`, whatever follows it on the line, ends the shell with the fixed
/// status, and nothing is shown: no output and no error.
pub proof fn lemma_exit_ends_shell(tokens: Seq<Seq<char>>, reply: ReplyView)
    requires
        tokens.len() >= 1,
        tokens[0] == exit_name(),
    ensures
        classify(tokens) == Ok::<ActionView, ShellErrorView>(ActionView::Exit { code: EXIT_CODE }),
        outcome_of(classify(tokens)->Ok_0, reply) == (OutcomeView {
            output: None,
            error: None,
            next: Next::Terminate { code: EXIT_CODE },
        }),
{
    lemma_builtin_names();
}

/// `help`, whatever follows it on the line, shows the help text, which is
/// fixed and not empty, and leaves the working directory as it is.
pub proof fn lemma_help_prints(tokens: Seq<Seq<char>>, cwd: Seq<char>, reply: ReplyView)
    requires
        tokens.len() >= 1,
        tokens[0] == help_name(),
    ensures
        classify(tokens) == Ok::<ActionView, ShellErrorView>(
            ActionView::Print { text: help_text() },
        ),
        help_text().len() > 0,
        outcome_of(classify(tokens)->Ok_0, reply).output == Some(help_text()),
        outcome_of(classify(tokens)->Ok_0, reply).error is None,
        outcome_of(classify(tokens)->Ok_0, reply).next is Prompt,
        next_dir(cwd, classify(tokens)->Ok_0, reply) == cwd,
{
    lemma_builtin_names();
}

/// A line whose first word names no built-in starts the program of that
/// name with the words after it as arguments. When the program has ended the
/// shell prompts again, in the same directory.
pub proof fn lemma_other_command_spawns(tokens: Seq<Seq<char>>, cwd: Seq<char>, after: Seq<char>)
    requires
        tokens.len() >= 1,
        !is_builtin(tokens[0]),
    ensures
        classify(tokens) == Ok::<ActionView, ShellErrorView>(
            ActionView::Spawn { name: tokens[0], arguments: tokens.skip(1) },
        ),
        outcome_of(classify(tokens)->Ok_0, ReplyView::Done { cwd: after }) == quiet(),
        next_dir(cwd, classify(tokens)->Ok_0, ReplyView::Done { cwd: after }) == cwd,
{
}

/// A program that could not be started is reported by its name, and the
/// shell prompts again, in the same directory.
pub proof fn lemma_unresolved_command_is_reported(
    tokens: Seq<Seq<char>>,
    cwd: Seq<char>,
    message: Seq<char>,
)
    requires
        tokens.len() >= 1,
        !is_builtin(tokens[0]),
    ensures
        classify(tokens) is Ok,
        outcome_of(classify(tokens)->Ok_0, ReplyView::Refused { message }) == failed(
            ShellErrorView::CommandNotFound { name: tokens[0] },
        ),
        failed(ShellErrorView::CommandNotFound { name: tokens[0] }).next is Prompt,
        next_dir(cwd, classify(tokens)->Ok_0, ReplyView::Refused { message }) == cwd,
{
}

/// Nothing but a `cd` that was carried out changes the working directory.
pub proof fn lemma_only_cd_changes_directory(cwd: Seq<char>, action: ActionView, reply: ReplyView)
    ensures
        next_dir(cwd, action, reply) != cwd ==> action is ChangeDir && reply is Done,
{
}

/// The shell ends only on `exit`, or when waiting for a program failed
/// beyond recovery: no other failure ends it.
pub proof fn lemma_shell_ends_only_on_exit_or_fatal_wait(action: ActionView, reply: ReplyView)
    ensures
        outcome_of(action, reply).next is Terminate ==> action is Exit || reply
            == (ReplyView::WaitFailed { recoverable: false }),
        outcome_of(action, reply).error is Some ==> outcome_of(action, reply).output is None,
{
}

} // verus!

//! The core of a small interactive shell: splitting an input line into
//! words, deciding what a command line asks for, and tracking the working
//! directory of the session across commands.
//!
//! The library performs no input or output. It tells its caller what to do
//! (`Action`), is told what came of it (`Reply`), and answers with what to
//! show and whether to prompt again (`Outcome`).

pub mod command;
pub mod session;
pub mod shell;
pub mod tokenizer;

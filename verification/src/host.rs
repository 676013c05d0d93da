//! What passes between the shell and the program that hosts it.
//!
//! The shell does no input or output of its own. It asks its host for one
//! thing at a time (a `Request`), may hand it lines to write first, and is
//! told the result (an `Event`). Each type takes the type of text as its
//! parameter: `String` in running code, `Seq<char>` in contracts.

use crate::path::opt_string;
use vstd::prelude::*;

verus! {

/// A line for the host to write, a newline after it.
#[derive(Debug, PartialEq, Eq)]
pub enum Output<T> {
    /// To standard output: what a command prints.
    Stdout(T),
    /// To standard error: a diagnostic.
    Stderr(T),
}

/// How a program that the host ran came to its end.
#[derive(Debug, PartialEq, Eq)]
pub enum ProcessOutcome<T> {
    /// It ran and ended with this exit status.
    Exited(i32),
    /// It ran and was ended by the signal of this number.
    Signaled(i32),
    /// It could not be started; the text says why.
    LaunchFailed(T),
    /// It was started, but its end could not be waited for; the text says why.
    WaitFailed(T),
}

/// What the shell asks of its host.
#[derive(Debug, PartialEq, Eq)]
pub enum Request<T> {
    /// Write the prompt, without a newline, and read a line of input.
    ReadLine { prompt: T },
    /// Say whether this path exists.
    Probe(T),
    /// Say what the current working directory is.
    CurrentDir,
    /// Make this path the current working directory.
    ChangeDir(T),
    /// Run the program at `path` with the environment as it is and with
    /// `argument`, if there is one, as its only argument; wait for its end.
    Run { path: T, argument: Option<T> },
    /// End the process with this status.
    Exit(i32),
}

/// What the host tells the shell.
#[derive(Debug, PartialEq, Eq)]
pub enum Event<T> {
    /// The line that was read.
    Line(T),
    /// Whether the probed path exists.
    Probed(bool),
    /// Whether the probed path exists could not be found out; the text says
    /// why.
    ProbeFailed(T),
    /// The current working directory.
    CurrentDir(T),
    /// There is a current working directory, but its path is not text.
    CurrentDirUnprintable,
    /// The current working directory could not be found out; the text says why.
    CurrentDirFailed(T),
    /// The current working directory was changed.
    DirChanged,
    /// The current working directory could not be changed; the text says why.
    DirChangeFailed(T),
    /// How the program ended.
    Ran(ProcessOutcome<T>),
}

/// What one step of the shell hands to its host: up to two lines to write,
/// and then a request.
#[derive(Debug, PartialEq, Eq)]
pub struct Step<T> {
    /// A diagnostic that came up on the way, for standard error. It is
    /// written first.
    pub note: Option<T>,
    /// What the command itself writes.
    pub output: Option<Output<T>>,
    /// What the host is to do next.
    pub request: Request<T>,
}

impl View for Output<String> {
    type V = Output<Seq<char>>;

    open spec fn view(&self) -> Output<Seq<char>> {
        match self {
            Output::Stdout(t) => Output::Stdout(t@),
            Output::Stderr(t) => Output::Stderr(t@),
        }
    }
}

impl View for ProcessOutcome<String> {
    type V = ProcessOutcome<Seq<char>>;

    open spec fn view(&self) -> ProcessOutcome<Seq<char>> {
        match self {
            ProcessOutcome::Exited(status) => ProcessOutcome::Exited(*status),
            ProcessOutcome::Signaled(signal) => ProcessOutcome::Signaled(*signal),
            ProcessOutcome::LaunchFailed(why) => ProcessOutcome::LaunchFailed(why@),
            ProcessOutcome::WaitFailed(why) => ProcessOutcome::WaitFailed(why@),
        }
    }
}

impl View for Request<String> {
    type V = Request<Seq<char>>;

    open spec fn view(&self) -> Request<Seq<char>> {
        match self {
            Request::ReadLine { prompt } => Request::ReadLine { prompt: prompt@ },
            Request::Probe(path) => Request::Probe(path@),
            Request::CurrentDir => Request::CurrentDir,
            Request::ChangeDir(path) => Request::ChangeDir(path@),
            Request::Run { path, argument } => Request::Run {
                path: path@,
                argument: match argument {
                    Some(a) => Some(a@),
                    None => None,
                },
            },
            Request::Exit(status) => Request::Exit(*status),
        }
    }
}

impl View for Event<String> {
    type V = Event<Seq<char>>;

    open spec fn view(&self) -> Event<Seq<char>> {
        match self {
            Event::Line(line) => Event::Line(line@),
            Event::Probed(found) => Event::Probed(*found),
            Event::ProbeFailed(why) => Event::ProbeFailed(why@),
            Event::CurrentDir(dir) => Event::CurrentDir(dir@),
            Event::CurrentDirUnprintable => Event::CurrentDirUnprintable,
            Event::CurrentDirFailed(why) => Event::CurrentDirFailed(why@),
            Event::DirChanged => Event::DirChanged,
            Event::DirChangeFailed(why) => Event::DirChangeFailed(why@),
            Event::Ran(outcome) => Event::Ran(outcome@),
        }
    }
}

/// What an optional line holds.
pub open spec fn opt_output(o: Option<Output<String>>) -> Option<Output<Seq<char>>> {
    match o {
        Some(line) => Some(line@),
        None => None,
    }
}

impl View for Step<String> {
    type V = Step<Seq<char>>;

    open spec fn view(&self) -> Step<Seq<char>> {
        Step {
            note: opt_string(self.note),
            output: opt_output(self.output),
            request: self.request@,
        }
    }
}

} // verus!

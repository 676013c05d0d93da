//! The shell itself, as a machine that is driven by its host.
//!
//! The host shows the prompt, reads a line and hands it in; the shell answers
//! with the lines to write, if any, and with what it needs next: to know
//! whether a path exists, where the working directory is, to have it changed,
//! to have a program run, or the next line. `react` says, for every stage the
//! shell can be in and every event, which stage follows and what is handed
//! to the host.
//!
//! Nothing but `exit` ends the shell. Whatever else goes wrong is reported on
//! standard error, and the shell asks for the next line.

use crate::command::{lookup, parse_command_type, Lookup, ShellCommandType, ShellCommands};
use crate::host::{opt_output, Event, Output, ProcessOutcome, Request, Step};
use crate::path::{
    absolute_path, canonical, expand_home, home_folder_path, home_note, is_absolute, join,
    join_path, opt_string, opt_text, starts_with,
};
use crate::text::{
    args_part, command_part, decimal_text, parse_i32, parse_integer, parse_line, render_i32,
};
use vstd::prelude::*;

verus! {

/// What a word is looked up for.
#[derive(Debug, PartialEq, Eq)]
pub enum Purpose<T> {
    /// To carry it out as a command, with this argument text.
    Run { args: T },
    /// To say what it is, for `type`.
    Describe,
}

impl View for Purpose<String> {
    type V = Purpose<Seq<char>>;

    open spec fn view(&self) -> Purpose<Seq<char>> {
        match self {
            Purpose::Run { args } => Purpose::Run { args: args@ },
            Purpose::Describe => Purpose::Describe,
        }
    }
}

/// Where the shell stands between two steps. `T` is the type of text and `A`
/// that of a list of answers: `String` and `Vec<bool>` in running code,
/// `Seq<char>` and `Seq<bool>` in contracts.
#[derive(Debug, PartialEq, Eq)]
pub enum Stage<T, A> {
    /// Waiting for a line of input.
    Prompt,
    /// Looking up `word` for `purpose`: a probe is under way, and `answers`
    /// holds what the probes before it found.
    Resolving { word: T, answers: A, purpose: Purpose<T> },
    /// `type` found `word` at the relative path `path` and waits for the
    /// working directory.
    Describing { word: T, path: T },
    /// A program is running.
    Running,
    /// `pwd` waits for the working directory.
    PrintingDir,
    /// `cd` waits to learn whether `target`, as it was typed, exists.
    CdProbing { target: T },
    /// `cd` did not find `target` and waits for the working directory.
    CdLocating { target: T },
    /// `cd` waits to learn whether `target`, which was joined to the working
    /// directory, exists.
    CdProbingJoined { target: T },
    /// `cd` waits for the working directory to be changed.
    CdChanging,
    /// The shell has asked to end the process with this status.
    Exited(i32),
}

impl View for Stage<String, Vec<bool>> {
    type V = Stage<Seq<char>, Seq<bool>>;

    open spec fn view(&self) -> Stage<Seq<char>, Seq<bool>> {
        match self {
            Stage::Prompt => Stage::Prompt,
            Stage::Resolving { word, answers, purpose } => Stage::Resolving {
                word: word@,
                answers: answers@,
                purpose: purpose@,
            },
            Stage::Describing { word, path } => Stage::Describing { word: word@, path: path@ },
            Stage::Running => Stage::Running,
            Stage::PrintingDir => Stage::PrintingDir,
            Stage::CdProbing { target } => Stage::CdProbing { target: target@ },
            Stage::CdLocating { target } => Stage::CdLocating { target: target@ },
            Stage::CdProbingJoined { target } => Stage::CdProbingJoined { target: target@ },
            Stage::CdChanging => Stage::CdChanging,
            Stage::Exited(status) => Stage::Exited(*status),
        }
    }
}

/// One step taken: the stage that follows and what is handed to the host.
#[derive(Debug, PartialEq, Eq)]
pub struct Turn<T, A> {
    pub stage: Stage<T, A>,
    pub step: Step<T>,
}

impl View for Turn<String, Vec<bool>> {
    type V = Turn<Seq<char>, Seq<bool>>;

    open spec fn view(&self) -> Turn<Seq<char>, Seq<bool>> {
        Turn { stage: self.stage@, step: self.step@ }
    }
}

/// The prompt.
pub open spec fn prompt() -> Seq<char> {
    "$ "@
}

/// The shell moves to `stage` and asks for `request`, with nothing to write.
pub open spec fn asking(
    stage: Stage<Seq<char>, Seq<bool>>,
    request: Request<Seq<char>>,
) -> Turn<Seq<char>, Seq<bool>> {
    Turn { stage, step: Step { note: None, output: None, request } }
}

/// The command is done: `output` is written and the next line is asked for.
pub open spec fn finished(output: Option<Output<Seq<char>>>) -> Turn<Seq<char>, Seq<bool>> {
    Turn {
        stage: Stage::Prompt,
        step: Step { note: None, output, request: Request::ReadLine { prompt: prompt() } },
    }
}

/// The same turn, with the diagnostic `note` written first.
pub open spec fn noted(turn: Turn<Seq<char>, Seq<bool>>, note: Option<Seq<char>>) -> Turn<
    Seq<char>,
    Seq<bool>,
> {
    Turn {
        stage: turn.stage,
        step: Step { note, output: turn.step.output, request: turn.step.request },
    }
}

/// The diagnostic for an event that does not answer what the shell asked.
pub open spec fn unexpected_event_line() -> Seq<char> {
    "unexpected event"@
}

/// What the shell does with an event that does not answer what it asked: it
/// says so on standard error, drops what it was doing and asks for the next
/// line.
pub open spec fn confused() -> Turn<Seq<char>, Seq<bool>> {
    noted(finished(None), Some(unexpected_event_line()))
}

/// The diagnostic for a path of which the host could not say whether it
/// exists.
pub open spec fn probe_failed_line(why: Seq<char>) -> Seq<char> {
    "Error on looking up path : "@ + why
}

/// What the shell prints for a command word that means nothing.
pub open spec fn command_not_found_line(word: Seq<char>) -> Seq<char> {
    word + ": command not found"@
}

/// What `type` prints for a builtin.
pub open spec fn type_builtin_line(word: Seq<char>) -> Seq<char> {
    word + " is a shell builtin"@
}

/// What `type` prints for a program found at `path`.
pub open spec fn type_program_line(word: Seq<char>, path: Seq<char>) -> Seq<char> {
    word + " is "@ + path
}

/// What `type` prints for a word that means nothing.
pub open spec fn type_not_found_line(word: Seq<char>) -> Seq<char> {
    word + ": not found"@
}

/// The diagnostic of `cd` for a path that does not exist.
pub open spec fn cd_missing_line(path: Seq<char>) -> Seq<char> {
    "cd: "@ + path + ": No such file or directory"@
}

/// The diagnostic of `cd` for a directory that could not be entered.
pub open spec fn cd_failed_line(why: Seq<char>) -> Seq<char> {
    "Error on changing directory : "@ + why
}

/// The diagnostic for a working directory that could not be found out.
pub open spec fn no_current_dir_line(why: Seq<char>) -> Seq<char> {
    "Can't get current working directory: "@ + why
}

/// What stands for a working directory whose path is not text.
pub open spec fn unprintable_dir() -> Seq<char> {
    "UNKNOWN"@
}

/// The exit status that the argument of `exit` asks for: `0` without an
/// argument, the number that the argument denotes, and `-1` for an argument
/// that denotes none.
pub open spec fn exit_status(args: Seq<char>) -> int {
    if args.len() == 0 {
        0
    } else {
        match parse_integer(args) {
            Some(v) => v,
            None => -1,
        }
    }
}

/// The request to run the program at `path`. The argument text is handed
/// over whole, as one argument, and left out if it is empty.
pub open spec fn run_request(path: Seq<char>, args: Seq<char>) -> Request<Seq<char>> {
    Request::Run {
        path,
        argument: if args.len() == 0 {
            None
        } else {
            Some(args)
        },
    }
}

/// The diagnostic that the end of a program calls for: none after exit status
/// `0`, one line after anything else.
pub open spec fn outcome_report(outcome: ProcessOutcome<Seq<char>>) -> Option<Output<Seq<char>>> {
    match outcome {
        ProcessOutcome::Exited(status) => if status == 0 {
            None
        } else {
            Some(Output::Stderr("Exit Fail : exit status: "@ + decimal_text(status as int)))
        },
        ProcessOutcome::Signaled(signal) => Some(
            Output::Stderr("Exit Fail : signal: "@ + decimal_text(signal as int)),
        ),
        ProcessOutcome::LaunchFailed(why) => Some(Output::Stderr("Program Fail to start: "@ + why)),
        ProcessOutcome::WaitFailed(why) => Some(Output::Stderr("Program crash: "@ + why)),
    }
}

/// How a builtin begins.
pub open spec fn builtin_turn(
    paths: Seq<Seq<char>>,
    home: Option<Seq<char>>,
    builtin: ShellCommands,
    args: Seq<char>,
) -> Turn<Seq<char>, Seq<bool>> {
    match builtin {
        ShellCommands::Exit => asking(
            Stage::Exited(exit_status(args) as i32),
            Request::Exit(exit_status(args) as i32),
        ),
        ShellCommands::Echo => finished(Some(Output::Stdout(args))),
        ShellCommands::Type => type_turn(paths, home, args, Seq::<bool>::empty()),
        ShellCommands::PrintWorkingDirectory => asking(Stage::PrintingDir, Request::CurrentDir),
        ShellCommands::ChangeDirectory => noted(
            asking(
                Stage::CdProbing { target: expand_home(args, home) },
                Request::Probe(expand_home(args, home)),
            ),
            home_note(args, home),
        ),
    }
}

/// How the command `word` with the argument text `args` goes on when
/// `answers` are known of its lookup: a builtin begins, a program is run, an
/// unknown word is reported, and a lookup that is not settled probes on.
pub open spec fn command_turn(
    paths: Seq<Seq<char>>,
    home: Option<Seq<char>>,
    word: Seq<char>,
    args: Seq<char>,
    answers: Seq<bool>,
) -> Turn<Seq<char>, Seq<bool>> {
    match lookup(paths, word, home, answers) {
        Lookup::Decided(ShellCommandType::Shell(builtin)) => builtin_turn(paths, home, builtin, args),
        Lookup::Decided(ShellCommandType::Program(path)) => asking(
            Stage::Running,
            run_request(path, args),
        ),
        Lookup::Decided(ShellCommandType::Unknown) => finished(
            Some(Output::Stdout(command_not_found_line(word))),
        ),
        Lookup::Probe { path, note } => noted(
            asking(
                Stage::Resolving { word, answers, purpose: Purpose::Run { args } },
                Request::Probe(path),
            ),
            note,
        ),
    }
}

/// How `type word` goes on when `answers` are known of the lookup of `word`.
/// A program found at an absolute path is printed in normal form at once;
/// for one found at a relative path the working directory is asked for first.
pub open spec fn type_turn(
    paths: Seq<Seq<char>>,
    home: Option<Seq<char>>,
    word: Seq<char>,
    answers: Seq<bool>,
) -> Turn<Seq<char>, Seq<bool>> {
    match lookup(paths, word, home, answers) {
        Lookup::Decided(ShellCommandType::Shell(_)) => finished(
            Some(Output::Stdout(type_builtin_line(word))),
        ),
        Lookup::Decided(ShellCommandType::Program(path)) => if is_absolute(path) {
            finished(
                Some(
                    Output::Stdout(
                        type_program_line(word, canonical(path, Seq::<char>::empty())),
                    ),
                ),
            )
        } else {
            asking(Stage::Describing { word, path }, Request::CurrentDir)
        },
        Lookup::Decided(ShellCommandType::Unknown) => finished(
            Some(Output::Stdout(type_not_found_line(word))),
        ),
        Lookup::Probe { path, note } => noted(
            asking(Stage::Resolving { word, answers, purpose: Purpose::Describe }, Request::Probe(path)),
            note,
        ),
    }
}

/// How the lookup of `word` for `purpose` goes on when `answers` are known.
pub open spec fn resolve_turn(
    paths: Seq<Seq<char>>,
    home: Option<Seq<char>>,
    word: Seq<char>,
    answers: Seq<bool>,
    purpose: Purpose<Seq<char>>,
) -> Turn<Seq<char>, Seq<bool>> {
    match purpose {
        Purpose::Run { args } => command_turn(paths, home, word, args, answers),
        Purpose::Describe => type_turn(paths, home, word, answers),
    }
}

/// How `type` ends when the host has said where the working directory is.
/// Without a working directory the path cannot be put in normal form; that
/// is reported.
pub open spec fn described_turn(word: Seq<char>, path: Seq<char>, event: Event<Seq<char>>) -> Turn<
    Seq<char>,
    Seq<bool>,
> {
    match event {
        Event::CurrentDir(dir) => finished(
            Some(Output::Stdout(type_program_line(word, canonical(path, dir)))),
        ),
        Event::CurrentDirUnprintable => finished(
            Some(Output::Stderr(no_current_dir_line(unprintable_dir()))),
        ),
        Event::CurrentDirFailed(why) => finished(Some(Output::Stderr(no_current_dir_line(why)))),
        _ => confused(),
    }
}

/// How `pwd` ends when the host has answered.
pub open spec fn pwd_turn(event: Event<Seq<char>>) -> Turn<Seq<char>, Seq<bool>> {
    match event {
        Event::CurrentDir(dir) => finished(Some(Output::Stdout(dir))),
        Event::CurrentDirUnprintable => finished(Some(Output::Stdout(unprintable_dir()))),
        Event::CurrentDirFailed(why) => finished(Some(Output::Stderr(no_current_dir_line(why)))),
        _ => confused(),
    }
}

/// How `cd` goes on when it knows whether `target` exists. `joined` says
/// whether the target was joined to the working directory already.
pub open spec fn cd_probed(target: Seq<char>, joined: bool, found: bool) -> Turn<
    Seq<char>,
    Seq<bool>,
> {
    if found {
        asking(Stage::CdChanging, Request::ChangeDir(target))
    } else if joined {
        finished(Some(Output::Stderr(cd_missing_line(target))))
    } else {
        asking(Stage::CdLocating { target }, Request::CurrentDir)
    }
}

/// How `cd` goes on, from each of its stages, when the host has answered.
///
/// A target that exists as typed is entered. One that does not is joined to
/// the working directory and probed again; if it is still missing, that is
/// reported and nothing is changed. A probe that failed is reported and
/// counts as a path that is missing. That the working directory is not known
/// or could not be changed is reported too.
pub open spec fn cd_turn(stage: Stage<Seq<char>, Seq<bool>>, event: Event<Seq<char>>) -> Turn<
    Seq<char>,
    Seq<bool>,
> {
    match stage {
        Stage::CdProbing { target } => match event {
            Event::Probed(found) => cd_probed(target, false, found),
            Event::ProbeFailed(why) => noted(
                cd_probed(target, false, false),
                Some(probe_failed_line(why)),
            ),
            _ => confused(),
        },
        Stage::CdLocating { target } => match event {
            Event::CurrentDir(dir) => asking(
                Stage::CdProbingJoined { target: join(dir, target) },
                Request::Probe(join(dir, target)),
            ),
            Event::CurrentDirUnprintable => finished(
                Some(Output::Stderr(no_current_dir_line(unprintable_dir()))),
            ),
            Event::CurrentDirFailed(why) => finished(
                Some(Output::Stderr(no_current_dir_line(why))),
            ),
            _ => confused(),
        },
        Stage::CdProbingJoined { target } => match event {
            Event::Probed(found) => cd_probed(target, true, found),
            Event::ProbeFailed(why) => noted(
                cd_probed(target, true, false),
                Some(probe_failed_line(why)),
            ),
            _ => confused(),
        },
        Stage::CdChanging => match event {
            Event::DirChanged => finished(None),
            Event::DirChangeFailed(why) => finished(Some(Output::Stderr(cd_failed_line(why)))),
            _ => confused(),
        },
        _ => confused(),
    }
}

/// What the shell does in `stage` when `event` arrives: the stage that
/// follows and what is handed to the host. `paths` is the search path and
/// `home` the home directory, if known.
///
/// A probe that failed is reported and counts as a path that is missing. An
/// event that does not answer what the stage waits for is reported, and the
/// shell asks for the next line. Once the shell has asked to exit, it repeats
/// that request whatever arrives.
pub open spec fn react(
    paths: Seq<Seq<char>>,
    home: Option<Seq<char>>,
    stage: Stage<Seq<char>, Seq<bool>>,
    event: Event<Seq<char>>,
) -> Turn<Seq<char>, Seq<bool>> {
    match stage {
        Stage::Prompt => match event {
            Event::Line(line) => command_turn(
                paths,
                home,
                command_part(line),
                args_part(line),
                Seq::<bool>::empty(),
            ),
            _ => confused(),
        },
        Stage::Resolving { word, answers, purpose } => match event {
            Event::Probed(found) => resolve_turn(paths, home, word, answers.push(found), purpose),
            Event::ProbeFailed(why) => noted(
                resolve_turn(paths, home, word, answers.push(false), purpose),
                Some(probe_failed_line(why)),
            ),
            _ => confused(),
        },
        Stage::Describing { word, path } => described_turn(word, path, event),
        Stage::Running => match event {
            Event::Ran(outcome) => finished(outcome_report(outcome)),
            _ => confused(),
        },
        Stage::PrintingDir => pwd_turn(event),
        Stage::CdProbing { .. } | Stage::CdLocating { .. } | Stage::CdProbingJoined { .. }
        | Stage::CdChanging => cd_turn(stage, event),
        Stage::Exited(status) => asking(Stage::Exited(status), Request::Exit(status)),
    }
}

/// Whether `stage` can come about with the search path `paths` and the home
/// directory `home`: a lookup that is under way is one that is not settled
/// yet.
pub open spec fn well_formed(
    paths: Seq<Seq<char>>,
    home: Option<Seq<char>>,
    stage: Stage<Seq<char>, Seq<bool>>,
) -> bool {
    match stage {
        Stage::Resolving { word, answers, purpose } => lookup(paths, word, home, answers) is Probe,
        _ => true,
    }
}

/// The shell moves to `stage` and asks for `request`.
fn ask(stage: Stage<String, Vec<bool>>, request: Request<String>) -> (turn: Turn<String, Vec<bool>>)
    ensures
        turn@ == asking(stage@, request@),
{
    Turn { stage, step: Step { note: None, output: None, request } }
}

/// The command is done: `output` is written and the next line is asked for.
fn finish(output: Option<Output<String>>) -> (turn: Turn<String, Vec<bool>>)
    ensures
        turn@ == finished(opt_output(output)),
{
    Turn {
        stage: Stage::Prompt,
        step: Step { note: None, output, request: Request::ReadLine { prompt: "$ ".to_owned() } },
    }
}

/// The same turn, with the diagnostic `note` written first.
fn with_note(turn: Turn<String, Vec<bool>>, note: Option<String>) -> (out: Turn<String, Vec<bool>>)
    ensures
        out@ == noted(turn@, opt_string(note)),
{
    Turn {
        stage: turn.stage,
        step: Step { note, output: turn.step.output, request: turn.step.request },
    }
}

/// Reports an event that does not answer what the shell asked.
fn confuse() -> (turn: Turn<String, Vec<bool>>)
    ensures
        turn@ == confused(),
{
    with_note(finish(None), Some("unexpected event".to_owned()))
}

/// `head` followed by `tail`.
fn concat(head: &str, tail: &str) -> (out: String)
    ensures
        out@ == head@ + tail@,
{
    let mut out = head.to_owned();
    out.append(tail);
    out
}

/// The diagnostic for a failed probe.
fn note_probe(why: &str) -> (note: Option<String>)
    ensures
        opt_string(note) == Some(probe_failed_line(why@)),
{
    Some(concat("Error on looking up path : ", why))
}

/// The diagnostic for a working directory that is not known.
fn no_current_dir(why: &str) -> (turn: Turn<String, Vec<bool>>)
    ensures
        turn@ == finished(Some(Output::Stderr(no_current_dir_line(why@)))),
{
    finish(Some(Output::Stderr(concat("Can't get current working directory: ", why))))
}

/// The exit status that the argument of `exit` asks for.
pub fn shell_exit(exit_code_str: &str) -> (status: i32)
    ensures
        status == exit_status(exit_code_str@),
{
    if exit_code_str.is_empty() {
        0
    } else {
        match parse_i32(exit_code_str) {
            Some(v) => v,
            None => -1,
        }
    }
}

/// The request to run the program at `path` with the argument text
/// `args_part`.
pub fn shell_run_program(path: String, args_part: String) -> (request: Request<String>)
    ensures
        request@ == run_request(path@, args_part@),
{
    if args_part.as_str().is_empty() {
        Request::Run { path, argument: None }
    } else {
        Request::Run { path, argument: Some(args_part) }
    }
}

/// The diagnostic that the end of a program calls for.
pub fn report_outcome(outcome: ProcessOutcome<String>) -> (report: Option<Output<String>>)
    ensures
        opt_output(report) == outcome_report(outcome@),
{
    match outcome {
        ProcessOutcome::Exited(status) => {
            if status == 0 {
                None
            } else {
                Some(
                    Output::Stderr(
                        concat("Exit Fail : exit status: ", render_i32(status).as_str()),
                    ),
                )
            }
        },
        ProcessOutcome::Signaled(signal) => Some(
            Output::Stderr(concat("Exit Fail : signal: ", render_i32(signal).as_str())),
        ),
        ProcessOutcome::LaunchFailed(why) => Some(
            Output::Stderr(concat("Program Fail to start: ", why.as_str())),
        ),
        ProcessOutcome::WaitFailed(why) => Some(
            Output::Stderr(concat("Program crash: ", why.as_str())),
        ),
    }
}

/// Ends `pwd` with what the host said of the working directory.
pub fn shell_pwd_command(event: Event<String>) -> (turn: Turn<String, Vec<bool>>)
    ensures
        turn@ == pwd_turn(event@),
{
    match event {
        Event::CurrentDir(dir) => finish(Some(Output::Stdout(dir))),
        Event::CurrentDirUnprintable => finish(Some(Output::Stdout("UNKNOWN".to_owned()))),
        Event::CurrentDirFailed(why) => no_current_dir(why.as_str()),
        _ => confuse(),
    }
}

/// Carries `cd` on when it knows whether `target` exists.
fn cd_after_probe(target: String, joined: bool, found: bool) -> (turn: Turn<String, Vec<bool>>)
    ensures
        turn@ == cd_probed(target@, joined, found),
{
    if found {
        ask(Stage::CdChanging, Request::ChangeDir(target))
    } else if joined {
        let mut line = concat("cd: ", target.as_str());
        line.append(": No such file or directory");
        finish(Some(Output::Stderr(line)))
    } else {
        ask(Stage::CdLocating { target }, Request::CurrentDir)
    }
}

/// Carries `cd` on from `stage` with what the host said.
pub fn shell_cd_command(stage: Stage<String, Vec<bool>>, event: Event<String>) -> (turn: Turn<
    String,
    Vec<bool>,
>)
    ensures
        turn@ == cd_turn(stage@, event@),
{
    match stage {
        Stage::CdProbing { target } => match event {
            Event::Probed(found) => cd_after_probe(target, false, found),
            Event::ProbeFailed(why) => with_note(
                cd_after_probe(target, false, false),
                note_probe(why.as_str()),
            ),
            _ => confuse(),
        },
        Stage::CdLocating { target } => match event {
            Event::CurrentDir(dir) => {
                let joined = join_path(dir.as_str(), target.as_str());
                let again = joined.clone();
                ask(Stage::CdProbingJoined { target: joined }, Request::Probe(again))
            },
            Event::CurrentDirUnprintable => no_current_dir("UNKNOWN"),
            Event::CurrentDirFailed(why) => no_current_dir(why.as_str()),
            _ => confuse(),
        },
        Stage::CdProbingJoined { target } => match event {
            Event::Probed(found) => cd_after_probe(target, true, found),
            Event::ProbeFailed(why) => with_note(
                cd_after_probe(target, true, false),
                note_probe(why.as_str()),
            ),
            _ => confuse(),
        },
        Stage::CdChanging => match event {
            Event::DirChanged => finish(None),
            Event::DirChangeFailed(why) => finish(
                Some(Output::Stderr(concat("Error on changing directory : ", why.as_str()))),
            ),
            _ => confuse(),
        },
        _ => confuse(),
    }
}

/// Carries `type word` on with the `answers` known of the lookup of `word`.
pub fn shell_type_command(
    paths: &Vec<String>,
    home: Option<&str>,
    word: String,
    answers: Vec<bool>,
) -> (turn: Turn<String, Vec<bool>>)
    ensures
        turn@ == type_turn(paths.deep_view(), opt_text(home), word@, answers@),
{
    match parse_command_type(paths, word.as_str(), home, &answers) {
        Lookup::Decided(ShellCommandType::Shell(_)) => finish(
            Some(Output::Stdout(concat(word.as_str(), " is a shell builtin"))),
        ),
        Lookup::Decided(ShellCommandType::Program(path)) => {
            if starts_with(path.as_str(), '/') {
                let mut line = concat(word.as_str(), " is ");
                line.append(absolute_path(path.as_str(), "").as_str());
                proof {
                    reveal_strlit("");
                    assert(""@ =~= Seq::<char>::empty());
                }
                finish(Some(Output::Stdout(line)))
            } else {
                ask(Stage::Describing { word, path }, Request::CurrentDir)
            }
        },
        Lookup::Decided(ShellCommandType::Unknown) => finish(
            Some(Output::Stdout(concat(word.as_str(), ": not found"))),
        ),
        Lookup::Probe { path, note } => with_note(
            ask(Stage::Resolving { word, answers, purpose: Purpose::Describe }, Request::Probe(path)),
            note,
        ),
    }
}

/// Ends `type` with what the host said of the working directory.
fn describe_found(word: String, path: String, event: Event<String>) -> (turn: Turn<
    String,
    Vec<bool>,
>)
    ensures
        turn@ == described_turn(word@, path@, event@),
{
    match event {
        Event::CurrentDir(dir) => {
            let mut line = concat(word.as_str(), " is ");
            line.append(absolute_path(path.as_str(), dir.as_str()).as_str());
            finish(Some(Output::Stdout(line)))
        },
        Event::CurrentDirUnprintable => no_current_dir("UNKNOWN"),
        Event::CurrentDirFailed(why) => no_current_dir(why.as_str()),
        _ => confuse(),
    }
}

/// Begins the builtin `builtin` with the argument text `args`.
fn begin_builtin(
    paths: &Vec<String>,
    home: Option<&str>,
    builtin: ShellCommands,
    args: String,
) -> (turn: Turn<String, Vec<bool>>)
    ensures
        turn@ == builtin_turn(paths.deep_view(), opt_text(home), builtin, args@),
{
    match builtin {
        ShellCommands::Exit => {
            let status = shell_exit(args.as_str());
            ask(Stage::Exited(status), Request::Exit(status))
        },
        ShellCommands::Echo => finish(Some(Output::Stdout(args))),
        ShellCommands::Type => shell_type_command(paths, home, args, Vec::new()),
        ShellCommands::PrintWorkingDirectory => ask(Stage::PrintingDir, Request::CurrentDir),
        ShellCommands::ChangeDirectory => {
            let (target, note) = home_folder_path(args.as_str(), home);
            let again = target.clone();
            with_note(ask(Stage::CdProbing { target }, Request::Probe(again)), note)
        },
    }
}

/// Carries the command `word` on with the `answers` known of its lookup.
pub fn execute(
    paths: &Vec<String>,
    home: Option<&str>,
    word: String,
    args: String,
    answers: Vec<bool>,
) -> (turn: Turn<String, Vec<bool>>)
    ensures
        turn@ == command_turn(paths.deep_view(), opt_text(home), word@, args@, answers@),
{
    match parse_command_type(paths, word.as_str(), home, &answers) {
        Lookup::Decided(ShellCommandType::Shell(builtin)) => begin_builtin(
            paths,
            home,
            builtin,
            args,
        ),
        Lookup::Decided(ShellCommandType::Program(path)) => ask(
            Stage::Running,
            shell_run_program(path, args),
        ),
        Lookup::Decided(ShellCommandType::Unknown) => finish(
            Some(Output::Stdout(concat(word.as_str(), ": command not found"))),
        ),
        Lookup::Probe { path, note } => with_note(
            ask(
                Stage::Resolving { word, answers, purpose: Purpose::Run { args } },
                Request::Probe(path),
            ),
            note,
        ),
    }
}

/// Carries the lookup of `word` for `purpose` on with the `answers` known.
fn resolve(
    paths: &Vec<String>,
    home: Option<&str>,
    word: String,
    answers: Vec<bool>,
    purpose: Purpose<String>,
) -> (turn: Turn<String, Vec<bool>>)
    ensures
        turn@ == resolve_turn(paths.deep_view(), opt_text(home), word@, answers@, purpose@),
{
    match purpose {
        Purpose::Run { args } => execute(paths, home, word, args, answers),
        Purpose::Describe => shell_type_command(paths, home, word, answers),
    }
}

/// What the shell does in `stage` when `event` arrives.
pub fn dispatch(
    paths: &Vec<String>,
    home: Option<&str>,
    stage: Stage<String, Vec<bool>>,
    event: Event<String>,
) -> (turn: Turn<String, Vec<bool>>)
    ensures
        turn@ == react(paths.deep_view(), opt_text(home), stage@, event@),
{
    match stage {
        Stage::Prompt => match event {
            Event::Line(line) => {
                let (word, args) = parse_line(line.as_str());
                execute(paths, home, word, args, Vec::new())
            },
            _ => confuse(),
        },
        Stage::Resolving { word, answers, purpose } => match event {
            Event::Probed(found) => {
                let mut answers = answers;
                answers.push(found);
                resolve(paths, home, word, answers, purpose)
            },
            Event::ProbeFailed(why) => {
                let mut answers = answers;
                answers.push(false);
                with_note(resolve(paths, home, word, answers, purpose), note_probe(why.as_str()))
            },
            _ => confuse(),
        },
        Stage::Describing { word, path } => describe_found(word, path, event),
        Stage::Running => match event {
            Event::Ran(outcome) => finish(report_outcome(outcome)),
            _ => confuse(),
        },
        Stage::PrintingDir => shell_pwd_command(event),
        Stage::Exited(status) => ask(Stage::Exited(status), Request::Exit(status)),
        stage => shell_cd_command(stage, event),
    }
}

/// A shell: where to look for programs, the home directory, and the stage it
/// is in.
pub struct Shell {
    /// The directories in which programs are looked for, in order.
    pub search_path: Vec<String>,
    /// The home directory, if one is known.
    pub home: Option<String>,
    /// Where the shell stands.
    pub stage: Stage<String, Vec<bool>>,
}

impl Shell {
    /// Whether the stage of the shell is one that can come about.
    pub open spec fn wf(&self) -> bool {
        well_formed(self.search_path.deep_view(), opt_string(self.home), self.stage@)
    }

    /// A shell that waits for its first line.
    pub fn new(search_path: Vec<String>, home: Option<String>) -> (shell: Shell)
        ensures
            shell.search_path == search_path,
            shell.home == home,
            shell.stage@ == Stage::<Seq<char>, Seq<bool>>::Prompt,
            shell.wf(),
    {
        Shell { search_path, home, stage: Stage::Prompt }
    }

    /// What a shell that waits for a line asks of its host: to read one.
    pub fn begin(&self) -> (step: Step<String>)
        ensures
            step@ == finished(None).step,
    {
        finish(None).step
    }

    /// Takes one step: reacts to `event`, moves to the stage that follows
    /// and returns what is handed to the host. The search path and the home
    /// directory stay as they are.
    pub fn step(&mut self, event: Event<String>) -> (step: Step<String>)
        ensures
            final(self).search_path == old(self).search_path,
            final(self).home == old(self).home,
            (Turn { stage: final(self).stage@, step: step@ }) == react(
                old(self).search_path.deep_view(),
                opt_string(old(self).home),
                old(self).stage@,
                event@,
            ),
            final(self).wf(),
    {
        let mut stage = Stage::Prompt;
        core::mem::swap(&mut self.stage, &mut stage);
        let home: Option<&str> = match &self.home {
            Some(h) => Some(h.as_str()),
            None => None,
        };
        let turn = dispatch(&self.search_path, home, stage, event);
        self.stage = turn.stage;
        turn.step
    }
}

} // verus!

//! Whole commands, followed step by step from the line that was typed to the
//! next prompt, for every answer the host can give on the way.

use crate::command::{
    candidate, lemma_builtin_precedence, lemma_lookup_after_misses, lemma_lookup_hit,
    lookup_note, misses, ShellCommands,
};
use crate::host::{Event, Output, ProcessOutcome, Request};
use crate::path::{canonical, expand_home, home_note, is_absolute, join};
use crate::shell::{
    asking, cd_failed_line, cd_missing_line, command_not_found_line, command_turn, exit_status,
    finished, noted, outcome_report, probe_failed_line, react,
    run_request, type_builtin_line, type_not_found_line, type_program_line, type_turn,
    well_formed, Purpose, Stage,
};
use crate::text::{args_part, command_part, parse_integer};
use vstd::prelude::*;

verus! {

/// A shell that waits for a line is well formed, and no event leads a well
/// formed shell to a stage that is not.
pub proof fn lemma_react_keeps_well_formed(
    paths: Seq<Seq<char>>,
    home: Option<Seq<char>>,
    stage: Stage<Seq<char>, Seq<bool>>,
    event: Event<Seq<char>>,
)
    ensures
        well_formed(paths, home, Stage::Prompt),
        well_formed(paths, home, react(paths, home, stage, event).stage),
{
}

/// Nothing but `exit` ends the shell: a well formed shell asks its host to
/// end the process only on a line whose command word is `exit`, with the
/// status that the argument text denotes, or when it has asked before.
pub proof fn lemma_only_exit_ends(
    paths: Seq<Seq<char>>,
    home: Option<Seq<char>>,
    stage: Stage<Seq<char>, Seq<bool>>,
    event: Event<Seq<char>>,
    status: i32,
)
    requires
        well_formed(paths, home, stage),
        react(paths, home, stage, event).step.request == Request::<Seq<char>>::Exit(status),
    ensures
        stage == Stage::<Seq<char>, Seq<bool>>::Exited(status) || {
            &&& stage == Stage::<Seq<char>, Seq<bool>>::Prompt
            &&& event matches Event::Line(line)
            &&& ShellCommands::named(command_part(line)) == Some(ShellCommands::Exit)
            &&& status == exit_status(args_part(line))
        },
{
}

/// A probe that failed is reported on standard error, and a well formed shell
/// goes on as it does for a path that is missing, of which it notes nothing.
pub proof fn lemma_failed_probe_counts_as_missing(
    paths: Seq<Seq<char>>,
    home: Option<Seq<char>>,
    stage: Stage<Seq<char>, Seq<bool>>,
    why: Seq<char>,
)
    requires
        well_formed(paths, home, stage),
        stage is Resolving || stage is CdProbing || stage is CdProbingJoined,
    ensures
        react(paths, home, stage, Event::ProbeFailed(why)) == noted(
            react(paths, home, stage, Event::Probed(false)),
            Some(probe_failed_line(why)),
        ),
        react(paths, home, stage, Event::Probed(false)).step.note is None,
{
}

/// The exit status is `0` for no argument, the argument's number if it
/// denotes one, and `-1` otherwise; it always fits 32 bits.
pub proof fn lemma_exit_status(args: Seq<char>)
    ensures
        args.len() == 0 ==> exit_status(args) == 0,
        args.len() > 0 && parse_integer(args) is Some ==> exit_status(args) == parse_integer(
            args,
        )->0,
        args.len() > 0 && parse_integer(args) is None ==> exit_status(args) == -1,
        i32::MIN <= exit_status(args) <= i32::MAX,
{
}

/// `exit` asks the host to end the process with the status that its argument
/// denotes, writes nothing, and asks for nothing else from then on.
pub proof fn lemma_exit(
    paths: Seq<Seq<char>>,
    home: Option<Seq<char>>,
    line: Seq<char>,
    later: Event<Seq<char>>,
)
    requires
        ShellCommands::named(command_part(line)) == Some(ShellCommands::Exit),
    ensures
        ({
            let status = exit_status(args_part(line)) as i32;
            let first = react(paths, home, Stage::Prompt, Event::Line(line));
            let second = react(paths, home, first.stage, later);
            &&& status == exit_status(args_part(line))
            &&& first == asking(Stage::Exited(status), Request::Exit(status))
            &&& second == first
        }),
{
}

/// `echo` writes its argument text to standard output as it is, and the shell
/// asks for the next line.
pub proof fn lemma_echo(paths: Seq<Seq<char>>, home: Option<Seq<char>>, line: Seq<char>)
    requires
        ShellCommands::named(command_part(line)) == Some(ShellCommands::Echo),
    ensures
        react(paths, home, Stage::Prompt, Event::Line(line)) == finished(
            Some(Output::Stdout(args_part(line))),
        ),
{
}

/// `pwd` asks the host for the working directory and writes to standard
/// output exactly what the host reports.
pub proof fn lemma_pwd(
    paths: Seq<Seq<char>>,
    home: Option<Seq<char>>,
    line: Seq<char>,
    dir: Seq<char>,
)
    requires
        ShellCommands::named(command_part(line)) == Some(ShellCommands::PrintWorkingDirectory),
    ensures
        ({
            let asked = react(paths, home, Stage::Prompt, Event::Line(line));
            let told = react(paths, home, asked.stage, Event::CurrentDir(dir));
            &&& asked == asking(Stage::PrintingDir, Request::CurrentDir)
            &&& told == finished(Some(Output::Stdout(dir)))
        }),
{
}

/// `cd` into a path that exists as typed: the host is asked to make exactly
/// that path the working directory, nothing but a note on a `~` that could
/// not be expanded is written, and the shell asks for the next line. A `pwd`
/// typed next writes exactly the directory that the host then reports.
pub proof fn lemma_cd_then_pwd(
    paths: Seq<Seq<char>>,
    home: Option<Seq<char>>,
    cd_line: Seq<char>,
    pwd_line: Seq<char>,
    dir: Seq<char>,
)
    requires
        ShellCommands::named(command_part(cd_line)) == Some(ShellCommands::ChangeDirectory),
        ShellCommands::named(command_part(pwd_line)) == Some(
            ShellCommands::PrintWorkingDirectory,
        ),
    ensures
        ({
            let target = expand_home(args_part(cd_line), home);
            let probing = react(paths, home, Stage::Prompt, Event::Line(cd_line));
            let changing = react(paths, home, probing.stage, Event::Probed(true));
            let changed = react(paths, home, changing.stage, Event::DirChanged);
            let asked = react(paths, home, changed.stage, Event::Line(pwd_line));
            let printed = react(paths, home, asked.stage, Event::CurrentDir(dir));
            &&& probing == noted(
                asking(Stage::CdProbing { target }, Request::Probe(target)),
                home_note(args_part(cd_line), home),
            )
            &&& changing == asking(Stage::CdChanging, Request::ChangeDir(target))
            &&& changed == finished(None)
            &&& asked == asking(Stage::PrintingDir, Request::CurrentDir)
            &&& printed == finished(Some(Output::Stdout(dir)))
        }),
{
}

/// `cd` into a path that exists only when joined to the working directory
/// `dir`: the host is asked to enter the joined path.
pub proof fn lemma_cd_joined(
    paths: Seq<Seq<char>>,
    home: Option<Seq<char>>,
    line: Seq<char>,
    dir: Seq<char>,
)
    requires
        ShellCommands::named(command_part(line)) == Some(ShellCommands::ChangeDirectory),
    ensures
        ({
            let target = expand_home(args_part(line), home);
            let joined = join(dir, target);
            let probing = react(paths, home, Stage::Prompt, Event::Line(line));
            let locating = react(paths, home, probing.stage, Event::Probed(false));
            let probing_joined = react(paths, home, locating.stage, Event::CurrentDir(dir));
            let changing = react(paths, home, probing_joined.stage, Event::Probed(true));
            &&& locating == asking(Stage::CdLocating { target }, Request::CurrentDir)
            &&& probing_joined == asking(
                Stage::CdProbingJoined { target: joined },
                Request::Probe(joined),
            )
            &&& changing == asking(Stage::CdChanging, Request::ChangeDir(joined))
        }),
{
}

/// `cd` into a path that exists neither as typed nor joined to the working
/// directory `dir`: the shell reports the joined path as missing on standard
/// error and asks for the next line. On the way the host is asked to probe
/// and to say where it is, and never to change the working directory.
pub proof fn lemma_cd_missing(
    paths: Seq<Seq<char>>,
    home: Option<Seq<char>>,
    line: Seq<char>,
    dir: Seq<char>,
)
    requires
        ShellCommands::named(command_part(line)) == Some(ShellCommands::ChangeDirectory),
    ensures
        ({
            let target = expand_home(args_part(line), home);
            let joined = join(dir, target);
            let probing = react(paths, home, Stage::Prompt, Event::Line(line));
            let locating = react(paths, home, probing.stage, Event::Probed(false));
            let probing_joined = react(paths, home, locating.stage, Event::CurrentDir(dir));
            let reported = react(paths, home, probing_joined.stage, Event::Probed(false));
            &&& probing.step.request == Request::Probe(target)
            &&& locating == asking(Stage::CdLocating { target }, Request::CurrentDir)
            &&& probing_joined == asking(
                Stage::CdProbingJoined { target: joined },
                Request::Probe(joined),
            )
            &&& reported == finished(Some(Output::Stderr(cd_missing_line(joined))))
        }),
{
}

/// A directory that exists but cannot be entered: `cd` reports what the host
/// says on standard error, and the shell asks for the next line.
pub proof fn lemma_cd_refused(
    paths: Seq<Seq<char>>,
    home: Option<Seq<char>>,
    line: Seq<char>,
    why: Seq<char>,
)
    requires
        ShellCommands::named(command_part(line)) == Some(ShellCommands::ChangeDirectory),
    ensures
        ({
            let probing = react(paths, home, Stage::Prompt, Event::Line(line));
            let changing = react(paths, home, probing.stage, Event::Probed(true));
            let refused = react(paths, home, changing.stage, Event::DirChangeFailed(why));
            refused == finished(Some(Output::Stderr(cd_failed_line(why))))
        }),
{
}

/// A line starts the lookup of its command word with nothing known yet.
pub proof fn lemma_line_starts_lookup(
    paths: Seq<Seq<char>>,
    home: Option<Seq<char>>,
    line: Seq<char>,
)
    ensures
        react(paths, home, Stage::Prompt, Event::Line(line)) == command_turn(
            paths,
            home,
            command_part(line),
            args_part(line),
            misses(0),
        ),
{
    assert(misses(0) =~= Seq::<bool>::empty());
}

/// A command word that is no builtin, after the first `k` of its candidates
/// were found missing: the shell probes candidate `k`; when no candidate is
/// left it writes `<word>: command not found` to standard output and asks for
/// the next line.
pub proof fn lemma_command_after_misses(
    paths: Seq<Seq<char>>,
    home: Option<Seq<char>>,
    word: Seq<char>,
    args: Seq<char>,
    k: nat,
)
    requires
        ShellCommands::named(word) is None,
    ensures
        k <= paths.len() ==> command_turn(paths, home, word, args, misses(k)) == noted(
            asking(
                Stage::Resolving { word, answers: misses(k), purpose: Purpose::Run { args } },
                Request::Probe(candidate(paths, word, home, k as int)),
            ),
            lookup_note(word, home, misses(k)),
        ),
        k > paths.len() ==> command_turn(paths, home, word, args, misses(k)) == finished(
            Some(Output::Stdout(command_not_found_line(word))),
        ),
        react(
            paths,
            home,
            Stage::Resolving { word, answers: misses(k), purpose: Purpose::Run { args } },
            Event::Probed(false),
        ) == command_turn(paths, home, word, args, misses(k + 1)),
{
    lemma_lookup_after_misses(paths, word, home, k);
    assert(misses(k).push(false) =~= misses(k + 1));
}

/// A command word that is no builtin, when candidate `k` is found after those
/// before it were found missing: the shell has the host run the program at
/// that candidate, with the argument text as one argument if it is not
/// empty. When the program has ended, the shell reports a failure, if there
/// was one, and asks for the next line.
pub proof fn lemma_program_runs(
    paths: Seq<Seq<char>>,
    home: Option<Seq<char>>,
    word: Seq<char>,
    args: Seq<char>,
    k: nat,
    outcome: ProcessOutcome<Seq<char>>,
)
    requires
        ShellCommands::named(word) is None,
        k <= paths.len(),
    ensures
        ({
            let running = react(
                paths,
                home,
                Stage::Resolving { word, answers: misses(k), purpose: Purpose::Run { args } },
                Event::Probed(true),
            );
            let ended = react(paths, home, running.stage, Event::Ran(outcome));
            &&& running == asking(
                Stage::Running,
                run_request(candidate(paths, word, home, k as int), args),
            )
            &&& ended == finished(outcome_report(outcome))
        }),
{
    lemma_lookup_hit(paths, word, home, k);
}

/// `type` of a builtin name writes `<name> is a shell builtin`, whatever the
/// file system holds.
pub proof fn lemma_type_builtin(
    paths: Seq<Seq<char>>,
    home: Option<Seq<char>>,
    line: Seq<char>,
    builtin: ShellCommands,
)
    requires
        ShellCommands::named(command_part(line)) == Some(ShellCommands::Type),
        args_part(line) == builtin.spec_name(),
    ensures
        react(paths, home, Stage::Prompt, Event::Line(line)) == finished(
            Some(Output::Stdout(type_builtin_line(builtin.spec_name()))),
        ),
{
    lemma_builtin_precedence(builtin, paths, home, Seq::<bool>::empty());
}

/// A line with the command word `type` starts the lookup of its argument
/// text, as one word, with nothing known yet.
pub proof fn lemma_type_starts_lookup(
    paths: Seq<Seq<char>>,
    home: Option<Seq<char>>,
    line: Seq<char>,
)
    requires
        ShellCommands::named(command_part(line)) == Some(ShellCommands::Type),
    ensures
        react(paths, home, Stage::Prompt, Event::Line(line)) == type_turn(
            paths,
            home,
            args_part(line),
            misses(0),
        ),
{
    assert(misses(0) =~= Seq::<bool>::empty());
}

/// `type` of a word that is no builtin, after the first `k` candidates were
/// found missing: the shell probes candidate `k`; when no candidate is left
/// it writes `<word>: not found`.
pub proof fn lemma_type_after_misses(
    paths: Seq<Seq<char>>,
    home: Option<Seq<char>>,
    word: Seq<char>,
    k: nat,
)
    requires
        ShellCommands::named(word) is None,
    ensures
        k <= paths.len() ==> type_turn(paths, home, word, misses(k)) == noted(
            asking(
                Stage::Resolving { word, answers: misses(k), purpose: Purpose::Describe },
                Request::Probe(candidate(paths, word, home, k as int)),
            ),
            lookup_note(word, home, misses(k)),
        ),
        k > paths.len() ==> type_turn(paths, home, word, misses(k)) == finished(
            Some(Output::Stdout(type_not_found_line(word))),
        ),
        react(
            paths,
            home,
            Stage::Resolving { word, answers: misses(k), purpose: Purpose::Describe },
            Event::Probed(false),
        ) == type_turn(paths, home, word, misses(k + 1)),
{
    lemma_lookup_after_misses(paths, word, home, k);
    assert(misses(k).push(false) =~= misses(k + 1));
}

/// `type` of a word that is no builtin, when candidate `k` is found after
/// those before it were found missing: the shell writes `<word> is <path>`,
/// the path being the candidate in normal form as seen from the working
/// directory `dir`. The host is asked for the working directory only if the
/// candidate is a relative path.
pub proof fn lemma_type_program(
    paths: Seq<Seq<char>>,
    home: Option<Seq<char>>,
    word: Seq<char>,
    k: nat,
    dir: Seq<char>,
)
    requires
        ShellCommands::named(word) is None,
        k <= paths.len(),
    ensures
        ({
            let found = candidate(paths, word, home, k as int);
            let first = react(
                paths,
                home,
                Stage::Resolving { word, answers: misses(k), purpose: Purpose::Describe },
                Event::Probed(true),
            );
            let second = react(paths, home, first.stage, Event::CurrentDir(dir));
            let written = finished(
                Some(Output::Stdout(type_program_line(word, canonical(found, dir)))),
            );
            if is_absolute(found) {
                first == written
            } else {
                &&& first == asking(Stage::Describing { word, path: found }, Request::CurrentDir)
                &&& second == written
            }
        }),
{
    lemma_lookup_hit(paths, word, home, k);
}

} // verus!

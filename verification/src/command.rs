//! What a command word means: a builtin of the shell, a program found in the
//! file system, or nothing.
//!
//! The library never looks at the file system itself. A lookup is told what
//! is already known of the paths it would try, and answers either with the
//! meaning of the word or with the path whose existence it needs to know next.

use crate::path::{
    expand_home, home_folder_path, home_note, join, join_path, opt_string, opt_text,
};
use crate::text::same_text;
use vstd::prelude::*;

verus! {

/// The commands that the shell carries out itself.
#[derive(Clone, Copy, Debug, PartialEq, Eq, Structural)]
pub enum ShellCommands {
    Exit,
    Echo,
    Type,
    PrintWorkingDirectory,
    ChangeDirectory,
}

impl ShellCommands {
    /// The name by which the command is typed and shown.
    pub open spec fn spec_name(self) -> Seq<char> {
        match self {
            ShellCommands::Exit => "exit"@,
            ShellCommands::Echo => "echo"@,
            ShellCommands::Type => "type"@,
            ShellCommands::PrintWorkingDirectory => "pwd"@,
            ShellCommands::ChangeDirectory => "cd"@,
        }
    }

    /// All builtins, in the order in which a word is held against them.
    pub open spec fn spec_values() -> Seq<ShellCommands> {
        seq![
            ShellCommands::Exit,
            ShellCommands::Echo,
            ShellCommands::Type,
            ShellCommands::PrintWorkingDirectory,
            ShellCommands::ChangeDirectory,
        ]
    }

    /// The builtin that `token` names, if any. The match is exact: case
    /// counts, and neither a prefix nor an abbreviation names a builtin.
    pub open spec fn named(token: Seq<char>) -> Option<ShellCommands> {
        if token == ShellCommands::Exit.spec_name() {
            Some(ShellCommands::Exit)
        } else if token == ShellCommands::Echo.spec_name() {
            Some(ShellCommands::Echo)
        } else if token == ShellCommands::Type.spec_name() {
            Some(ShellCommands::Type)
        } else if token == ShellCommands::PrintWorkingDirectory.spec_name() {
            Some(ShellCommands::PrintWorkingDirectory)
        } else if token == ShellCommands::ChangeDirectory.spec_name() {
            Some(ShellCommands::ChangeDirectory)
        } else {
            None
        }
    }

    /// The name by which the command is typed and shown.
    pub fn name(&self) -> (s: &'static str)
        ensures
            s@ == self.spec_name(),
    {
        match self {
            ShellCommands::Exit => "exit",
            ShellCommands::Echo => "echo",
            ShellCommands::Type => "type",
            ShellCommands::PrintWorkingDirectory => "pwd",
            ShellCommands::ChangeDirectory => "cd",
        }
    }

    /// All builtins, in the order in which a word is held against them.
    pub fn values() -> (all: Vec<ShellCommands>)
        ensures
            all@ == Self::spec_values(),
    {
        let mut all: Vec<ShellCommands> = Vec::new();
        all.push(ShellCommands::Exit);
        all.push(ShellCommands::Echo);
        all.push(ShellCommands::Type);
        all.push(ShellCommands::PrintWorkingDirectory);
        all.push(ShellCommands::ChangeDirectory);
        assert(all@ =~= Self::spec_values());
        all
    }

    /// The builtin that `token` names, if any.
    pub fn from_name(token: &str) -> (found: Option<ShellCommands>)
        ensures
            found == Self::named(token@),
    {
        let all = Self::values();
        let mut i: usize = 0;
        while i < all.len()
            invariant
                i <= all.len(),
                all@ == Self::spec_values(),
                forall|j: int| 0 <= j < i ==> (#[trigger] all@[j]).spec_name() != token@,
            decreases all.len() - i,
        {
            if same_text(all[i].name(), token) {
                proof {
                    Self::lemma_names_differ();
                }
                return Some(all[i]);
            }
            i += 1;
        }
        assert(all@[0].spec_name() != token@);
        assert(all@[1].spec_name() != token@);
        assert(all@[2].spec_name() != token@);
        assert(all@[3].spec_name() != token@);
        assert(all@[4].spec_name() != token@);
        None
    }

    /// No two builtins share a name.
    pub proof fn lemma_names_differ()
        ensures
            forall|a: ShellCommands, b: ShellCommands|
                a.spec_name() == b.spec_name() ==> a == b,
    {
        reveal_strlit("exit");
        reveal_strlit("echo");
        reveal_strlit("type");
        reveal_strlit("pwd");
        reveal_strlit("cd");
        assert forall|a: ShellCommands, b: ShellCommands|
            a.spec_name() == b.spec_name() implies a == b by {
            if a != b {
                assert(a.spec_name().len() != b.spec_name().len() || a.spec_name()[1]
                    != b.spec_name()[1]);
            }
        }
    }

    /// Each builtin is the one that its own name names.
    pub proof fn lemma_named_own_name(b: ShellCommands)
        ensures
            Self::named(b.spec_name()) == Some(b),
    {
        Self::lemma_names_differ();
    }
}

/// The meaning of a command word. `T` is the type of text: `String` in
/// running code, `Seq<char>` in contracts.
#[derive(Debug, PartialEq, Eq)]
pub enum ShellCommandType<T> {
    /// A builtin of the shell.
    Shell(ShellCommands),
    /// A program, with the path at which it was found.
    Program(T),
    /// Neither.
    Unknown,
}

impl View for ShellCommandType<String> {
    type V = ShellCommandType<Seq<char>>;

    open spec fn view(&self) -> ShellCommandType<Seq<char>> {
        match self {
            ShellCommandType::Shell(b) => ShellCommandType::Shell(*b),
            ShellCommandType::Program(p) => ShellCommandType::Program(p@),
            ShellCommandType::Unknown => ShellCommandType::Unknown,
        }
    }
}

/// Where a lookup stands.
#[derive(Debug, PartialEq, Eq)]
pub enum Lookup<T> {
    /// The word's meaning is settled.
    Decided(ShellCommandType<T>),
    /// It depends on whether `path` exists. `note` is a diagnostic that
    /// came up on the way, if any.
    Probe { path: T, note: Option<T> },
}

impl View for Lookup<String> {
    type V = Lookup<Seq<char>>;

    open spec fn view(&self) -> Lookup<Seq<char>> {
        match self {
            Lookup::Decided(t) => Lookup::Decided(t@),
            Lookup::Probe { path, note } => Lookup::Probe { path: path@, note: opt_string(*note) },
        }
    }
}

/// The paths at which a program named `command` is looked for, in order:
/// first the word itself, with `~` expanded; then the word joined to each
/// directory of the search path.
pub open spec fn candidate(
    paths: Seq<Seq<char>>,
    command: Seq<char>,
    home: Option<Seq<char>>,
    k: int,
) -> Seq<char> {
    if k == 0 {
        expand_home(command, home)
    } else {
        join(paths[k - 1], command)
    }
}

/// The diagnostic with which a lookup begins, if any: that of the expansion
/// of `command`, when nothing is known yet.
pub open spec fn lookup_note(
    command: Seq<char>,
    home: Option<Seq<char>>,
    answers: Seq<bool>,
) -> Option<Seq<char>> {
    if answers.len() == 0 {
        home_note(command, home)
    } else {
        None
    }
}

/// Index of the first `true` in `answers`, or `answers.len()` if there is none.
pub open spec fn first_hit(answers: Seq<bool>) -> int
    decreases answers.len(),
{
    if answers.len() == 0 || answers[0] {
        0
    } else {
        1 + first_hit(answers.drop_first())
    }
}

/// What is known of `command` when `answers[k]` says whether candidate `k`
/// exists, for as many candidates as there are answers.
///
/// A builtin name is a builtin whatever the file system holds. Any other
/// word is the first candidate that exists; it is unknown once every
/// candidate is known to be missing; until then the next candidate has to be
/// probed. Answers beyond the last candidate are not looked at. The first
/// probe comes with the diagnostic of a `~` that could not be expanded.
pub open spec fn lookup(
    paths: Seq<Seq<char>>,
    command: Seq<char>,
    home: Option<Seq<char>>,
    answers: Seq<bool>,
) -> Lookup<Seq<char>> {
    match ShellCommands::named(command) {
        Some(b) => Lookup::Decided(ShellCommandType::Shell(b)),
        None => {
            let k = first_hit(answers);
            if k < answers.len() && k <= paths.len() {
                Lookup::Decided(ShellCommandType::Program(candidate(paths, command, home, k)))
            } else if answers.len() > paths.len() {
                Lookup::Decided(ShellCommandType::Unknown)
            } else {
                Lookup::Probe {
                    path: candidate(paths, command, home, answers.len() as int),
                    note: lookup_note(command, home, answers),
                }
            }
        },
    }
}

/// `first_hit` is the position of the first `true`.
pub proof fn lemma_first_hit(answers: Seq<bool>)
    ensures
        0 <= first_hit(answers) <= answers.len(),
        first_hit(answers) < answers.len() ==> answers[first_hit(answers)],
        forall|i: int| 0 <= i < first_hit(answers) ==> !#[trigger] answers[i],
    decreases answers.len(),
{
    if answers.len() == 0 || answers[0] {
    } else {
        let rest = answers.drop_first();
        lemma_first_hit(rest);
        assert forall|i: int| 0 <= i < first_hit(answers) implies !#[trigger] answers[i] by {
            if i > 0 {
                assert(answers[i] == rest[i - 1]);
            }
        }
    }
}

/// A position that holds `true` (or the end) before which all is `false` is
/// `first_hit`.
pub proof fn lemma_first_hit_is(answers: Seq<bool>, k: int)
    requires
        0 <= k <= answers.len(),
        k < answers.len() ==> answers[k],
        forall|i: int| 0 <= i < k ==> !#[trigger] answers[i],
    ensures
        first_hit(answers) == k,
{
    lemma_first_hit(answers);
    let f = first_hit(answers);
    if f < k {
        assert(!answers[f]);
    } else if k < f {
        assert(!answers[k]);
    }
}

/// A builtin name is that builtin, whatever exists in the file system and
/// whatever the search path holds.
pub proof fn lemma_builtin_precedence(
    b: ShellCommands,
    paths: Seq<Seq<char>>,
    home: Option<Seq<char>>,
    answers: Seq<bool>,
)
    ensures
        lookup(paths, b.spec_name(), home, answers) == Lookup::<Seq<char>>::Decided(
            ShellCommandType::Shell(b),
        ),
{
    ShellCommands::lemma_named_own_name(b);
}

/// A word that is no builtin and for which no candidate exists is unknown.
pub proof fn lemma_nothing_found(
    paths: Seq<Seq<char>>,
    command: Seq<char>,
    home: Option<Seq<char>>,
    answers: Seq<bool>,
)
    requires
        ShellCommands::named(command) is None,
        answers.len() > paths.len(),
        forall|i: int| 0 <= i <= paths.len() ==> !#[trigger] answers[i],
    ensures
        lookup(paths, command, home, answers) == Lookup::<Seq<char>>::Decided(
            ShellCommandType::Unknown,
        ),
{
    lemma_first_hit(answers);
}

/// A word found to be a program is the first of its candidates that exists.
pub proof fn lemma_program_is_first_existing(
    paths: Seq<Seq<char>>,
    command: Seq<char>,
    home: Option<Seq<char>>,
    answers: Seq<bool>,
    found: Seq<char>,
)
    requires
        lookup(paths, command, home, answers) == Lookup::<Seq<char>>::Decided(
            ShellCommandType::Program(found),
        ),
    ensures
        ShellCommands::named(command) is None,
        exists|k: int|
            {
                &&& 0 <= k <= paths.len()
                &&& k < answers.len()
                &&& #[trigger] answers[k]
                &&& found == candidate(paths, command, home, k)
                &&& forall|i: int| 0 <= i < k ==> !#[trigger] answers[i]
            },
{
    lemma_first_hit(answers);
    let k = first_hit(answers);
    assert(answers[k]);
}

/// `n` answers, each of them that nothing was found.
pub open spec fn misses(n: nat) -> Seq<bool> {
    Seq::new(n, |i: int| false)
}

/// Of a word that is no builtin, after `k` candidates were found missing: the
/// next candidate is to be probed, and when none is left the word is unknown.
pub proof fn lemma_lookup_after_misses(
    paths: Seq<Seq<char>>,
    command: Seq<char>,
    home: Option<Seq<char>>,
    k: nat,
)
    requires
        ShellCommands::named(command) is None,
    ensures
        lookup(paths, command, home, misses(k)) == if k <= paths.len() {
            Lookup::<Seq<char>>::Probe {
                path: candidate(paths, command, home, k as int),
                note: lookup_note(command, home, misses(k)),
            }
        } else {
            Lookup::<Seq<char>>::Decided(ShellCommandType::Unknown)
        },
{
    lemma_first_hit_is(misses(k), k as int);
}

/// Of a word that is no builtin, when candidate `k` is found after those
/// before it were found missing: the word is the program at that candidate.
pub proof fn lemma_lookup_hit(
    paths: Seq<Seq<char>>,
    command: Seq<char>,
    home: Option<Seq<char>>,
    k: nat,
)
    requires
        ShellCommands::named(command) is None,
        k <= paths.len(),
    ensures
        lookup(paths, command, home, misses(k).push(true)) == Lookup::<Seq<char>>::Decided(
            ShellCommandType::Program(candidate(paths, command, home, k as int)),
        ),
{
    lemma_first_hit_is(misses(k).push(true), k as int);
}

/// Candidate number `k` of a lookup, with the diagnostic of its expansion.
fn candidate_at(paths: &Vec<String>, command: &str, home: Option<&str>, k: usize) -> (out: (
    String,
    Option<String>,
))
    requires
        k <= paths.len(),
    ensures
        out.0@ == candidate(paths.deep_view(), command@, opt_text(home), k as int),
        opt_string(out.1) == if k == 0 {
            home_note(command@, opt_text(home))
        } else {
            None
        },
{
    if k == 0 {
        home_folder_path(command, home)
    } else {
        (join_path(paths[k - 1].as_str(), command), None)
    }
}

/// Says what `command` means, as far as `answers` tell.
///
/// `paths` is the search path and `home` the home directory, if known.
/// `answers[k]` says whether candidate `k` of the lookup exists. With no
/// answers yet, or too few to settle the matter, the result names the path
/// to probe next; the caller probes it, appends the answer and asks again.
/// A probe that failed counts as a path that is missing.
pub fn parse_command_type(
    paths: &Vec<String>,
    command: &str,
    home: Option<&str>,
    answers: &Vec<bool>,
) -> (found: Lookup<String>)
    ensures
        found@ == lookup(paths.deep_view(), command@, opt_text(home), answers@),
        ShellCommands::named(command@) matches Some(b) ==> found@ == Lookup::<
            Seq<char>,
        >::Decided(ShellCommandType::Shell(b)),
{
    if let Some(b) = ShellCommands::from_name(command) {
        return Lookup::Decided(ShellCommandType::Shell(b));
    }
    let mut k: usize = 0;
    while k < answers.len() && k <= paths.len()
        invariant
            k <= answers.len(),
            k <= paths.len() + 1,
            ShellCommands::named(command@) is None,
            forall|i: int| 0 <= i < k ==> !#[trigger] answers@[i],
        decreases answers.len() - k,
    {
        if answers[k] {
            proof {
                lemma_first_hit_is(answers@, k as int);
            }
            let found = candidate_at(paths, command, home, k);
            return Lookup::Decided(ShellCommandType::Program(found.0));
        }
        k += 1;
    }
    proof {
        lemma_first_hit(answers@);
        if first_hit(answers@) < k {
            assert(!answers@[first_hit(answers@)]);
        }
    }
    if answers.len() > paths.len() {
        Lookup::Decided(ShellCommandType::Unknown)
    } else {
        let next = candidate_at(paths, command, home, k);
        Lookup::Probe { path: next.0, note: next.1 }
    }
}

} // verus!

use shell_core::command::{parse_command_type, Lookup, ShellCommandType, ShellCommands};

fn strings(items: &[&str]) -> Vec<String> {
    items.iter().map(|s| s.to_string()).collect()
}

fn lookup(paths: &[&str], word: &str, home: Option<&str>, answers: &[bool]) -> Lookup<String> {
    parse_command_type(&strings(paths), word, home, &answers.to_vec())
}

fn program(path: &str) -> Lookup<String> {
    Lookup::Decided(ShellCommandType::Program(path.to_string()))
}

fn probe(path: &str) -> Lookup<String> {
    Lookup::Probe { path: path.to_string(), note: None }
}

const ALL: [ShellCommands; 5] = [
    ShellCommands::Exit,
    ShellCommands::Echo,
    ShellCommands::Type,
    ShellCommands::PrintWorkingDirectory,
    ShellCommands::ChangeDirectory,
];

#[test]
fn builtins_have_their_names() {
    assert_eq!(ShellCommands::Exit.name(), "exit");
    assert_eq!(ShellCommands::Echo.name(), "echo");
    assert_eq!(ShellCommands::Type.name(), "type");
    assert_eq!(ShellCommands::PrintWorkingDirectory.name(), "pwd");
    assert_eq!(ShellCommands::ChangeDirectory.name(), "cd");
}

#[test]
fn values_lists_every_builtin_in_order() {
    assert_eq!(ShellCommands::values(), ALL.to_vec());
}

#[test]
fn from_name_finds_each_builtin_by_its_name() {
    for builtin in ALL {
        assert_eq!(ShellCommands::from_name(builtin.name()), Some(builtin));
    }
}

#[test]
fn from_name_matches_exactly() {
    for word in ["", "Exit", "EXIT", "exi", "exits", " cd", "cd ", "c", "print", "ls", "typ"] {
        assert_eq!(ShellCommands::from_name(word), None, "{:?}", word);
    }
}

#[test]
fn a_builtin_name_is_a_builtin_whatever_exists() {
    let answer_sets: [&[bool]; 5] = [&[], &[true], &[false, true], &[true, true, true], &[false, false, false]];
    for builtin in ALL {
        for answers in answer_sets {
            assert_eq!(
                lookup(&["/usr/bin", "/bin"], builtin.name(), Some("/home/u"), answers),
                Lookup::Decided(ShellCommandType::Shell(builtin))
            );
            assert_eq!(
                lookup(&[], builtin.name(), None, answers),
                Lookup::Decided(ShellCommandType::Shell(builtin))
            );
        }
    }
}

#[test]
fn a_word_that_nothing_contains_is_unknown() {
    assert_eq!(
        lookup(&["/usr/bin", "/bin"], "nonexistent_xyz", None, &[false, false, false]),
        Lookup::Decided(ShellCommandType::Unknown)
    );
    assert_eq!(
        lookup(&[], "nonexistent_xyz", None, &[false]),
        Lookup::Decided(ShellCommandType::Unknown)
    );
}

#[test]
fn lookup_probes_the_word_itself_first() {
    assert_eq!(lookup(&["/usr/bin", "/bin"], "ls", None, &[]), probe("ls"));
    assert_eq!(lookup(&["/usr/bin"], "./run.sh", None, &[]), probe("./run.sh"));
    assert_eq!(lookup(&["/usr/bin"], "~/run.sh", Some("/home/u"), &[]), probe("/home/u/run.sh"));
}

#[test]
fn lookup_notes_a_home_directory_that_is_not_known() {
    assert_eq!(
        lookup(&["/usr/bin"], "~/run.sh", None, &[]),
        Lookup::Probe {
            path: "~/run.sh".to_string(),
            note: Some("Env Missing Home folder".to_string()),
        }
    );
    assert_eq!(lookup(&["/usr/bin"], "~/run.sh", None, &[false]), probe("/usr/bin/~/run.sh"));
}

#[test]
fn lookup_probes_each_directory_in_order() {
    let paths = ["/usr/local/bin", "/usr/bin/", "/bin"];
    assert_eq!(lookup(&paths, "ls", None, &[false]), probe("/usr/local/bin/ls"));
    assert_eq!(lookup(&paths, "ls", None, &[false, false]), probe("/usr/bin/ls"));
    assert_eq!(lookup(&paths, "ls", None, &[false, false, false]), probe("/bin/ls"));
    assert_eq!(
        lookup(&paths, "ls", None, &[false, false, false, false]),
        Lookup::Decided(ShellCommandType::Unknown)
    );
}

#[test]
fn lookup_joins_the_word_as_typed_to_the_directories() {
    assert_eq!(lookup(&["/bin"], "~x", Some("/home/u"), &[false]), probe("/bin/~x"));
    assert_eq!(lookup(&["/bin"], "/abs/tool", None, &[false]), probe("/abs/tool"));
    assert_eq!(lookup(&[""], "tool", None, &[false]), probe("tool"));
    assert_eq!(lookup(&["/bin"], "", None, &[false]), probe("/bin/"));
}

#[test]
fn the_first_path_that_exists_is_the_program() {
    let paths = ["/usr/local/bin", "/usr/bin", "/bin"];
    assert_eq!(lookup(&paths, "./ls", None, &[true]), program("./ls"));
    assert_eq!(lookup(&paths, "ls", None, &[false, true]), program("/usr/local/bin/ls"));
    assert_eq!(lookup(&paths, "ls", None, &[false, false, true]), program("/usr/bin/ls"));
    assert_eq!(lookup(&paths, "ls", None, &[false, false, false, true]), program("/bin/ls"));
    assert_eq!(lookup(&paths, "ls", None, &[false, true, true, true]), program("/usr/local/bin/ls"));
    assert_eq!(lookup(&paths, "~/ls", Some("/h"), &[true]), program("/h/ls"));
}

#[test]
fn answers_beyond_the_candidates_are_not_looked_at() {
    assert_eq!(
        lookup(&["/bin"], "ls", None, &[false, false, true]),
        Lookup::Decided(ShellCommandType::Unknown)
    );
    assert_eq!(lookup(&[], "ls", None, &[false, true]), Lookup::Decided(ShellCommandType::Unknown));
}

use shell_core::path::{
    absolute_path, home_folder_path, join_path, split_search_path, starts_with,
};
use std::path::{Component, Path, PathBuf};

fn strings(items: &[&str]) -> Vec<String> {
    items.iter().map(|s| s.to_string()).collect()
}

#[test]
fn starts_with_looks_at_the_first_character() {
    assert!(starts_with("/bin", '/'));
    assert!(starts_with("~", '~'));
    assert!(!starts_with("bin/", '/'));
    assert!(!starts_with("", '/'));
}

#[test]
fn join_path_puts_one_separator_between() {
    assert_eq!(join_path("/bin", "ls"), "/bin/ls");
    assert_eq!(join_path("/bin/", "ls"), "/bin/ls");
    assert_eq!(join_path("/", "ls"), "/ls");
    assert_eq!(join_path("rel", "a/b"), "rel/a/b");
}

#[test]
fn join_path_lets_an_absolute_path_replace_the_base() {
    assert_eq!(join_path("/bin", "/usr/bin/env"), "/usr/bin/env");
    assert_eq!(join_path("", "/x"), "/x");
}

#[test]
fn join_path_with_an_empty_side() {
    assert_eq!(join_path("", "ls"), "ls");
    assert_eq!(join_path("/usr/bin", ""), "/usr/bin/");
    assert_eq!(join_path("/usr/bin/", ""), "/usr/bin/");
    assert_eq!(join_path("", ""), "");
}

#[test]
fn join_path_agrees_with_the_standard_library() {
    let parts = ["", "/", "a", "a/", "/a", "/a/", "a/b", "..", ".", "~", "/a//b", "é"];
    for base in parts {
        for rel in parts {
            let expected = Path::new(base).join(rel);
            assert_eq!(join_path(base, rel), expected.to_str().unwrap(), "{:?} {:?}", base, rel);
        }
    }
}

fn expanded(path: &str, home: Option<&str>) -> String {
    home_folder_path(path, home).0
}

#[test]
fn home_folder_path_replaces_the_leading_tilde() {
    assert_eq!(expanded("~", Some("/home/u")), "/home/u");
    assert_eq!(expanded("~/bin/x", Some("/home/u")), "/home/u/bin/x");
    assert_eq!(expanded("~other", Some("/home/u")), "/home/uother");
    assert_eq!(expanded("~~", Some("/h")), "/h~");
    assert_eq!(home_folder_path("~/x", Some("/h")), ("/h/x".to_string(), None));
}

#[test]
fn home_folder_path_leaves_other_paths_alone() {
    assert_eq!(expanded("/bin/ls", Some("/home/u")), "/bin/ls");
    assert_eq!(expanded("a~b", Some("/home/u")), "a~b");
    assert_eq!(expanded("", Some("/home/u")), "");
    assert_eq!(home_folder_path("ls", None), ("ls".to_string(), None));
    assert_eq!(home_folder_path("", None), ("".to_string(), None));
}

#[test]
fn home_folder_path_without_a_home_keeps_the_token_and_says_so() {
    let note = Some("Env Missing Home folder".to_string());
    assert_eq!(home_folder_path("~/bin", None), ("~/bin".to_string(), note.clone()));
    assert_eq!(home_folder_path("~", None), ("~".to_string(), note));
}

#[test]
fn split_search_path_splits_on_colons() {
    assert_eq!(
        split_search_path(Some("/usr/bin:/bin:/usr/local/bin")),
        strings(&["/usr/bin", "/bin", "/usr/local/bin"])
    );
    assert_eq!(split_search_path(Some("/bin")), strings(&["/bin"]));
}

#[test]
fn split_search_path_keeps_empty_entries() {
    assert_eq!(split_search_path(Some("")), strings(&[""]));
    assert_eq!(split_search_path(Some(":/bin:")), strings(&["", "/bin", ""]));
    assert_eq!(split_search_path(Some("a::b")), strings(&["a", "", "b"]));
}

#[test]
fn split_search_path_of_an_unset_variable_is_empty() {
    assert_eq!(split_search_path(None), Vec::<String>::new());
}

#[test]
fn split_search_path_agrees_with_the_standard_split() {
    for text in ["", ":", "a", "a:b", ":a:", "::", "/usr/bin:/bin", "é:ñ"] {
        let expected: Vec<String> = text.split(':').map(|s| s.to_string()).collect();
        assert_eq!(split_search_path(Some(text)), expected, "{:?}", text);
    }
}

#[test]
fn the_entries_of_a_search_path_join_back_to_it() {
    for text in ["", ":", "a", "a:b", ":a:", "::", "/usr/bin:/bin", "/a/b:c::d:"] {
        let entries = split_search_path(Some(text));
        assert_eq!(entries.join(":"), text);
        assert!(entries.iter().all(|entry| !entry.contains(':')));
    }
}

#[test]
fn absolute_path_drops_dot_segments() {
    assert_eq!(absolute_path("./a/./b", "/home/user"), "/home/user/a/b");
    assert_eq!(absolute_path(".", "/home/user"), "/home/user");
    assert_eq!(absolute_path("/a/./b/.", "/ignored"), "/a/b");
}

#[test]
fn absolute_path_drops_empty_segments() {
    assert_eq!(absolute_path("/a//b///c/", "/"), "/a/b/c");
    assert_eq!(absolute_path("a//b/", "/w/"), "/w/a/b");
}

#[test]
fn absolute_path_uses_an_absolute_path_as_it_is() {
    assert_eq!(absolute_path("/usr/bin/env", "/home/user"), "/usr/bin/env");
}

#[test]
fn absolute_path_joins_a_relative_path_to_the_directory() {
    assert_eq!(absolute_path("bin/tool", "/opt"), "/opt/bin/tool");
    assert_eq!(absolute_path("", "/opt"), "/opt");
}

#[test]
fn absolute_path_lets_dotdot_remove_the_segment_before() {
    assert_eq!(absolute_path("../x", "/home/user"), "/home/x");
    assert_eq!(absolute_path("/a/b/../../c", "/"), "/c");
    assert_eq!(absolute_path("a/../..", "/p/q"), "/p");
}

#[test]
fn absolute_path_keeps_dotdot_where_nothing_is_before_it() {
    assert_eq!(absolute_path("/..", "/"), "/..");
    assert_eq!(absolute_path("/../a", "/"), "/../a");
    assert_eq!(absolute_path("../../x", "/a"), "/../x");
    assert_eq!(absolute_path("/../../a/..", "/"), "/../..");
}

#[test]
fn absolute_path_of_the_root() {
    assert_eq!(absolute_path("/", "/home"), "/");
    assert_eq!(absolute_path("//", "/home"), "/");
    assert_eq!(absolute_path("/.", "/home"), "/");
    assert_eq!(absolute_path("..", "/home"), "/");
}

#[test]
fn absolute_path_without_a_root_or_a_segment_is_a_dot() {
    assert_eq!(absolute_path(".", ""), ".");
    assert_eq!(absolute_path("", ""), ".");
    assert_eq!(absolute_path("a/..", ""), ".");
    assert_eq!(absolute_path("a/b", ""), "a/b");
    assert_eq!(absolute_path("../a", ""), "../a");
}

#[test]
fn absolute_path_keeps_names_that_only_look_like_dots() {
    assert_eq!(absolute_path("/a/.../b/..c/.d", "/"), "/a/.../b/..c/.d");
}

#[test]
fn absolute_path_twice_is_absolute_path_once() {
    let dirs = ["/", "/home/user", "/a/b/", "/../x"];
    let paths = [
        "", ".", "..", "a", "a/b", "../..", "/", "/..", "/a/../..", "./x/./y/", "a//b", "/x/y/../z",
        "../../../../etc", "é/./ñ/..",
    ];
    for cwd in dirs {
        for path in paths {
            let once = absolute_path(path, cwd);
            assert!(once.starts_with('/'), "{:?} {:?}", path, cwd);
            assert_eq!(absolute_path(&once, cwd), once, "{:?} {:?}", path, cwd);
        }
    }
}

fn by_components(path: &str, cwd: &str) -> String {
    let full = Path::new(cwd).join(path);
    let mut out: Vec<Component> = Vec::new();
    for comp in full.components() {
        match comp {
            Component::CurDir => (),
            Component::ParentDir => match out.last() {
                Some(Component::Normal(_)) => {
                    out.pop();
                }
                _ => out.push(comp),
            },
            comp => out.push(comp),
        }
    }
    if out.is_empty() {
        return ".".to_string();
    }
    let joined: PathBuf = out.iter().collect();
    joined.to_str().unwrap().to_string()
}

#[test]
fn absolute_path_agrees_with_std_components() {
    let dirs = ["/", "/home/user", "/a/b/", "", "rel"];
    let paths = [
        "", ".", "..", "a", "a/b", "../..", "/", "/..", "/a/../..", "./x/./y/", "a//b", "/x/y/../z",
        "../../../../etc", "./", "a/.", "/./a", "..a/b..",
    ];
    for cwd in dirs {
        for path in paths {
            assert_eq!(absolute_path(path, cwd), by_components(path, cwd), "{:?} {:?}", path, cwd);
        }
    }
}

use ssh_transfer::remote::{
    check_remote_path, default_home, is_foreign_home_path, is_system_dir, looks_shell_expanded,
    remote_home, resolve,
};
use ssh_transfer::text::{decimal, is_space, starts_with, str_eq, trim};

#[test]
fn tilde_stands_for_the_remote_home() {
    assert_eq!(resolve("~", "/home/ann"), "/home/ann");
    assert_eq!(resolve("~/", "/home/ann"), "/home/ann/");
    assert_eq!(resolve("~/docs/a.txt", "/home/ann"), "/home/ann/docs/a.txt");
}

#[test]
fn dot_stands_for_the_remote_home() {
    assert_eq!(resolve(".", "/home/ann"), "/home/ann");
    assert_eq!(resolve("./", "/home/ann"), "/home/ann");
}

#[test]
fn other_paths_are_kept() {
    assert_eq!(resolve("/var/data", "/home/ann"), "/var/data");
    assert_eq!(resolve("~ann/x", "/home/ann"), "~ann/x");
    assert_eq!(resolve("./x", "/home/ann"), "./x");
    assert_eq!(resolve("..", "/home/ann"), "..");
    assert_eq!(resolve("", "/home/ann"), "");
    assert_eq!(resolve("a/~", "/home/ann"), "a/~");
}

#[test]
fn shell_expanded_paths_are_recognised() {
    assert!(looks_shell_expanded("/home/bob/x", "/home/ann"));
    assert!(!looks_shell_expanded("/home/ann/x", "/home/ann"));
    assert!(!looks_shell_expanded("/srv/x", "/home/ann"));
    assert!(!looks_shell_expanded("/home", "/home/ann"));
}

#[test]
fn foreign_home_paths_are_recognised() {
    assert!(is_foreign_home_path("/Users/ann/file"));
    assert!(is_foreign_home_path("/Users/"));
    assert!(!is_foreign_home_path("/Users"));
    assert!(!is_foreign_home_path("/home/ann"));
    assert!(!is_foreign_home_path(""));
}

#[test]
fn system_directories_are_protected() {
    for dir in ["/", "/usr", "/var", "/etc", "/bin", "/sbin", "/lib", "/opt", "/Users"] {
        assert!(is_system_dir(dir), "{}", dir);
    }
    for dir in ["", "/usr/", "/usr/local", "/home", "usr", "/tmp", "/Users/ann", "//"] {
        assert!(!is_system_dir(dir), "{}", dir);
    }
}

#[test]
fn default_home_is_under_home() {
    assert_eq!(default_home("ann"), "/home/ann");
    assert_eq!(default_home(""), "/home/");
}

#[test]
fn remote_home_prefers_the_answer() {
    assert_eq!(remote_home(Some("/data/ann\n"), "ann"), "/data/ann");
    assert_eq!(remote_home(Some("  /root \r\n"), "ann"), "/root");
    assert_eq!(remote_home(Some("\n"), "ann"), "/home/ann");
    assert_eq!(remote_home(Some(""), "ann"), "/home/ann");
    assert_eq!(remote_home(None, "ann"), "/home/ann");
}

#[test]
fn trim_matches_the_standard_library() {
    for s in [
        "", " ", "a", " a", "a ", " a b ", "\t\n x \r\n", "\u{a0}x\u{3000}", "\u{2003}\u{2028}",
        "x\u{85}", "\u{1680}y\u{205f}", "\u{200b}z", "\u{feff}z", " \u{b} \u{c} ",
    ] {
        assert_eq!(trim(s), s.trim(), "{:?}", s);
    }
}

#[test]
fn is_space_matches_the_standard_library() {
    let mut code: u32 = 0;
    while code < 0x11000 {
        if let Some(c) = char::from_u32(code) {
            assert_eq!(is_space(c), c.is_whitespace(), "U+{:04X}", code);
        }
        code += 1;
    }
}

#[test]
fn text_comparisons() {
    assert!(str_eq("", ""));
    assert!(str_eq("abc", "abc"));
    assert!(!str_eq("abc", "abd"));
    assert!(!str_eq("abc", "ab"));
    assert!(starts_with("abc", ""));
    assert!(starts_with("abc", "ab"));
    assert!(starts_with("abc", "abc"));
    assert!(!starts_with("abc", "abcd"));
    assert!(!starts_with("abc", "b"));
    assert!(starts_with("épée", "ép"));
}

#[test]
fn decimal_matches_the_standard_library() {
    for n in [0u64, 1, 9, 10, 11, 99, 100, 101, 1023, 1024, 123456789, u64::MAX] {
        assert_eq!(decimal(n), n.to_string());
    }
}

#[test]
fn local_looking_paths_are_resolved_all_the_same() {
    assert_eq!(
        check_remote_path("/Users/ann/file.txt", "/home/ann"),
        ("/Users/ann/file.txt".to_string(), true)
    );
    assert_eq!(check_remote_path("/home/bob/x", "/home/ann"), ("/home/bob/x".to_string(), true));
    assert_eq!(check_remote_path("/home/ann/x", "/home/ann"), ("/home/ann/x".to_string(), false));
    assert_eq!(check_remote_path("~/x", "/home/ann"), ("/home/ann/x".to_string(), false));
    assert_eq!(check_remote_path("~", "/Users/ann"), ("/Users/ann".to_string(), false));
    assert_eq!(check_remote_path(".", "/home/ann"), ("/home/ann".to_string(), false));
    assert_eq!(check_remote_path("/srv/data", "/home/ann"), ("/srv/data".to_string(), false));
    assert_eq!(check_remote_path("", "/home/ann"), ("".to_string(), false));
}

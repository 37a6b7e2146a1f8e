use mcsdk::paths::{is_absolute_path, join_path};
use mcsdk::text::{decimal, same_text};

#[test]
fn decimal_writes_base_ten() {
    assert_eq!(decimal(0), "0");
    assert_eq!(decimal(7), "7");
    assert_eq!(decimal(10), "10");
    assert_eq!(decimal(256), "256");
    assert_eq!(decimal(1024), "1024");
    assert_eq!(decimal(2048), "2048");
    assert_eq!(decimal(100000), "100000");
    assert_eq!(decimal(u32::MAX), "4294967295");
}

#[test]
fn decimal_agrees_with_the_standard_formatter() {
    for n in (0u32..5000).chain([9999, 10000, 65535, 65536, 999999999, 1000000000, u32::MAX - 1]) {
        assert_eq!(decimal(n), n.to_string());
    }
}

#[test]
fn same_text_compares_characters() {
    assert!(same_text("none", "none"));
    assert!(same_text("", ""));
    assert!(!same_text("none", "None"));
    assert!(!same_text("none", "none/"));
    assert!(!same_text("a", ""));
}

#[test]
fn absolute_paths_start_at_the_root() {
    assert!(is_absolute_path("/"));
    assert!(is_absolute_path("/var/tmp"));
    assert!(is_absolute_path("/plugins/a.jar"));
    assert!(!is_absolute_path(""));
    assert!(!is_absolute_path("plugins/a.jar"));
    assert!(!is_absolute_path("./a.jar"));
    assert!(!is_absolute_path("../a.jar"));
    assert!(!is_absolute_path("a/"));
}

#[test]
fn join_puts_one_separator_between() {
    assert_eq!(join_path("/var/tmp", "mcsdk"), "/var/tmp/mcsdk");
    assert_eq!(join_path("/var/tmp/", "mcsdk"), "/var/tmp/mcsdk");
    assert_eq!(join_path("/", "mcsdk"), "/mcsdk");
    assert_eq!(join_path("", "mcsdk"), "mcsdk");
    assert_eq!(join_path("work", "eula.txt"), "work/eula.txt");
    assert_eq!(join_path("/a/b", "c/d"), "/a/b/c/d");
    assert_eq!(join_path("/a/b", ""), "/a/b/");
}

#[test]
fn join_lets_a_rooted_name_stand_alone() {
    assert_eq!(join_path("/var/tmp", "/etc"), "/etc");
    assert_eq!(join_path("", "/"), "/");
}

#[test]
fn join_agrees_with_path_buf_push() {
    let bases = ["", "/", "/a", "/a/", "a", "a/b", "/a/b/", "ü/ö"];
    let names = ["x", "x/y", "/x", "", "eula.txt", "Paper:1.20.4-AbCd1234", "é"];
    for base in bases {
        for name in names {
            let mut expected = std::path::PathBuf::from(base);
            expected.push(name);
            assert_eq!(join_path(base, name), expected.to_str().unwrap(), "{:?} + {:?}", base, name);
        }
    }
}

#[test]
fn absolute_agrees_with_path_is_absolute() {
    for p in ["", "/", "/a", "a", "./a", "../a", "a/b", "/a/b/", "~", "~/a"] {
        assert_eq!(is_absolute_path(p), std::path::Path::new(p).is_absolute(), "{:?}", p);
    }
}

use cmake::config::{auto_cflags, compose_cflags, generator_args, path_join, select_profile};
use cmake::environment::lookup;
use cmake::strutil::{contains_sub, str_eq};

#[test]
fn auto_flags_for_the_three_target_classes() {
    assert_eq!(
        auto_cflags("x86_64-unknown-linux-gnu"),
        vec!["-ffunction-sections", "-fdata-sections", "-m64", "-fPIC"]
    );
    assert_eq!(
        auto_cflags("i686-unknown-linux-gnu"),
        vec!["-ffunction-sections", "-fdata-sections", "-m32"]
    );
    assert!(auto_cflags("x86_64-pc-windows-msvc").is_empty());
    assert!(auto_cflags("i686-pc-windows-msvc").is_empty());
    assert_eq!(
        auto_cflags("aarch64-unknown-linux-gnu"),
        vec!["-ffunction-sections", "-fdata-sections", "-fPIC"]
    );
}

#[test]
fn composed_flags_exact_strings() {
    assert_eq!(
        compose_cflags("", "", "x86_64-unknown-linux-gnu"),
        "  -ffunction-sections -fdata-sections -m64 -fPIC"
    );
    assert_eq!(
        compose_cflags("", "", "i686-unknown-linux-gnu"),
        "  -ffunction-sections -fdata-sections -m32"
    );
    assert_eq!(compose_cflags("", "", "x86_64-pc-windows-msvc"), " ");
    assert_eq!(
        compose_cflags("-O2", " -user", "x86_64-pc-windows-msvc"),
        "-O2  -user"
    );
}

#[test]
fn profile_names() {
    assert_eq!(select_profile("release", false), "Release");
    assert_eq!(select_profile("bench", false), "Release");
    assert_eq!(select_profile("debug", false), "Debug");
    assert_eq!(select_profile("anything", false), "Debug");
    assert_eq!(select_profile("debug", true), "Release");
    assert_eq!(select_profile("anything", true), "Release");
}

#[test]
fn generator_choice() {
    assert_eq!(
        generator_args("x86_64-pc-windows-gnu").unwrap(),
        vec!["-G", "Unix Makefiles"]
    );
    assert_eq!(
        generator_args("i686-pc-windows-gnu").unwrap(),
        vec!["-G", "Unix Makefiles"]
    );
    assert_eq!(
        generator_args("i686-pc-windows-msvc").unwrap(),
        vec!["-G", "Visual Studio 12 2013"]
    );
    assert_eq!(
        generator_args("x86_64-pc-windows-msvc").unwrap(),
        vec!["-G", "Visual Studio 12 2013 Win64"]
    );
    assert!(generator_args("x86_64-unknown-linux-gnu").unwrap().is_empty());
    assert!(generator_args("arm-pc-windows-msvc").is_none());
}

#[test]
fn path_joining() {
    assert_eq!(path_join("/work", "libfoo"), "/work/libfoo");
    assert_eq!(path_join("/work/", "libfoo"), "/work/libfoo");
    assert_eq!(path_join("/work", "/abs"), "/abs");
    assert_eq!(path_join("", "rel"), "/rel");
    assert_eq!(path_join("/out", "build"), "/out/build");
}

#[test]
fn path_joining_on_windows_hosts() {
    assert_eq!(path_join("C:\\work", "C:\\proj"), "C:\\proj");
    assert_eq!(path_join("C:\\work", "d:/proj"), "d:/proj");
    assert_eq!(path_join("C:\\work", "\\rooted"), "\\rooted");
    assert_eq!(path_join("C:\\work", "proj"), "C:\\work/proj");
    assert_eq!(path_join("C:\\work\\", "proj"), "C:\\work\\proj");
    // a lone colon without a drive letter does not make a path absolute
    assert_eq!(path_join("/work", "1:x"), "/work/1:x");
}

#[test]
fn substring_search() {
    assert!(contains_sub("x86_64-pc-windows-msvc", "msvc"));
    assert!(contains_sub("x86_64-pc-windows-msvc", "x86_64"));
    assert!(!contains_sub("x86_64-pc-windows-msvc", "i686"));
    assert!(contains_sub("abc", ""));
    assert!(!contains_sub("ab", "abc"));
    assert!(contains_sub("aaab", "aab"));
}

#[test]
fn string_equality() {
    assert!(str_eq("release", "release"));
    assert!(!str_eq("release", "releas"));
    assert!(!str_eq("release", "bench"));
    assert!(str_eq("", ""));
}

#[test]
fn lookup_first_match_wins() {
    let vars = vec![
        ("A".to_string(), "1".to_string()),
        ("B".to_string(), "2".to_string()),
        ("A".to_string(), "3".to_string()),
    ];
    assert_eq!(lookup(&vars, "A"), Some("1".to_string()));
    assert_eq!(lookup(&vars, "B"), Some("2".to_string()));
    assert_eq!(lookup(&vars, "C"), None);
}

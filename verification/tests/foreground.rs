use sensi_alternada::foreground::{eq_ignore_ascii_case, exe_name, is_focused, DEFAULT_TARGET_EXE};

#[test]
fn the_executable_name_is_the_last_path_segment() {
    assert_eq!(exe_name(r"C:\Program Files\BlueStacks_nxt\HD-Player.exe"), "HD-Player.exe");
    assert_eq!(exe_name("/usr/bin/app"), "app");
    assert_eq!(exe_name("plain.exe"), "plain.exe");
    assert_eq!(exe_name(r"C:\dir\"), "");
    assert_eq!(exe_name(""), "");
}

#[test]
fn the_target_matches_without_ascii_case() {
    assert!(is_focused(DEFAULT_TARGET_EXE, Some("HD-Player.exe")));
    assert!(!is_focused(DEFAULT_TARGET_EXE, Some("explorer.exe")));
    assert!(!is_focused(DEFAULT_TARGET_EXE, None));
    assert!(is_focused("*", None));
    assert!(is_focused("*", Some("explorer.exe")));
}

#[test]
fn case_folding_is_ascii_only() {
    assert!(eq_ignore_ascii_case("ÁBC", "Ábc"));
    assert!(!eq_ignore_ascii_case("ábc", "ÁBC"));
    assert!(!eq_ignore_ascii_case("abc", "abcd"));
}

use iroh_tunnel_service::location::{
    admin_only_root_variables, admin_only_roots, is_admin_only, is_under_any, normalize_for_prefix,
    warn_unless_binary_is_admin_only, warn_unless_config_is_admin_only,
};
use iroh_tunnel_service::wide::WideText;

fn under(binary: &str, root: &str) -> bool {
    is_under_any(&WideText::new(binary), &[WideText::new(root)])
}

#[test]
fn text_survives_the_round_trip() {
    for text in ["", "abc", "C:\\Users\\J\u{F6}rg", "\u{1F600}x\u{10FFFF}"] {
        assert_eq!(WideText::new(text).to_string_lossy(), text);
    }
    assert_eq!(WideText::new("\u{1F600}").units(), &vec![0xD83D, 0xDE00]);
    assert_eq!(WideText::new("a").copy(), WideText::new("a"));
}

#[test]
fn lone_surrogates_read_as_replacement_characters() {
    let read = |units: Vec<u16>| WideText::from_units(units).to_string_lossy();
    assert_eq!(read(vec![0x66, 0x6F, 0xD800, 0x6F]), "fo\u{FFFD}o");
    assert_eq!(read(vec![0xDC00, 0xD800]), "\u{FFFD}\u{FFFD}");
    assert_eq!(read(vec![0xD800, 0xD83D, 0xDE00]), "\u{FFFD}\u{1F600}");
}

#[test]
fn normalizing_folds_case_and_slashes_and_drops_one_marker() {
    let normal = |text: &str| normalize_for_prefix(&WideText::new(text));
    assert_eq!(normal("C:/Program Files/X"), "c:\\program files\\x");
    assert_eq!(normal(r"\\?\C:\X"), r"c:\x");
    assert_eq!(normal("//?/C:/X"), r"c:\x");
    assert_eq!(normal(r"\\?\\\?\x"), r"\\?\x");
    assert_eq!(normal(r"\\server\share"), r"\\server\share");
    assert_eq!(normal(""), "");
    assert_eq!(normal("\u{C4}Z"), "\u{C4}z");
}

#[test]
fn a_root_ends_at_a_component() {
    assert!(under(r"C:\Windows\x", r"C:\Windows"));
    assert!(!under(r"C:\Windows", r"C:\Windows"));
    assert!(!under(r"C:\Windowsx", r"C:\Windows"));
    assert!(!under(r"C:\Win", r"C:\Windows"));
}

#[test]
fn trailing_backslashes_of_a_root_do_not_matter() {
    assert!(under(r"C:\Windows\x", r"C:\Windows\"));
    assert!(under(r"C:\Windows\x", r"C:\Windows\\\"));
    assert!(under(r"C:\Windows\x", "C:/Windows/"));
    assert!(under(r"C:\", r"C:\"));
}

#[test]
fn the_marker_in_a_root_does_not_matter() {
    assert!(under(r"C:\Windows\x", r"\\?\C:\Windows"));
    assert!(under(r"\\?\C:\Windows\x", r"\\?\C:\Windows"));
}

#[test]
fn an_empty_root_holds_nothing() {
    assert!(!under(r"C:\Windows\x", ""));
    assert!(!under(r"\x", r"\"));
    assert!(!under(r"\x", r"\\?\"));
    assert!(!is_under_any(&WideText::new(r"C:\x"), &[]));
}

#[test]
fn the_bare_start_of_a_marker_is_a_root_that_its_own_paths_escape() {
    assert!(!under(r"\\?\x", r"\\?"));
}

#[test]
fn a_further_root_takes_nothing_away() {
    let path = WideText::new(r"D:\a\b");
    let one = vec![WideText::new(r"D:\a")];
    let two = vec![WideText::new(r"D:\a"), WideText::new(r"E:\c")];
    assert!(is_under_any(&path, &one));
    assert!(is_under_any(&path, &two));
    assert!(is_under_any(&WideText::new(r"e:\C\d"), &two));
}

#[test]
fn roots_come_from_the_variables_that_are_set() {
    assert_eq!(
        admin_only_root_variables(),
        vec!["ProgramFiles", "ProgramFiles(x86)", "SystemRoot"]
    );
    let values = vec![
        Some(WideText::new(r"C:\Program Files")),
        None,
        Some(WideText::new(r"C:\Windows")),
    ];
    assert_eq!(
        admin_only_roots(&values),
        vec![
            WideText::new(r"C:\Program Files"),
            WideText::new(r"C:\Windows")
        ]
    );
    assert!(is_admin_only(&WideText::new(r"c:\windows\x"), &values));
    assert!(!is_admin_only(
        &WideText::new(r"C:\Program Files (x86)\x"),
        &values
    ));
    assert!(!is_admin_only(&WideText::new(r"c:\windows\x"), &[None]));
}

#[test]
fn warnings_are_due_outside_the_roots_only() {
    let values = vec![Some(WideText::new(r"C:\Windows"))];
    let inside = WideText::new(r"C:\Windows\x");
    let outside = WideText::new(r"D:\x");
    assert!(warn_unless_binary_is_admin_only(&inside, &values).is_none());
    assert!(warn_unless_config_is_admin_only(&inside, &values).is_none());
    assert_eq!(
        warn_unless_binary_is_admin_only(&outside, &values).unwrap(),
        "warning: D:\\x is outside Program Files and the Windows directory, so it may be replaceable \
         by a non-administrator; the service runs as LocalSystem, so that would hand out \
         SYSTEM. Copy the binary somewhere only administrators can write and install from \
         there."
    );
    assert_eq!(
        warn_unless_config_is_admin_only(&outside, &values).unwrap(),
        "warning: D:\\x is outside Program Files and the Windows directory, so it may be writable by a \
         non-administrator; the service re-reads it as LocalSystem on every start, so that \
         would let a non-administrator choose what a SYSTEM process exposes. Move the config \
         somewhere only administrators can write and install with --config pointing there."
    );
}

#[test]
fn a_root_protects_the_same_paths_among_others() {
    let first = vec![WideText::new(r"C:\Program Files")];
    let second = vec![WideText::new(r"C:\Windows")];
    let both = vec![first[0].copy(), second[0].copy()];
    for (path, by_first, by_second) in [
        (r"C:\Program Files\t.exe", true, false),
        (r"C:\Windows\t.exe", false, true),
        (r"D:\t.exe", false, false),
    ] {
        let path = WideText::new(path);
        assert_eq!(is_under_any(&path, &first), by_first);
        assert_eq!(is_under_any(&path, &second), by_second);
        assert_eq!(is_under_any(&path, &both), by_first || by_second);
        assert!(!is_under_any(&path, &[]));
    }
}

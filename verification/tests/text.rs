use tetra::text;

#[test]
fn white_space_is_that_of_the_standard_library() {
    for code in 0..=0x10ffff_u32 {
        if let Some(c) = char::from_u32(code) {
            assert_eq!(text::is_whitespace(c), c.is_whitespace(), "{code:#x}");
        }
    }
}

#[test]
fn trims_like_the_standard_library() {
    let samples = [
        "", " ", "a", " a", "a ", "\t a b \n", "\u{a0}x\u{3000}", "\u{2028}", "é ü", " /x/ ",
    ];
    for sample in samples {
        assert_eq!(text::trim(sample), sample.trim());
        assert_eq!(text::trim(text::trim(sample)), text::trim(sample));
    }
}

#[test]
fn trailing_slashes_go_like_in_the_standard_library() {
    for sample in ["", "/", "//", "a", "a/", "a//", "/a", "a/b//", "é//", "a/ /"] {
        assert_eq!(text::trim_end_slashes(sample), sample.trim_end_matches('/'));
    }
}

#[test]
fn prefixes_and_ends_are_found() {
    assert!(text::starts_with("wss://a", "wss://"));
    assert!(text::starts_with("a", ""));
    assert!(!text::starts_with("ws", "wss"));
    assert!(!text::starts_with("wsx", "wss"));
    assert_eq!(text::after_prefix("vsock://3", "vsock://"), "3");
    assert!(text::ends_with_char("a\n", '\n'));
    assert!(!text::ends_with_char("", '\n'));
    assert!(text::same("äb", "äb"));
    assert!(!text::same("a", "ab"));
    assert!(!text::same("ac", "ab"));
}

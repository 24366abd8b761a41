use tts_supervisor::text::{
    concat2, concat3, contains_sub, ends_with_sub, first_line, trimmed, u32_to_dec, u64_to_dec,
};

#[test]
fn decimal_rendering_exact() {
    assert_eq!(u32_to_dec(0), "0");
    assert_eq!(u32_to_dec(7), "7");
    assert_eq!(u32_to_dec(8192), "8192");
    assert_eq!(u32_to_dec(u32::MAX), "4294967295");
    assert_eq!(u64_to_dec(30), "30");
    assert_eq!(u64_to_dec(1000), "1000");
}

#[test]
fn first_line_takes_text_before_newline() {
    assert_eq!(first_line("permission denied\nsee logs"), "permission denied");
    assert_eq!(first_line("one line only"), "one line only");
    assert_eq!(first_line(""), "");
}

#[test]
fn first_line_strips_carriage_return_only_before_newline() {
    assert_eq!(first_line("windows text\r\nmore"), "windows text");
    // A carriage return at the end of unterminated text is kept.
    assert_eq!(first_line("tail cr\r"), "tail cr\r");
    assert_eq!(first_line("\n"), "");
    assert_eq!(first_line("\r\n"), "");
}

#[test]
fn trimmed_strips_both_ends() {
    assert_eq!(trimmed("  Docker version 24.0.7\n"), "Docker version 24.0.7");
    assert_eq!(trimmed("\t x \r\n"), "x");
    assert_eq!(trimmed("untouched"), "untouched");
    assert_eq!(trimmed("   \n\t  "), "");
    assert_eq!(trimmed(""), "");
}

#[test]
fn trimmed_strips_unicode_whitespace() {
    assert_eq!(trimmed("\u{a0}\u{2003}padded\u{2028}\u{3000}"), "padded");
    assert_eq!(trimmed("\u{85}kept inside\u{2009}text\u{205f}"), "kept inside\u{2009}text");
}

#[test]
fn substring_search() {
    assert!(contains_sub("error: permission denied while connecting", "permission denied"));
    assert!(!contains_sub("error: connection refused", "permission denied"));
    assert!(contains_sub("abc", ""));
    assert!(!contains_sub("ab", "abc"));
    assert!(contains_sub("aaab", "aab"));
}

#[test]
fn ends_with_search() {
    assert!(ends_with_sub("kittentts-server.exe", ".exe"));
    assert!(!ends_with_sub("kittentts-server.py", ".exe"));
    assert!(!ends_with_sub("exe", ".exe"));
}

#[test]
fn concatenation() {
    assert_eq!(concat2("a/", "b"), "a/b");
    assert_eq!(concat3("x", " - ", "y"), "x - y");
}

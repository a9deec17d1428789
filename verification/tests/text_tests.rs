use pixellift::child::{failure_message, failure_tail};
use pixellift::text::{chars_of, contains, decimal_string, str_eq, white_space};

#[test]
fn decimal_rendering() {
    assert_eq!(decimal_string(0), "0");
    assert_eq!(decimal_string(9), "9");
    assert_eq!(decimal_string(10), "10");
    assert_eq!(decimal_string(1234567890123), "1234567890123");
    assert_eq!(decimal_string(u64::MAX), u64::MAX.to_string());
}

#[test]
fn chars_of_keeps_every_character() {
    assert_eq!(chars_of("añ€😀"), vec!['a', 'ñ', '€', '😀']);
    assert_eq!(chars_of(""), Vec::<char>::new());
}

#[test]
fn substring_search() {
    assert!(contains("realesrgan-x4plus-anime", "x4plus"));
    assert!(contains("x4plus", "x4plus"));
    assert!(!contains("realesr-animevideov3", "x4plus"));
    assert!(!contains("x4plu", "x4plus"));
    assert!(contains("anything", ""));
}

#[test]
fn string_equality() {
    assert!(str_eq("video", "video"));
    assert!(!str_eq("video", "videos"));
    assert!(!str_eq("audio", "video"));
}

#[test]
fn white_space_matches_std() {
    for c in ['\t', '\n', '\u{0B}', '\u{0C}', '\r', ' ', '\u{85}', '\u{A0}', '\u{1680}', '\u{2000}',
        '\u{200A}', '\u{2028}', '\u{2029}', '\u{202F}', '\u{205F}', '\u{3000}', 'a', '\u{200B}', '\u{FEFF}', '_']
    {
        assert_eq!(white_space(c), c.is_whitespace(), "{:?}", c);
    }
}

#[test]
fn tail_keeps_nonblank_lines() {
    assert_eq!(failure_tail("first\n\n   \nsecond\r\nthird"), "first\n  second\n  third");
}

#[test]
fn tail_keeps_last_six() {
    let log = "1\n2\n3\n4\n5\n6\n7\n8\n";
    assert_eq!(failure_tail(log), "3\n  4\n  5\n  6\n  7\n  8");
}

#[test]
fn tail_of_empty_or_blank_log_is_empty() {
    assert_eq!(failure_tail(""), "");
    assert_eq!(failure_tail("\n \t\n\r\n"), "");
}

#[test]
fn tail_keeps_a_final_carriage_return_without_line_feed() {
    assert_eq!(failure_tail("a\r\nb\r"), "a\n  b\r");
}

#[test]
fn tail_matches_std_lines() {
    let log = "x\n\ny \r\n\u{3000}\nlast one\n";
    let expected: Vec<&str> = log.lines().filter(|l| !l.trim().is_empty()).collect();
    assert_eq!(failure_tail(log), expected.join("\n  "));
}

#[test]
fn failure_message_layout() {
    assert_eq!(
        failure_message("encoding (ffmpeg)", "exit status: 1", "frame=1\nError opening output\n"),
        "encoding (ffmpeg) failed with exit status: 1\n  last output:\n  frame=1\n  Error opening output"
    );
}

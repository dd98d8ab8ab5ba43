use icon_resolver::number::{push_decimal, read_scale};
use icon_resolver::path::{join_path, parent_dir, stem_chars};
use icon_resolver::scale::file_stem_contains;
use icon_resolver::text::{contains_chars, find_from, same_text, to_chars};

fn text(chars: Vec<char>) -> String {
    chars.into_iter().collect()
}

#[test]
fn parent_is_what_stands_before_the_last_separator() {
    assert_eq!(parent_dir("C:\\pkg\\App.exe"), "C:\\pkg");
    assert_eq!(parent_dir("C:/pkg/App.exe"), "C:/pkg");
    assert_eq!(parent_dir("C:\\pkg/Assets\\Logo.png"), "C:\\pkg/Assets");
    assert_eq!(parent_dir("App.exe"), "");
    assert_eq!(parent_dir(""), "");
    assert_eq!(parent_dir("C:\\pkg\\"), "C:\\pkg");
}

#[test]
fn join_parts_with_one_backslash() {
    assert_eq!(join_path("C:\\pkg", "assets"), "C:\\pkg\\assets");
    assert_eq!(join_path("C:\\pkg\\", "assets"), "C:\\pkg\\assets");
    assert_eq!(join_path("C:/pkg/", "assets"), "C:/pkg/assets");
    assert_eq!(join_path("", "assets"), "assets");
    assert_eq!(join_path("C:\\pkg", "Assets\\Logo.png"), "C:\\pkg\\Assets\\Logo.png");
}

#[test]
fn stem_drops_the_last_extension_only() {
    assert_eq!(text(stem_chars("C:\\a\\Logo.scale-100.png")), "Logo.scale-100");
    assert_eq!(text(stem_chars("Logo.png")), "Logo");
    assert_eq!(text(stem_chars("C:/a/Logo")), "Logo");
    assert_eq!(text(stem_chars("C:\\a\\.hidden")), ".hidden");
    assert_eq!(text(stem_chars("C:\\a.b\\Logo")), "Logo");
    assert_eq!(text(stem_chars("C:\\a\\")), "");
    assert_eq!(text(stem_chars("C:\\a\\name.")), "name");
}

#[test]
fn file_stem_contains_looks_at_the_stem_only() {
    assert!(file_stem_contains("C:\\a\\Logo.scale-100.png", "scale-"));
    assert!(file_stem_contains("C:\\a\\Logo.scale-100.png", "Logo"));
    assert!(!file_stem_contains("C:\\a\\Logo.scale-100.png", "png"));
    assert!(!file_stem_contains("C:\\scale-1\\Logo.png", "scale-"));
    assert!(file_stem_contains("C:\\a\\Logo.png", ""));
}

#[test]
fn substring_search_finds_the_first_place() {
    let hay = to_chars("abcabcabc");
    assert_eq!(find_from(&hay, &to_chars("bc"), 0), Some(1));
    assert_eq!(find_from(&hay, &to_chars("bc"), 2), Some(4));
    assert_eq!(find_from(&hay, &to_chars("bc"), 8), None);
    assert_eq!(find_from(&hay, &to_chars(""), 9), Some(9));
    assert_eq!(find_from(&hay, &to_chars(""), 10), None);
    assert_eq!(find_from(&hay, &to_chars("abcabcabcd"), 0), None);
    assert!(contains_chars(&hay, &to_chars("cab")));
    assert!(!contains_chars(&hay, &to_chars("cba")));
}

#[test]
fn same_text_compares_whole_strings() {
    assert!(same_text("App", "App"));
    assert!(!same_text("App", "Apps"));
    assert!(!same_text("App", "app"));
    assert!(same_text("", ""));
}

#[test]
fn to_chars_keeps_non_ascii_characters() {
    assert_eq!(to_chars("a\u{e9}\u{4e2d}"), vec!['a', '\u{e9}', '\u{4e2d}']);
}

#[test]
fn scale_is_read_as_a_signed_16_bit_number() {
    assert_eq!(read_scale(&to_chars("100")), Some(100));
    assert_eq!(read_scale(&to_chars("0")), Some(0));
    assert_eq!(read_scale(&to_chars("007")), Some(7));
    assert_eq!(read_scale(&to_chars("+125")), Some(125));
    assert_eq!(read_scale(&to_chars("-5")), Some(-5));
    assert_eq!(read_scale(&to_chars("32767")), Some(32767));
    assert_eq!(read_scale(&to_chars("-32768")), Some(-32768));
}

#[test]
fn scale_that_is_no_number_is_refused() {
    assert_eq!(read_scale(&to_chars("")), None);
    assert_eq!(read_scale(&to_chars("+")), None);
    assert_eq!(read_scale(&to_chars("-")), None);
    assert_eq!(read_scale(&to_chars("32768")), None);
    assert_eq!(read_scale(&to_chars("-32769")), None);
    assert_eq!(read_scale(&to_chars("99999999999999999999")), None);
    assert_eq!(read_scale(&to_chars("100_altform-16")), None);
    assert_eq!(read_scale(&to_chars("1 0")), None);
    assert_eq!(read_scale(&to_chars("--1")), None);
    assert_eq!(read_scale(&to_chars("\u{663}")), None);
}

#[test]
fn decimal_text_is_written_without_leading_zeros() {
    let cases: [(i16, &str); 8] = [
        (0, "0"),
        (7, "7"),
        (10, "10"),
        (100, "100"),
        (32767, "32767"),
        (-1, "-1"),
        (-32768, "-32768"),
        (-200, "-200"),
    ];
    for (n, expected) in cases {
        let mut out = vec!['x'];
        push_decimal(n, &mut out);
        assert_eq!(text(out), format!("x{}", expected));
    }
}

#[test]
fn reading_what_was_written_gives_the_number_back() {
    for n in [i16::MIN, -1000, -1, 0, 1, 9, 10, 99, 100, 12345, i16::MAX] {
        let mut out = Vec::new();
        push_decimal(n, &mut out);
        assert_eq!(read_scale(&out), Some(n));
    }
}

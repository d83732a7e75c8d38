use rusty_slack_weather_status::text::{
    before_marker, chars_of, is_white_space_char, join, join_suffixed, strip_diff_marks, trim,
};

fn strings(parts: &[&str]) -> Vec<String> {
    parts.iter().map(|part| part.to_string()).collect()
}

#[test]
fn white_space_is_the_unicode_property() {
    let mut c = '\0';
    loop {
        assert_eq!(is_white_space_char(c), c.is_whitespace(), "{:?}", c);
        if c == char::MAX {
            break;
        }
        c = char::from_u32(c as u32 + 1).unwrap_or('\u{E000}');
    }
    assert!(is_white_space_char(' '));
    assert!(is_white_space_char('\n'));
    assert!(is_white_space_char('\u{3000}'));
    assert!(!is_white_space_char('晴'));
    assert!(!is_white_space_char('\u{200B}'));
}

#[test]
fn trim_drops_white_space_at_both_ends_only() {
    assert_eq!(trim("  晴 のち 曇\n"), "晴 のち 曇");
    assert_eq!(trim("\u{3000}晴\u{3000}"), "晴");
    assert_eq!(trim("晴"), "晴");
    assert_eq!(trim(" \t\r\n"), "");
    assert_eq!(trim(""), "");
    assert_eq!(trim(" a"), "a");
    assert_eq!(trim("a "), "a");
    for s in ["", " ", "a", " a b ", "\n\n10\n", "\u{85}x\u{a0}", "x\u{200b} ", "  ℃[+3] "] {
        assert_eq!(trim(s), s.trim());
    }
}

#[test]
fn trim_is_idempotent() {
    for s in ["", "  ", " a b ", "\t晴\n"] {
        assert_eq!(trim(&trim(s)), trim(s));
    }
}

#[test]
fn chars_of_gives_the_characters_in_order() {
    assert_eq!(chars_of("晴れ10℃"), vec!['晴', 'れ', '1', '0', '℃']);
    assert_eq!(chars_of(""), Vec::<char>::new());
}

#[test]
fn before_marker_stops_at_the_first_occurrence() {
    assert_eq!(before_marker("千代田区の天気", "の天気"), "千代田区");
    assert_eq!(before_marker("aXbXc", "X"), "a");
    assert_eq!(before_marker("Xa", "X"), "");
    assert_eq!(before_marker("abc", "X"), "abc");
    assert_eq!(before_marker("abc", "abcd"), "abc");
    assert_eq!(before_marker("abab", "ab"), "");
    assert_eq!(before_marker("aab", "ab"), "a");
    assert_eq!(before_marker("", "X"), "");
    assert_eq!(before_marker("abc", "c"), "ab");
    assert_eq!(before_marker("abc", "abc"), "");
    assert_eq!(before_marker("abc", ""), "");
    assert_eq!(before_marker("", ""), "");
    for (s, marker) in [
        ("千代田区の天気", "の天気"),
        ("14日11:00発表", "発表"),
        ("aaab", "aab"),
        ("no marker", "発表"),
        ("発", "発表"),
        ("", "発表"),
        ("x", ""),
    ] {
        assert_eq!(before_marker(s, marker), s.split(marker).collect::<Vec<_>>()[0]);
    }
}

#[test]
fn strip_diff_marks_drops_the_three_marks_wherever_they_stand() {
    assert_eq!(strip_diff_marks("[+3]"), "3");
    assert_eq!(strip_diff_marks("[-5]"), "-5");
    assert_eq!(strip_diff_marks("[0]"), "0");
    assert_eq!(strip_diff_marks("1+[2]+3"), "123");
    assert_eq!(strip_diff_marks("[]+"), "");
    assert_eq!(strip_diff_marks(""), "");
    assert_eq!(strip_diff_marks("(+3)"), "(3)");
    for s in ["[+3]", "[-12]", "++", "a[b]c+d", "最高[+1]"] {
        assert_eq!(strip_diff_marks(s), s.replace(['[', '+', ']'].as_ref(), ""));
    }
}

#[test]
fn join_puts_the_separator_between_neighbours() {
    assert_eq!(join(&strings(&[]), ","), "");
    assert_eq!(join(&strings(&["a"]), ","), "a");
    assert_eq!(join(&strings(&["a", "b", "c"]), ","), "a,b,c");
    assert_eq!(join(&strings(&["a", "", "c"]), ", "), "a, , c");
    assert_eq!(join(&strings(&["", ""]), ","), ",");
    let parts = strings(&["大雨", "洪水"]);
    assert_eq!(join(&parts, ","), parts.join(","));
}

#[test]
fn join_suffixed_appends_the_suffix_to_each_entry() {
    assert_eq!(join_suffixed(&strings(&[]), "警報", ","), "");
    assert_eq!(join_suffixed(&strings(&["大雨"]), "警報", ","), "大雨警報");
    assert_eq!(
        join_suffixed(&strings(&["強風", "雷"]), "注意報", ","),
        "強風注意報,雷注意報"
    );
    assert_eq!(join_suffixed(&strings(&["", ""]), "x", "-"), "x-x");
}

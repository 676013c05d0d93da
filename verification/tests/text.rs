use shell_core::text::{chars_of, is_whitespace, parse_i32, parse_line, render_i32, same_text};

fn split(line: &str) -> (String, String) {
    parse_line(line)
}

#[test]
fn whitespace_is_the_unicode_white_space_set() {
    let mut code: u32 = 0;
    while code <= 0x10FFFF {
        if let Some(c) = char::from_u32(code) {
            assert_eq!(is_whitespace(c), c.is_whitespace(), "U+{:04X}", code);
        }
        code += 1;
    }
}

#[test]
fn chars_of_keeps_every_character_in_order() {
    assert_eq!(chars_of("a/é~"), vec!['a', '/', 'é', '~']);
    assert_eq!(chars_of(""), Vec::<char>::new());
}

#[test]
fn same_text_compares_content() {
    assert!(same_text("cd", "cd"));
    assert!(!same_text("cd", "CD"));
    assert!(!same_text("cd", "cd "));
    assert!(same_text("", ""));
}

#[test]
fn parse_line_splits_at_the_first_whitespace() {
    assert_eq!(split("echo hello world"), ("echo".to_string(), "hello world".to_string()));
    assert_eq!(split("cd /tmp"), ("cd".to_string(), "/tmp".to_string()));
    assert_eq!(split("echo\thello"), ("echo".to_string(), "hello".to_string()));
}

#[test]
fn parse_line_trims_the_line_and_the_arguments() {
    assert_eq!(split("  ls  \n"), ("ls".to_string(), "".to_string()));
    assert_eq!(split("echo    a   b  \n"), ("echo".to_string(), "a   b".to_string()));
    assert_eq!(split("\t type \t cd \r\n"), ("type".to_string(), "cd".to_string()));
}

#[test]
fn parse_line_of_nothing_is_two_empty_parts() {
    assert_eq!(split(""), ("".to_string(), "".to_string()));
    assert_eq!(split("   \n"), ("".to_string(), "".to_string()));
}

#[test]
fn parse_line_keeps_other_characters() {
    assert_eq!(split("écho ñandú ~"), ("écho".to_string(), "ñandú ~".to_string()));
}

#[test]
fn parse_i32_reads_signed_decimals() {
    assert_eq!(parse_i32("0"), Some(0));
    assert_eq!(parse_i32("42"), Some(42));
    assert_eq!(parse_i32("-42"), Some(-42));
    assert_eq!(parse_i32("+42"), Some(42));
    assert_eq!(parse_i32("007"), Some(7));
    assert_eq!(parse_i32("-0"), Some(0));
    assert_eq!(parse_i32("00000000000000000000000000000012"), Some(12));
}

#[test]
fn parse_i32_knows_the_limits() {
    assert_eq!(parse_i32("2147483647"), Some(i32::MAX));
    assert_eq!(parse_i32("2147483648"), None);
    assert_eq!(parse_i32("-2147483648"), Some(i32::MIN));
    assert_eq!(parse_i32("-2147483649"), None);
    assert_eq!(parse_i32("99999999999999999999999999"), None);
    assert_eq!(parse_i32("-99999999999999999999999999"), None);
}

#[test]
fn parse_i32_refuses_what_is_no_number() {
    for text in ["", "-", "+", "abc", "12a", "a12", " 5", "5 ", "1 2", "--1", "+-1", "1.0", "٣"] {
        assert_eq!(parse_i32(text), None, "{:?}", text);
    }
}

#[test]
fn parse_i32_agrees_with_the_standard_parser() {
    let samples = [
        "1", "-1", "+1", "10", "2147483647", "2147483648", "-2147483648", "-2147483649", "", "x",
        "0x10", "1e3", "+", "-", "0000", "-0000", "4294967296", "12345678901",
    ];
    for text in samples {
        assert_eq!(parse_i32(text), text.parse::<i32>().ok(), "{:?}", text);
    }
}

#[test]
fn render_i32_writes_decimals() {
    assert_eq!(render_i32(0), "0");
    assert_eq!(render_i32(7), "7");
    assert_eq!(render_i32(10), "10");
    assert_eq!(render_i32(1000), "1000");
    assert_eq!(render_i32(-1), "-1");
    assert_eq!(render_i32(i32::MAX), "2147483647");
    assert_eq!(render_i32(i32::MIN), "-2147483648");
}

#[test]
fn render_then_parse_gives_the_number_back() {
    let mut n: i64 = i32::MIN as i64;
    while n <= i32::MAX as i64 {
        let v = n as i32;
        assert_eq!(render_i32(v), v.to_string());
        assert_eq!(parse_i32(&render_i32(v)), Some(v));
        n += 16_777_259;
    }
}

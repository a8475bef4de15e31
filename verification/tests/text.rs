use flashcards::text::{
    char_is_whitespace, i64_to_string, parse_digits, parse_i64, parse_usize, trim, u64_to_string,
};

#[test]
fn trim_removes_whitespace_at_both_ends_only() {
    assert_eq!(trim("  a b \n"), "a b");
    assert_eq!(trim("\t\r\nfront\u{a0}\u{3000}"), "front");
    assert_eq!(trim("x"), "x");
    assert_eq!(trim(""), "");
    assert_eq!(trim(" \n\t "), "");
}

#[test]
fn trim_agrees_with_the_standard_library() {
    let samples: Vec<&str> = vec![
        "",
        " ",
        "abc",
        " abc",
        "abc ",
        "\u{85}abc\u{1680}",
        "\u{2000}\u{200a}x\u{2028}\u{2029}",
        "\u{202f}y z\u{205f}",
        "\u{200b}zero width\u{200b}",
        "\u{b}\u{c}q",
    ];
    for s in samples {
        assert_eq!(trim(s), s.trim());
    }
}

#[test]
fn whitespace_is_the_unicode_property() {
    let mut code: u32 = 0;
    while code <= 0x3100 {
        if let Some(c) = char::from_u32(code) {
            assert_eq!(char_is_whitespace(c), c.is_whitespace());
        }
        code += 1;
    }
}

#[test]
fn parse_usize_reads_plain_numbers() {
    assert_eq!(parse_usize("0"), Some(0));
    assert_eq!(parse_usize("7"), Some(7));
    assert_eq!(parse_usize("+7"), Some(7));
    assert_eq!(parse_usize("007"), Some(7));
    assert_eq!(parse_usize("1234567890"), Some(1234567890));
    assert_eq!(parse_usize(&usize::MAX.to_string()), Some(usize::MAX));
}

#[test]
fn parse_usize_rejects_everything_else() {
    assert_eq!(parse_usize(""), None);
    assert_eq!(parse_usize("+"), None);
    assert_eq!(parse_usize("-1"), None);
    assert_eq!(parse_usize("-0"), None);
    assert_eq!(parse_usize("1 "), None);
    assert_eq!(parse_usize(" 1"), None);
    assert_eq!(parse_usize("1_000"), None);
    assert_eq!(parse_usize("12a"), None);
    assert_eq!(parse_usize("++1"), None);
    assert_eq!(parse_usize("\u{661}"), None);
    assert_eq!(parse_usize("18446744073709551616"), None);
    assert_eq!(parse_usize("99999999999999999999999999"), None);
}

#[test]
fn parse_usize_agrees_with_the_standard_library() {
    let samples: Vec<&str> =
        vec!["", "0", "+0", "-0", "42", "+42", "4 2", "0x10", "18446744073709551615", "18446744073709551616", "1e3"];
    for s in samples {
        assert_eq!(parse_usize(s), s.parse::<usize>().ok());
    }
}

#[test]
fn parse_i64_reads_signed_numbers() {
    assert_eq!(parse_i64("0"), Some(0));
    assert_eq!(parse_i64("-0"), Some(0));
    assert_eq!(parse_i64("+15"), Some(15));
    assert_eq!(parse_i64("-15"), Some(-15));
    assert_eq!(parse_i64("9223372036854775807"), Some(i64::MAX));
    assert_eq!(parse_i64("-9223372036854775808"), Some(i64::MIN));
}

#[test]
fn parse_i64_rejects_everything_else() {
    assert_eq!(parse_i64(""), None);
    assert_eq!(parse_i64("-"), None);
    assert_eq!(parse_i64("+"), None);
    assert_eq!(parse_i64("+-1"), None);
    assert_eq!(parse_i64("--1"), None);
    assert_eq!(parse_i64("1.5"), None);
    assert_eq!(parse_i64("9223372036854775808"), None);
    assert_eq!(parse_i64("-9223372036854775809"), None);
}

#[test]
fn parse_i64_agrees_with_the_standard_library() {
    let samples: Vec<&str> = vec![
        "", "-", "+", "0", "-0", "+0", "12", "-12", "+12", "1-2", "9223372036854775807",
        "9223372036854775808", "-9223372036854775808", "-9223372036854775809", " 1",
    ];
    for s in samples {
        assert_eq!(parse_i64(s), s.parse::<i64>().ok());
    }
}

#[test]
fn parse_digits_starts_where_told_and_keeps_the_limit() {
    assert_eq!(parse_digits("ab12", 2, 100), Some(12));
    assert_eq!(parse_digits("ab12", 2, 11), None);
    assert_eq!(parse_digits("ab12", 2, 12), Some(12));
    assert_eq!(parse_digits("ab12", 4, 100), None);
    assert_eq!(parse_digits("ab12", 1, 100), None);
    assert_eq!(parse_digits("9", 0, 5), None);
}

#[test]
fn numbers_are_written_in_base_ten() {
    assert_eq!(u64_to_string(0), "0");
    assert_eq!(u64_to_string(9), "9");
    assert_eq!(u64_to_string(10), "10");
    assert_eq!(u64_to_string(1234567890), "1234567890");
    assert_eq!(u64_to_string(u64::MAX), "18446744073709551615");
    assert_eq!(i64_to_string(0), "0");
    assert_eq!(i64_to_string(-1), "-1");
    assert_eq!(i64_to_string(42), "42");
    assert_eq!(i64_to_string(i64::MAX), "9223372036854775807");
    assert_eq!(i64_to_string(i64::MIN), "-9223372036854775808");
}

#[test]
fn written_numbers_read_back() {
    let samples: Vec<u64> = vec![0, 1, 9, 10, 11, 99, 100, 101, 65535, 4294967296, u64::MAX];
    for n in samples {
        assert_eq!(parse_digits(&u64_to_string(n), 0, u64::MAX), Some(n));
        assert_eq!(trim(&u64_to_string(n)), u64_to_string(n));
    }
    let signed: Vec<i64> = vec![0, 1, -1, 77, -77, i64::MAX, i64::MIN];
    for v in signed {
        assert_eq!(parse_i64(&i64_to_string(v)), Some(v));
    }
}

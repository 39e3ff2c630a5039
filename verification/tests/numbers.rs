use firmconfig::number::{decode_integer, decode_length, render_integer, render_length};

#[test]
fn integer_reads_plain_digits() {
    assert_eq!(decode_integer("0"), Some(0));
    assert_eq!(decode_integer("5"), Some(5));
    assert_eq!(decode_integer("42"), Some(42));
    assert_eq!(decode_integer("100"), Some(100));
    assert_eq!(decode_integer("1234567890"), Some(1234567890));
}

#[test]
fn integer_reads_a_leading_sign() {
    assert_eq!(decode_integer("-42"), Some(-42));
    assert_eq!(decode_integer("+42"), Some(42));
    assert_eq!(decode_integer("-0"), Some(0));
    assert_eq!(decode_integer("+0"), Some(0));
}

#[test]
fn integer_reads_leading_zeros() {
    assert_eq!(decode_integer("007"), Some(7));
    assert_eq!(decode_integer("-007"), Some(-7));
    assert_eq!(decode_integer("0000000000000000000000000000001"), Some(1));
}

#[test]
fn integer_rejects_text_without_digits() {
    assert_eq!(decode_integer(""), None);
    assert_eq!(decode_integer("-"), None);
    assert_eq!(decode_integer("+"), None);
    assert_eq!(decode_integer("+-1"), None);
    assert_eq!(decode_integer("--1"), None);
}

#[test]
fn integer_rejects_stray_characters() {
    assert_eq!(decode_integer("12a"), None);
    assert_eq!(decode_integer("a12"), None);
    assert_eq!(decode_integer("1 2"), None);
    assert_eq!(decode_integer(" 12"), None);
    assert_eq!(decode_integer("12 "), None);
    assert_eq!(decode_integer("12\n"), None);
    assert_eq!(decode_integer("1.5"), None);
    assert_eq!(decode_integer("0x10"), None);
    assert_eq!(decode_integer("1-"), None);
    assert_eq!(decode_integer("ten"), None);
}

#[test]
fn integer_rejects_digits_of_other_scripts() {
    assert_eq!(decode_integer("\u{0661}\u{0662}"), None);
    assert_eq!(decode_integer("1\u{00e9}"), None);
    assert_eq!(decode_length("\u{ff11}"), None);
}

#[test]
fn integer_keeps_the_full_range_and_no_more() {
    assert_eq!(decode_integer("9223372036854775807"), Some(i64::MAX));
    assert_eq!(decode_integer("+9223372036854775807"), Some(i64::MAX));
    assert_eq!(decode_integer("9223372036854775808"), None);
    assert_eq!(decode_integer("-9223372036854775808"), Some(i64::MIN));
    assert_eq!(decode_integer("-9223372036854775809"), None);
    assert_eq!(decode_integer("18446744073709551616"), None);
    assert_eq!(decode_integer("99999999999999999999999999999999"), None);
    assert_eq!(decode_integer("-99999999999999999999999999999999"), None);
    assert_eq!(decode_integer("99999999999999999999999999999999x"), None);
}

#[test]
fn length_reads_unsigned_numbers_only() {
    assert_eq!(decode_length("0"), Some(0));
    assert_eq!(decode_length("64"), Some(64));
    assert_eq!(decode_length("+64"), Some(64));
    assert_eq!(decode_length("0064"), Some(64));
    assert_eq!(decode_length("-64"), None);
    assert_eq!(decode_length("-0"), None);
    assert_eq!(decode_length(""), None);
    assert_eq!(decode_length("+"), None);
    assert_eq!(decode_length("six"), None);
    assert_eq!(decode_length("6 4"), None);
}

#[test]
fn length_keeps_the_full_range_and_no_more() {
    assert_eq!(decode_length("18446744073709551615"), Some(u64::MAX));
    assert_eq!(decode_length("18446744073709551616"), None);
    assert_eq!(decode_length("18446744073709551620"), None);
    assert_eq!(decode_length("184467440737095516150"), None);
    assert_eq!(decode_length("9223372036854775808"), Some(1u64 << 63));
}

#[test]
fn numbers_are_written_in_their_shortest_form() {
    assert_eq!(render_integer(0), "0");
    assert_eq!(render_integer(7), "7");
    assert_eq!(render_integer(10), "10");
    assert_eq!(render_integer(-1), "-1");
    assert_eq!(render_integer(-120), "-120");
    assert_eq!(render_integer(i64::MAX), "9223372036854775807");
    assert_eq!(render_integer(i64::MIN), "-9223372036854775808");
    assert_eq!(render_length(0), "0");
    assert_eq!(render_length(9), "9");
    assert_eq!(render_length(1005), "1005");
    assert_eq!(render_length(u64::MAX), "18446744073709551615");
}

#[test]
fn written_numbers_read_back() {
    let samples: [i64; 12] =
        [0, 1, -1, 9, 10, -10, 99, 100, 4096, -65535, i64::MAX, i64::MIN];
    for n in samples {
        assert_eq!(decode_integer(&render_integer(n)), Some(n));
        assert_eq!(render_integer(n), n.to_string());
    }
    let lengths: [u64; 8] = [0, 1, 9, 10, 255, 1 << 32, (1 << 63) + 5, u64::MAX];
    for n in lengths {
        assert_eq!(decode_length(&render_length(n)), Some(n));
        assert_eq!(render_length(n), n.to_string());
    }
}

#[test]
fn decoding_agrees_with_the_standard_parser() {
    let texts = [
        "0", "-0", "+0", "1", "-1", "+1", "", "-", "+", "00", "12x", "x", " 1", "1 ",
        "9223372036854775807", "9223372036854775808", "-9223372036854775808",
        "-9223372036854775809", "18446744073709551615", "18446744073709551616", "++1", "1+",
    ];
    for t in texts {
        assert_eq!(decode_integer(t), t.parse::<i64>().ok(), "{:?}", t);
        assert_eq!(decode_length(t), t.parse::<u64>().ok(), "{:?}", t);
    }
}

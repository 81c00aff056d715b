use image_processor::text::{
    chars_of, decimal, is_float, parse_i32, parse_magnitude, parse_u32, parse_u8, parse_unsigned,
    spells,
};

#[test]
fn chars_of_keeps_every_character() {
    assert_eq!(chars_of(""), Vec::<char>::new());
    assert_eq!(chars_of("a,b"), vec!['a', ',', 'b']);
    assert_eq!(chars_of("é1"), vec!['é', '1']);
}

#[test]
fn spells_compares_whole_texts() {
    assert!(spells(&chars_of("blur"), "blur"));
    assert!(!spells(&chars_of("blur"), "blu"));
    assert!(!spells(&chars_of("blu"), "blur"));
    assert!(!spells(&chars_of("Blur"), "blur"));
    assert!(spells(&chars_of(""), ""));
}

#[test]
fn parse_u32_reads_plain_digits() {
    assert_eq!(parse_u32("0"), Some(0));
    assert_eq!(parse_u32("7"), Some(7));
    assert_eq!(parse_u32("800"), Some(800));
    assert_eq!(parse_u32("007"), Some(7));
    assert_eq!(parse_u32("4294967295"), Some(u32::MAX));
}

#[test]
fn parse_u32_accepts_a_plus_sign() {
    assert_eq!(parse_u32("+12"), Some(12));
    assert_eq!(parse_u32("+"), None);
    assert_eq!(parse_u32("++1"), None);
}

#[test]
fn parse_u32_refuses_what_is_no_number() {
    assert_eq!(parse_u32(""), None);
    assert_eq!(parse_u32("-1"), None);
    assert_eq!(parse_u32("-0"), None);
    assert_eq!(parse_u32(" 1"), None);
    assert_eq!(parse_u32("1 "), None);
    assert_eq!(parse_u32("1.5"), None);
    assert_eq!(parse_u32("12a"), None);
    assert_eq!(parse_u32("a12"), None);
    assert_eq!(parse_u32("١٢"), None);
}

#[test]
fn parse_u32_refuses_what_is_too_large() {
    assert_eq!(parse_u32("4294967296"), None);
    assert_eq!(parse_u32("99999999999999999999999999999999"), None);
    assert_eq!(parse_u32("4294967296x"), None);
}

#[test]
fn parse_u32_agrees_with_the_standard_library() {
    let texts = [
        "", "0", "1", "+1", "-1", "+", "-", "00", "+00", "255", "256", "65536", "4294967295",
        "4294967296", "42949672950", "1_000", "0x10", "12 ", " 12", "1e3", "+-1", "-+1", "٣",
    ];
    for text in texts {
        assert_eq!(parse_u32(text), text.parse::<u32>().ok(), "{:?}", text);
        assert_eq!(parse_u8(text), text.parse::<u8>().ok(), "{:?}", text);
        assert_eq!(parse_i32(text), text.parse::<i32>().ok(), "{:?}", text);
    }
}

#[test]
fn parse_u8_holds_to_a_byte() {
    assert_eq!(parse_u8("0"), Some(0));
    assert_eq!(parse_u8("255"), Some(255));
    assert_eq!(parse_u8("+255"), Some(255));
    assert_eq!(parse_u8("256"), None);
    assert_eq!(parse_u8("-1"), None);
    assert_eq!(parse_u8(""), None);
}

#[test]
fn parse_i32_reads_both_signs() {
    assert_eq!(parse_i32("0"), Some(0));
    assert_eq!(parse_i32("-0"), Some(0));
    assert_eq!(parse_i32("30"), Some(30));
    assert_eq!(parse_i32("+30"), Some(30));
    assert_eq!(parse_i32("-30"), Some(-30));
    assert_eq!(parse_i32("2147483647"), Some(i32::MAX));
    assert_eq!(parse_i32("-2147483648"), Some(i32::MIN));
}

#[test]
fn parse_i32_refuses_what_is_out_of_range_or_no_number() {
    assert_eq!(parse_i32("2147483648"), None);
    assert_eq!(parse_i32("-2147483649"), None);
    assert_eq!(parse_i32("-"), None);
    assert_eq!(parse_i32("--1"), None);
    assert_eq!(parse_i32("-+1"), None);
    assert_eq!(parse_i32("1-"), None);
    assert_eq!(parse_i32(""), None);
    assert_eq!(parse_i32("ten"), None);
}

#[test]
fn parse_magnitude_reads_a_part_of_the_text() {
    let chars = chars_of("ab123,45");
    assert_eq!(parse_magnitude(&chars, 2, 5, 1000), Some(123));
    assert_eq!(parse_magnitude(&chars, 2, 5, 122), None);
    assert_eq!(parse_magnitude(&chars, 2, 6, 1000), None);
    assert_eq!(parse_magnitude(&chars, 6, 8, 1000), Some(45));
    assert_eq!(parse_magnitude(&chars, 3, 3, 1000), None);
    assert_eq!(parse_magnitude(&chars, 0, 8, 1000), None);
}

#[test]
fn parse_unsigned_reads_a_part_of_the_text() {
    let chars = chars_of("x+9,-9");
    assert_eq!(parse_unsigned(&chars, 1, 3, 9), Some(9));
    assert_eq!(parse_unsigned(&chars, 2, 3, 9), Some(9));
    assert_eq!(parse_unsigned(&chars, 1, 3, 8), None);
    assert_eq!(parse_unsigned(&chars, 4, 6, 9), None);
    assert_eq!(parse_unsigned(&chars, 1, 2, 9), None);
}

#[test]
fn decimal_writes_the_shortest_digits() {
    assert_eq!(decimal(0), "0");
    assert_eq!(decimal(9), "9");
    assert_eq!(decimal(10), "10");
    assert_eq!(decimal(45), "45");
    assert_eq!(decimal(1005), "1005");
    assert_eq!(decimal(u32::MAX), "4294967295");
}

#[test]
fn decimal_is_read_back_as_the_same_number() {
    for n in [0u32, 1, 9, 10, 99, 100, 255, 256, 89, 90, 180, 270, 65535, u32::MAX] {
        assert_eq!(parse_u32(&decimal(n)), Some(n));
        assert_eq!(decimal(n), n.to_string());
    }
}

#[test]
fn is_float_accepts_numbers_with_and_without_a_fraction() {
    for text in [
        "0", "2", "2.5", "2.", ".5", "+2.5", "-2.5", "007.500", "1e5", "1E5", "1.5e-3", "+.5E+10",
        "1.e1", "0.0", "-0", "123456789012345678901234567890", "1e400", "1e-400",
    ] {
        assert!(is_float(text), "{:?}", text);
    }
}

#[test]
fn is_float_accepts_the_three_words() {
    for text in [
        "inf", "+inf", "-inf", "INF", "Inf", "infinity", "Infinity", "-INFINITY", "nan", "NaN",
        "+nan", "-NAN",
    ] {
        assert!(is_float(text), "{:?}", text);
    }
}

#[test]
fn is_float_refuses_what_is_no_number() {
    for text in [
        "", ".", "+", "-", "+.", "e5", "1e", "1e+", "1e5.", "1.5.2", "1..2", "--1", "+-1", "1 ",
        " 1", "1,5", "1_000", "0x10", "1f32", "two", "in", "infinit", "infinityy", "na", "nana",
        "i\u{307}nf", "1e5e5", "1e1.5", ".e5", "+e5", "１", "1\u{212A}", "\u{130}nf",
    ] {
        assert!(!is_float(text), "{:?}", text);
    }
}

#[test]
fn is_float_agrees_with_the_standard_library() {
    let pieces = ["", "+", "-", "1", "23", ".", "e", "E", "inf", "nan", "Infinity", "x", " "];
    for a in pieces {
        for b in pieces {
            for c in pieces {
                for d in pieces {
                    let text = format!("{}{}{}{}", a, b, c, d);
                    assert_eq!(is_float(&text), text.parse::<f32>().is_ok(), "{:?}", text);
                }
            }
        }
    }
}

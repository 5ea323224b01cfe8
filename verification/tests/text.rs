//! Numerals, texts, paths, wide strings and doubles.

use spambayes_addin::double::{Double, HALF, HUNDRED, ONE, SIXTY};
use spambayes_addin::splash_window::{centered, SplashHandle};
use spambayes_addin::text::{
    decimal_string, directory_part, eq_ignore_ascii_case, folders_selected_text, is_blank, join_path,
    join_texts, parse_u32, push_grouped, push_hex, push_padded, same_text,
};
use spambayes_addin::wide::{from_wide, to_wide_null};

fn double(value: f64) -> Double {
    Double { bits: value.to_bits() }
}

fn owned(texts: &[&str]) -> Vec<String> {
    texts.iter().map(|text| text.to_string()).collect()
}

#[test]
fn decimal_numerals() {
    for n in [0, 7, 10, 123, 4_294_967_295, u64::MAX] {
        assert_eq!(decimal_string(n), n.to_string());
    }
}

#[test]
fn padded_numerals() {
    let mut text = "x".to_string();
    push_padded(&mut text, 7, 2);
    push_padded(&mut text, 123, 2);
    push_padded(&mut text, 5, 4);
    assert_eq!(text, "x071230005");
}

#[test]
fn grouped_numerals_only_add_commas() {
    for n in [0, 12, 999, 1_000, 12_345, 123_456, 1_234_567, u64::MAX] {
        let mut text = String::new();
        push_grouped(&mut text, n);
        assert_eq!(text.replace(',', ""), n.to_string());
        for (i, c) in text.chars().rev().enumerate() {
            assert_eq!(c == ',', i % 4 == 3);
        }
    }
}

#[test]
fn hexadecimal_numerals() {
    for n in [0, 9, 10, 255, 0xF002, u32::MAX] {
        let mut text = String::new();
        push_hex(&mut text, n);
        assert_eq!(text, format!("{n:X}"));
    }
}

#[test]
fn numerals_are_read_as_they_are_written() {
    for n in [0, 1, 42, u32::MAX] {
        assert_eq!(parse_u32(&n.to_string()), Some(n));
    }
    for text in ["+7", "007", "", "+", "-1", "1.5", " 1", "4294967295", "4294967296", "99999999999", "x"] {
        assert_eq!(parse_u32(text), text.parse::<u32>().ok(), "{text}");
    }
}

#[test]
fn texts_are_compared() {
    assert!(same_text("é", "é"));
    assert!(!same_text("a", "A"));
    for (a, b) in [("ABC", "abc"), ("abc", "abd"), ("É", "é"), ("ab", "abc"), ("1a", "1A")] {
        assert_eq!(eq_ignore_ascii_case(a, b), a.eq_ignore_ascii_case(b), "{a} {b}");
    }
}

#[test]
fn texts_are_joined() {
    assert_eq!(join_texts(&owned(&[]), ", "), "");
    assert_eq!(join_texts(&owned(&["a"]), ", "), "a");
    assert_eq!(join_texts(&owned(&["a", "", "c"]), ", "), "a, , c");
}

#[test]
fn counted_folders() {
    assert_eq!(folders_selected_text(1), "1 folder selected");
    assert_eq!(folders_selected_text(0), "0 folders selected");
    assert_eq!(folders_selected_text(3), "3 folders selected");
}

#[test]
fn blank_texts_are_those_that_trimming_leaves_nothing_of() {
    for text in ["", " ", "\t\r\n", "\u{a0}\u{2003}\u{3000}", "\u{200b}", " a ", "x", "\u{85}\u{1680}"] {
        assert_eq!(is_blank(text), text.trim().is_empty(), "{text:?}");
    }
    for code in 0..0x3100u32 {
        if let Some(c) = char::from_u32(code) {
            assert_eq!(is_blank(&c.to_string()), c.is_whitespace(), "{code:x}");
        }
    }
}

#[test]
fn paths_are_joined() {
    assert_eq!(join_path("C:\\a", "b"), "C:\\a\\b");
    assert_eq!(join_path("C:\\", "b"), "C:\\b");
    assert_eq!(join_path("C:", "b"), "C:b");
    assert_eq!(join_path("", "b"), "b");
    assert_eq!(join_path("a/", "b"), "a/b");
}

#[test]
fn directory_of_a_path() {
    assert_eq!(directory_part("C:\\a\\b.dll"), Some("C:\\a".to_string()));
    assert_eq!(directory_part("b.dll"), None);
}

#[test]
fn wide_strings_are_read_back() {
    for text in ["", "SpamBayes", "€uro", "a😀b", "ランタイム"] {
        let wide = to_wide_null(text);
        let expected: Vec<u16> = text.encode_utf16().chain(std::iter::once(0)).collect();
        assert_eq!(wide, expected);
        assert_eq!(from_wide(&wide[..wide.len() - 1]), text);
    }
}

#[test]
fn broken_wide_strings_are_mended() {
    for units in [
        vec![0xd800],
        vec![0xdc00, 0x61],
        vec![0x61, 0xd83d],
        vec![0xd83d, 0xd83d, 0xde00],
        vec![0xde00, 0xd83d],
    ] {
        assert_eq!(from_wide(&units), String::from_utf16_lossy(&units));
    }
}

const NUMBERS: [f64; 16] = [
    0.0, -0.0, 1.0, -1.0, 0.5, 60.0, 100.0, 0.1, 1e-320, -1e-320, 1e308, f64::INFINITY,
    f64::NEG_INFINITY, f64::NAN, 99.99999999999999, 100.00000000000001,
];

#[test]
fn named_doubles() {
    assert_eq!(f64::from_bits(HALF), 0.5);
    assert_eq!(f64::from_bits(ONE), 1.0);
    assert_eq!(f64::from_bits(SIXTY), 60.0);
    assert_eq!(f64::from_bits(HUNDRED), 100.0);
}

#[test]
fn doubles_are_compared() {
    for a in NUMBERS {
        assert_eq!(double(a).not_a_number(), a.is_nan());
        for b in NUMBERS {
            assert_eq!(double(a).lt(double(b)), a < b, "{a} {b}");
            assert_eq!(double(a).le(double(b)), a <= b, "{a} {b}");
        }
    }
}

#[test]
fn doubles_are_clamped() {
    for a in NUMBERS {
        let clamped = double(a).clamp(double(0.0), double(100.0));
        assert_eq!(clamped.bits, a.clamp(0.0, 100.0).to_bits(), "{a}");
        assert_eq!(clamped.clamp(double(0.0), double(100.0)), clamped);
    }
}

#[test]
fn doubles_are_scaled_to_whole_numbers() {
    for a in NUMBERS {
        for k in [1u32, 100, 1000, 4_294_967_295] {
            assert_eq!(double(a).scale_to_u32(k), (a * k as f64) as u32, "{a} {k}");
        }
    }
    let mut x = 0.0001f64;
    for _ in 0..2000 {
        assert_eq!(double(x).scale_to_u32(1000), (x * 1000.0) as u32, "{x}");
        assert_eq!(double(x).scale_to_u32(100), (x * 100.0) as u32, "{x}");
        x *= 1.017;
    }
}

#[test]
fn real_changes_differ_from_rounding_errors() {
    for a in NUMBERS {
        for b in NUMBERS {
            assert_eq!(
                double(a).differs_from(double(b)),
                (a - b).abs() > f64::EPSILON,
                "{a} {b}"
            );
        }
    }
    let mut x = 1e-18f64;
    for _ in 0..2000 {
        for y in [x + f64::EPSILON, x - f64::EPSILON, x * 1.0000000000000002, x + 1e-17, -x] {
            assert_eq!(
                double(x).differs_from(double(y)),
                (x - y).abs() > f64::EPSILON,
                "{x} {y}"
            );
        }
        x *= 1.023;
    }
}

#[test]
fn splash_window_is_centred_and_closed_once() {
    assert_eq!(centered(1920, 1080), (790, 490));
    assert_eq!(centered(341, 101), (0, 0));
    assert_eq!(centered(337, 97), (-1, -1));
    assert_eq!(centered(i32::MIN + 340, i32::MIN + 100), (i32::MIN / 2, i32::MIN / 2));
    let mut splash = SplashHandle::new();
    assert!(splash.close());
    assert!(!splash.close());
}

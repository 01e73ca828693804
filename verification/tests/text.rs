use solo_rs_pool::text::{blank, decimal_text, fixed_hex, parse_hex_u32, same_text, short_hex};

#[test]
fn fixed_hex_has_eight_digits() {
    assert_eq!(fixed_hex(0), "00000000");
    assert_eq!(fixed_hex(0x2000_0000), "20000000");
    assert_eq!(fixed_hex(0xdead_beef), "deadbeef");
    for v in [0u32, 1, 0xff, 0x100, 0x1234_5678, u32::MAX] {
        assert_eq!(fixed_hex(v), format!("{:08x}", v));
    }
}

#[test]
fn short_hex_has_no_leading_zeros() {
    for n in [0u64, 1, 15, 16, 255, 256, 0x0123_4567_89ab_cdef, u64::MAX] {
        assert_eq!(short_hex(n), format!("{:x}", n));
    }
}

#[test]
fn decimal_text_is_signed() {
    for n in [0i64, 7, 10, -1, 840_000, i64::MAX, i64::MIN] {
        assert_eq!(decimal_text(n), n.to_string());
    }
}

#[test]
fn hex_numbers_are_read_as_std_reads_them() {
    for s in [
        "", "+", "-", "0", "00000000000000000001", "ffffffff", "100000000", "FFff00Aa", "+1f", "++1",
        "-1", "0x10", " 1", "1 ", "g", "é", "+ffffffff", "0000000000ffffffff", "1_0",
    ] {
        assert_eq!(parse_hex_u32(s), u32::from_str_radix(s, 16).ok(), "{:?}", s);
    }
}

#[test]
fn blank_lines_are_those_that_trim_to_nothing() {
    for s in ["", " ", "\t\r\n", "\u{a0}\u{3000}", "\u{200b}", "{}", "  x", "\u{85}\u{2028}", "\u{1680} \u{205f}"] {
        assert_eq!(blank(s), s.trim().is_empty(), "{:?}", s);
    }
    for u in 0..0x11_0000u32 {
        if let Some(c) = char::from_u32(u) {
            if c.is_whitespace() || u < 0x3100 {
                assert_eq!(blank(&c.to_string()), c.is_whitespace());
            }
        }
    }
}

#[test]
fn texts_are_compared_by_their_characters() {
    assert!(same_text("mining.submit", "mining.submit"));
    assert!(!same_text("mining.submit", "Mining.submit"));
    assert!(!same_text("", " "));
}

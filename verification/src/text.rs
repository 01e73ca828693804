//! Hexadecimal and decimal text.
use vstd::prelude::*;

verus! {

/// The lower-case hexadecimal digit of `n`, for `0 <= n < 16`.
pub open spec fn hex_digit(n: int) -> char {
    if n < 10 {
        (('0' as int) + n) as char
    } else {
        (('a' as int) + n - 10) as char
    }
}

/// The value of a hexadecimal digit of either case; `None` for any other character.
pub open spec fn hex_value(c: char) -> Option<int> {
    if '0' <= c && c <= '9' {
        Some(c as int - '0' as int)
    } else if 'a' <= c && c <= 'f' {
        Some(c as int - 'a' as int + 10)
    } else if 'A' <= c && c <= 'F' {
        Some(c as int - 'A' as int + 10)
    } else {
        None
    }
}

/// Two lower-case hexadecimal digits per byte, the high half first.
pub open spec fn hex_text(bytes: Seq<u8>) -> Seq<char> {
    Seq::new(
        2 * bytes.len(),
        |i: int| hex_digit(if i % 2 == 0 { bytes[i / 2] as int / 16 } else { bytes[i / 2] as int % 16 }),
    )
}

/// Whether `text` is an even number of hexadecimal digits.
pub open spec fn is_hex(text: Seq<char>) -> bool {
    &&& text.len() % 2 == 0
    &&& forall|i: int| 0 <= i < text.len() ==> hex_value(#[trigger] text[i]) is Some
}

/// The bytes that `text` spells, two hexadecimal digits each; `None` if it spells none.
pub open spec fn hex_bytes(text: Seq<char>) -> Option<Seq<u8>> {
    if is_hex(text) {
        Some(
            Seq::new(
                text.len() / 2,
                |i: int| (16 * hex_value(text[2 * i])->0 + hex_value(text[2 * i + 1])->0) as u8,
            ),
        )
    } else {
        None
    }
}

/// Calls `hex::encode`: two lower-case digits per byte, in order.
#[verifier::external_body]
pub(crate) fn encode_hex(bytes: &[u8]) -> (text: String)
    ensures
        text@ == hex_text(bytes@),
{
    hex::encode(bytes)
}

/// Calls `hex::decode`. It succeeds exactly on an even number of digits of either case and
/// then gives one byte for each pair of them; the error it gives otherwise is dropped.
#[verifier::external_body]
pub(crate) fn decode_hex(text: &str) -> (bytes: Option<Vec<u8>>)
    ensures
        bytes is Some == hex_bytes(text@) is Some,
        bytes is Some ==> (bytes->0)@ == hex_bytes(text@)->0,
{
    hex::decode(text).ok()
}

/// Reading hexadecimal text gives back the bytes that were written.
pub proof fn hex_round_trip(bytes: Seq<u8>)
    ensures
        hex_bytes(hex_text(bytes)) == Some(bytes),
{
    let text = hex_text(bytes);
    assert forall|i: int| 0 <= i < text.len() implies hex_value(#[trigger] text[i]) is Some by {}
    assert(hex_bytes(text)->0 =~= bytes);
}

/// The bytes of `v`, the most significant first.
pub open spec fn big_endian(v: u32) -> Seq<u8> {
    seq![
        (v as int / 0x1000000) as u8,
        (v as int / 0x10000 % 0x100) as u8,
        (v as int / 0x100 % 0x100) as u8,
        (v as int % 0x100) as u8,
    ]
}

/// `v` in exactly eight lower-case hexadecimal digits.
pub fn fixed_hex(v: u32) -> (text: String)
    ensures
        text@ == hex_text(big_endian(v)),
{
    let bytes: [u8; 4] = [
        (v / 0x1000000) as u8,
        (v / 0x10000 % 0x100) as u8,
        (v / 0x100 % 0x100) as u8,
        (v % 0x100) as u8,
    ];
    assert(bytes@ =~= big_endian(v));
    encode_hex(&bytes)
}

/// The one-character text of a hexadecimal digit.
fn digit_text(d: u8) -> (text: &'static str)
    requires
        d < 16,
    ensures
        text@ == seq![hex_digit(d as int)],
{
    proof {
        reveal_strlit("0");
        reveal_strlit("1");
        reveal_strlit("2");
        reveal_strlit("3");
        reveal_strlit("4");
        reveal_strlit("5");
        reveal_strlit("6");
        reveal_strlit("7");
        reveal_strlit("8");
        reveal_strlit("9");
        reveal_strlit("a");
        reveal_strlit("b");
        reveal_strlit("c");
        reveal_strlit("d");
        reveal_strlit("e");
        reveal_strlit("f");
    }
    let text = match d {
        0 => "0",
        1 => "1",
        2 => "2",
        3 => "3",
        4 => "4",
        5 => "5",
        6 => "6",
        7 => "7",
        8 => "8",
        9 => "9",
        10 => "a",
        11 => "b",
        12 => "c",
        13 => "d",
        14 => "e",
        _ => "f",
    };
    assert(text@ =~= seq![hex_digit(d as int)]);
    text
}

/// `n` in the given base, up to sixteen, without leading zeros.
pub open spec fn digits(n: nat, base: nat) -> Seq<char>
    decreases n,
{
    if n < base || base < 2 {
        seq![hex_digit(n as int)]
    } else {
        proof {
            assert(n / base < n) by (nonlinear_arith)
                requires
                    n >= base,
                    base >= 2,
            ;
        }
        digits(n / base, base).push(hex_digit((n % base) as int))
    }
}

/// The text of an integer: a minus sign where it is negative, then its decimal digits.
pub open spec fn decimal(n: int) -> Seq<char> {
    if n < 0 {
        seq!['-'] + digits((-n) as nat, 10)
    } else {
        digits(n as nat, 10)
    }
}

fn digits_of(n: u64, base: u64) -> (text: String)
    requires
        2 <= base <= 16,
    ensures
        text@ == digits(n as nat, base as nat),
    decreases n,
{
    if n < base {
        digit_text(n as u8).to_owned()
    } else {
        assert(n / base < n) by (nonlinear_arith)
            requires
                n >= base,
                base >= 2,
        ;
        let mut text = digits_of(n / base, base);
        text.append(digit_text((n % base) as u8));
        assert(text@ =~= digits(n as nat, base as nat));
        text
    }
}

/// `n` in lower-case hexadecimal digits, without leading zeros.
pub fn short_hex(n: u64) -> (text: String)
    ensures
        text@ == digits(n as nat, 16),
{
    digits_of(n, 16)
}

/// The decimal text of `n`.
pub fn decimal_text(n: i64) -> (text: String)
    ensures
        text@ == decimal(n as int),
{
    if n < 0 {
        let magnitude: u64 = if n == i64::MIN {
            0x8000_0000_0000_0000
        } else {
            (-n) as u64
        };
        let mut text = "-".to_owned();
        text.append(digits_of(magnitude, 10).as_str());
        proof {
            reveal_strlit("-");
        }
        assert(text@ =~= decimal(n as int));
        text
    } else {
        digits_of(n as u64, 10)
    }
}

/// The characters of `text`.
fn characters(text: &str) -> (chars: Vec<char>)
    ensures
        chars@ == text@,
{
    let mut chars: Vec<char> = Vec::new();
    for c in it: text.chars()
        invariant
            it.seq() == text@,
            chars@ == text@.take(it.index() as int),
    {
        chars.push(c);
        assert(chars@ =~= text@.take(it.index() as int + 1));
    }
    assert(chars@ =~= text@);
    chars
}

/// Whether `a` and `b` are the same text.
pub fn same_text(a: &str, b: &str) -> (same: bool)
    ensures
        same == (a@ == b@),
{
    a.to_owned() == b.to_owned()
}

/// The Unicode characters with the White_Space property.
pub open spec fn is_white_space(c: char) -> bool {
    let u = c as int;
    ||| 0x09 <= u <= 0x0d
    ||| u == 0x20
    ||| u == 0x85
    ||| u == 0xa0
    ||| u == 0x1680
    ||| 0x2000 <= u <= 0x200a
    ||| u == 0x2028
    ||| u == 0x2029
    ||| u == 0x202f
    ||| u == 0x205f
    ||| u == 0x3000
}

/// Whether nothing but white space is in `text`.
pub open spec fn is_blank(text: Seq<char>) -> bool {
    forall|i: int| 0 <= i < text.len() ==> is_white_space(#[trigger] text[i])
}

/// Tells whether a line is empty once white space is trimmed from both ends.
pub fn blank(text: &str) -> (blank: bool)
    ensures
        blank == is_blank(text@),
{
    let chars = characters(text);
    let mut i: usize = 0;
    while i < chars.len()
        invariant
            i <= chars.len(),
            chars@ == text@,
            forall|j: int| 0 <= j < i ==> is_white_space(#[trigger] text@[j]),
        decreases chars.len() - i,
    {
        let c: char = chars[i];
        let white = ('\u{9}' <= c && c <= '\u{d}') || c == '\u{20}' || c == '\u{85}' || c == '\u{a0}'
            || c == '\u{1680}' || ('\u{2000}' <= c && c <= '\u{200a}') || c == '\u{2028}' || c
            == '\u{2029}' || c == '\u{202f}' || c == '\u{205f}' || c == '\u{3000}';
        if !white {
            assert(!is_white_space(text@[i as int]));
            return false;
        }
        i += 1;
    }
    true
}

/// The number that hexadecimal digits spell, the most significant first.
pub open spec fn hex_number(digits: Seq<char>) -> int
    decreases digits.len(),
{
    if digits.len() == 0 {
        0
    } else {
        16 * hex_number(digits.drop_last()) + hex_value(digits.last())->0
    }
}

/// What is left of a number's text once an optional plus sign is taken off its front.
pub open spec fn unsigned_part(text: Seq<char>) -> Seq<char> {
    if text.len() > 1 && text[0] == '+' {
        text.skip(1)
    } else {
        text
    }
}

/// The 32-bit number that `text` spells in hexadecimal: an optional plus sign, then one or
/// more digits of either case. `None` for any other text and for a number that does not fit.
pub open spec fn hex_u32(text: Seq<char>) -> Option<u32> {
    let part = unsigned_part(text);
    if part.len() > 0 && (forall|i: int| 0 <= i < part.len() ==> hex_value(#[trigger] part[i]) is Some)
        && hex_number(part) <= u32::MAX {
        Some(hex_number(part) as u32)
    } else {
        None
    }
}

/// The value of a hexadecimal digit.
fn digit_value(c: char) -> (value: Option<u32>)
    ensures
        value is Some == hex_value(c) is Some,
        value is Some ==> value->0 as int == hex_value(c)->0 && value->0 < 16,
{
    if '0' <= c && c <= '9' {
        Some(c as u32 - '0' as u32)
    } else if 'a' <= c && c <= 'f' {
        Some(c as u32 - 'a' as u32 + 10)
    } else if 'A' <= c && c <= 'F' {
        Some(c as u32 - 'A' as u32 + 10)
    } else {
        None
    }
}

/// Reads a 32-bit hexadecimal number.
pub fn parse_hex_u32(text: &str) -> (value: Option<u32>)
    ensures
        value == hex_u32(text@),
{
    let chars = characters(text);
    let start: usize = if chars.len() > 1 && chars[0] == '+' {
        1
    } else {
        0
    };
    let ghost part = unsigned_part(text@);
    if start == chars.len() {
        return None;
    }
    let mut value: u64 = 0;
    let mut fits = true;
    let mut i: usize = start;
    while i < chars.len()
        invariant
            start <= i <= chars.len(),
            chars@ == text@,
            part == text@.skip(start as int),
            part == unsigned_part(text@),
            forall|j: int| 0 <= j < i - start ==> hex_value(#[trigger] part[j]) is Some,
            fits ==> value == hex_number(part.take(i - start)) && value <= u32::MAX,
            !fits ==> hex_number(part.take(i - start)) > u32::MAX,
        decreases chars.len() - i,
    {
        let ghost before = part.take(i - start);
        let ghost after = part.take(i + 1 - start);
        assert(after.drop_last() =~= before);
        assert(part[i - start] == chars@[i as int]);
        match digit_value(chars[i]) {
            None => {
                return None;
            },
            Some(d) => {
                assert(hex_number(after) == 16 * hex_number(before) + d);
                if fits {
                    value = value * 16 + d as u64;
                    if value > 0xffff_ffff {
                        fits = false;
                    }
                }
            },
        }
        i += 1;
    }
    assert(part.take(part.len() as int) =~= part);
    if fits {
        Some(value as u32)
    } else {
        None
    }
}

} // verus!

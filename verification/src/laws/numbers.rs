//! What the texts and bytes of numbers say, read digit by digit and byte by byte.
use crate::chain::{
    block_hash_of, block_hash_text, le_number, little_endian, number_push, script_number,
    HeaderModel,
};
use crate::text::{
    big_endian, decimal, digits, hex_bytes, hex_digit, hex_number, hex_text, hex_u32, hex_value,
    is_blank, is_white_space, unsigned_part,
};
use vstd::arithmetic::div_mod::lemma_fundamental_div_mod;
use vstd::arithmetic::power2::{lemma2_to64, lemma_pow2_adds, pow2};
use vstd::prelude::*;

verus! {

/// One byte is read as itself, and of two byte strings one after the other, the second counts
/// as many times more as the first has values.
pub proof fn bytes_weigh_by_their_place(a: Seq<u8>, b: Seq<u8>, byte: u8)
    ensures
        le_number(seq![byte]) == byte,
        le_number(a + b) == le_number(a) + pow2(8 * a.len()) * le_number(b),
    decreases a.len(),
{
    let one = seq![byte];
    assert(one.skip(1).len() == 0);
    assert(le_number(one.skip(1)) == 0);
    lemma2_to64();
    if a.len() == 0 {
        assert(a + b =~= b);
        assert(pow2(8 * a.len()) == 1);
    } else {
        let rest = a.skip(1);
        bytes_weigh_by_their_place(rest, b, byte);
        assert((a + b).skip(1) =~= rest + b);
        lemma_pow2_adds(8, 8 * rest.len());
        let p = pow2(8 * rest.len()) as int;
        let n = le_number(b) as int;
        assert(pow2(8 * a.len()) == 256 * p);
        assert(256 * (p * n) == (256 * p) * n) by (nonlinear_arith);
    }
}

/// A number that fits in so many bytes is written in exactly so many and read back as itself.
pub proof fn written_bytes_are_read_back(n: nat, width: nat)
    requires
        n < pow2(8 * width),
    ensures
        little_endian(n, width).len() == width,
        le_number(little_endian(n, width)) == n,
    decreases width,
{
    lemma2_to64();
    if width > 0 {
        let rest = (width - 1) as nat;
        lemma_pow2_adds(8, 8 * rest);
        assert(pow2(8 * width) == 256 * pow2(8 * rest));
        assert(n / 256 < pow2(8 * rest));
        written_bytes_are_read_back(n / 256, rest);
        let tail = little_endian(n / 256, rest);
        assert(little_endian(n, width).skip(1) =~= tail);
    }
}

/// What is left of a script number after its first byte.
proof fn script_number_rest(n: nat)
    requires
        n >= 0x100,
    ensures
        script_number(n).skip(1) == script_number(n / 256),
        script_number(n).len() == script_number(n / 256).len() + 1,
        script_number(n).last() == script_number(n / 256).last(),
        script_number(n / 256).len() > 0,
{
    script_number_is_not_empty(n / 256);
    assert(script_number(n).skip(1) =~= script_number(n / 256));
}

proof fn script_number_is_not_empty(n: nat)
    ensures
        script_number(n).len() > 0,
{
}

/// A script number is read back as the number, its top bit is free for the sign, and no shorter
/// one would do.
pub proof fn script_numbers_are_read_back(n: nat)
    requires
        n > 0,
    ensures
        ({
            let bytes = script_number(n);
            let last = bytes.len() - 1;
            &&& bytes.len() > 0
            &&& le_number(bytes) == n
            &&& bytes[last] < 0x80
            &&& bytes[last] != 0 || (last > 0 && bytes[last - 1] >= 0x80)
        }),
    decreases n,
{
    let bytes = script_number(n);
    if n < 0x80 {
        bytes_weigh_by_their_place(Seq::empty(), Seq::empty(), n as u8);
    } else if n < 0x100 {
        bytes_weigh_by_their_place(seq![n as u8], seq![0u8], n as u8);
        bytes_weigh_by_their_place(Seq::empty(), Seq::empty(), 0);
        assert(bytes =~= seq![n as u8] + seq![0u8]);
        assert(pow2(8 * seq![n as u8].len()) * 0 == 0);
    } else {
        script_number_rest(n);
        script_numbers_are_read_back(n / 256);
        let rest = script_number(n / 256);
        assert(bytes[0] == n % 256);
        let last = rest.len() - 1;
        assert(bytes[last + 1] == rest[last]);
        if last > 0 {
            assert(bytes[last] == rest[last - 1]);
        }
    }
}

/// A pushed number up to sixteen is an opcode of its own; a higher one stands after its length,
/// in the fewest bytes that leave the sign bit free.
pub proof fn a_push_holds_its_number(n: u32)
    ensures
        ({
            let push = number_push(n);
            let len = push.len() as int;
            &&& n == 0 ==> push == seq![0u8]
            &&& 1 <= n <= 16 ==> len == 1 && push[0] == 0x50 + n
            &&& n > 16 ==> {
                &&& 2 <= len <= 6
                &&& push[0] == len - 1
                &&& le_number(push.subrange(1, len)) == n
                &&& push[len - 1] < 0x80
                &&& push[len - 1] != 0 || (len > 2 && push[len - 2] >= 0x80)
            }
        }),
{
    if n > 16 {
        reveal_with_fuel(script_number, 5);
        let bytes = script_number(n as nat);
        script_numbers_are_read_back(n as nat);
        let push = number_push(n);
        assert(push.subrange(1, push.len() as int) =~= bytes);
        assert(bytes.len() <= 5);
        let last = bytes.len() - 1;
        assert(push[last + 1] == bytes[last]);
        if last > 0 {
            assert(push[last] == bytes[last - 1]);
        }
    }
}

/// A serialized header is eighty bytes: the version, the two hashes, the time, the target and
/// the nonce, each number with its least significant byte first.
pub proof fn a_header_lays_its_fields_out(header: HeaderModel)
    requires
        header.is_valid(),
    ensures
        ({
            let bytes = header.bytes();
            &&& bytes.len() == 80
            &&& le_number(bytes.subrange(0, 4)) == header.version
            &&& bytes.subrange(4, 36) == header.prev_blockhash
            &&& bytes.subrange(36, 68) == header.merkle_root
            &&& le_number(bytes.subrange(68, 72)) == header.time
            &&& le_number(bytes.subrange(72, 76)) == header.bits
            &&& le_number(bytes.subrange(76, 80)) == header.nonce
        }),
{
    lemma2_to64();
    written_bytes_are_read_back(header.version as nat, 4);
    written_bytes_are_read_back(header.time as nat, 4);
    written_bytes_are_read_back(header.bits as nat, 4);
    written_bytes_are_read_back(header.nonce as nat, 4);
    let bytes = header.bytes();
    assert(bytes.subrange(0, 4) =~= little_endian(header.version as nat, 4));
    assert(bytes.subrange(4, 36) =~= header.prev_blockhash);
    assert(bytes.subrange(36, 68) =~= header.merkle_root);
    assert(bytes.subrange(68, 72) =~= little_endian(header.time as nat, 4));
    assert(bytes.subrange(72, 76) =~= little_endian(header.bits as nat, 4));
    assert(bytes.subrange(76, 80) =~= little_endian(header.nonce as nat, 4));
}

/// Four bytes with the most significant first weigh as such.
pub proof fn big_endian_bytes_weigh(v: u32)
    ensures
        ({
            let bytes = big_endian(v);
            &&& bytes.len() == 4
            &&& bytes[0] * 0x1000000 + bytes[1] * 0x10000 + bytes[2] * 0x100 + bytes[3] == v
        }),
{
}

proof fn the_alphabet(n: int)
    requires
        0 <= n < 16,
    ensures
        hex_digit(n) == "0123456789abcdef"@[n],
{
    reveal_strlit("0123456789abcdef");
    let a = "0123456789abcdef"@;
    assert(a[0] == '0' && a[1] == '1' && a[2] == '2' && a[3] == '3');
    assert(a[4] == '4' && a[5] == '5' && a[6] == '6' && a[7] == '7');
    assert(a[8] == '8' && a[9] == '9' && a[10] == 'a' && a[11] == 'b');
    assert(a[12] == 'c' && a[13] == 'd' && a[14] == 'e' && a[15] == 'f');
}

/// Hexadecimal text has two digits for each byte, in order: that of its upper half, then that of
/// its lower half.
pub proof fn bytes_are_spelled_in_hex(bytes: Seq<u8>, i: int)
    requires
        0 <= i < bytes.len(),
    ensures
        hex_text(bytes).len() == 2 * bytes.len(),
        hex_text(bytes)[2 * i] == "0123456789abcdef"@[bytes[i] as int / 16],
        hex_text(bytes)[2 * i + 1] == "0123456789abcdef"@[bytes[i] as int % 16],
{
    the_alphabet(bytes[i] as int / 16);
    the_alphabet(bytes[i] as int % 16);
}

/// A character has the value of a digit exactly if it is that digit, in either case.
pub proof fn digits_have_their_values(c: char, n: int)
    ensures
        hex_value(c) == Some(n) <==> 0 <= n < 16 && (c == "0123456789abcdef"@[n] || c
            == "0123456789ABCDEF"@[n]),
        hex_value(c) is Some <==> ('0' <= c && c <= '9') || ('a' <= c && c <= 'f') || ('A' <= c && c
            <= 'F'),
{
    reveal_strlit("0123456789ABCDEF");
    let a = "0123456789ABCDEF"@;
    assert(a[0] == '0' && a[1] == '1' && a[2] == '2' && a[3] == '3');
    assert(a[4] == '4' && a[5] == '5' && a[6] == '6' && a[7] == '7');
    assert(a[8] == '8' && a[9] == '9' && a[10] == 'A' && a[11] == 'B');
    assert(a[12] == 'C' && a[13] == 'D' && a[14] == 'E' && a[15] == 'F');
    if 0 <= n < 16 {
        the_alphabet(n);
    }
}

/// Text spells bytes exactly if it has two digits for each, the upper half first.
pub proof fn hex_is_read_by_pairs(text: Seq<char>, bytes: Seq<u8>)
    ensures
        hex_bytes(text) == Some(bytes) <==> {
            &&& text.len() == 2 * bytes.len()
            &&& forall|i: int|
                0 <= i < bytes.len() ==> {
                    &&& hex_value(text[2 * i]) == Some(#[trigger] bytes[i] as int / 16)
                    &&& hex_value(text[2 * i + 1]) == Some(bytes[i] as int % 16)
                }
        },
        hex_bytes(text) is None <==> text.len() % 2 != 0 || exists|i: int|
            0 <= i < text.len() && hex_value(#[trigger] text[i]) is None,
{
    if hex_bytes(text) == Some(bytes) {
        assert forall|i: int| 0 <= i < bytes.len() implies {
            &&& hex_value(text[2 * i]) == Some(#[trigger] bytes[i] as int / 16)
            &&& hex_value(text[2 * i + 1]) == Some(bytes[i] as int % 16)
        } by {
            assert(hex_value(text[2 * i]) is Some && hex_value(text[2 * i + 1]) is Some);
        }
    } else if text.len() == 2 * bytes.len() && forall|i: int|
        0 <= i < bytes.len() ==> {
            &&& hex_value(text[2 * i]) == Some(#[trigger] bytes[i] as int / 16)
            &&& hex_value(text[2 * i + 1]) == Some(bytes[i] as int % 16)
        } {
        assert forall|j: int| 0 <= j < text.len() implies hex_value(#[trigger] text[j]) is Some by {
            let b = bytes[j / 2];
            assert(j == 2 * (j / 2) || j == 2 * (j / 2) + 1);
        }
        assert(hex_bytes(text)->0 =~= bytes);
    }
}

/// A hash is shown in sixty-four digits, its last byte first, and text is read as that hash
/// exactly if it spells the hash from its last byte to its first.
pub proof fn hashes_are_shown_backwards(hash: Seq<u8>, text: Seq<char>, i: int)
    requires
        hash.len() == 32,
        0 <= i < 32,
    ensures
        block_hash_text(hash).len() == 64,
        block_hash_text(hash)[2 * i] == "0123456789abcdef"@[hash[31 - i] as int / 16],
        block_hash_text(hash)[2 * i + 1] == "0123456789abcdef"@[hash[31 - i] as int % 16],
        block_hash_of(text) == Some(hash) ==> text.len() == 64 && hex_value(text[2 * i]) == Some(
            hash[31 - i] as int / 16,
        ) && hex_value(text[2 * i + 1]) == Some(hash[31 - i] as int % 16),
        block_hash_of(text) is Some <==> text.len() == 64 && hex_bytes(text) is Some,
{
    let back = hash.reverse();
    assert(back[i] == hash[31 - i]);
    bytes_are_spelled_in_hex(back, i);
    if block_hash_of(text) == Some(hash) {
        let bytes = hex_bytes(text)->0;
        hex_is_read_by_pairs(text, bytes);
        assert(bytes[i] == bytes.reverse()[31 - i]);
    }
}

/// The number that digits spell in a base, the most significant first.
pub open spec fn number_in(text: Seq<char>, base: nat) -> int
    decreases text.len(),
{
    if text.len() == 0 {
        0
    } else {
        base * number_in(text.drop_last(), base) + hex_value(text.last())->0
    }
}

/// A number is written in lower-case digits of its base that spell it, without leading zeros.
pub proof fn digits_spell_their_number(n: nat, base: nat)
    requires
        2 <= base <= 16,
    ensures
        ({
            let text = digits(n, base);
            &&& text.len() > 0
            &&& number_in(text, base) == n
            &&& text.len() > 1 ==> text[0] != '0'
            &&& forall|i: int|
                0 <= i < text.len() ==> hex_value(#[trigger] text[i]) is Some && 0 <= hex_value(
                    text[i],
                )->0 < base && !('A' <= text[i] && text[i] <= 'F')
        }),
    decreases n,
{
    let text = digits(n, base);
    if n < base {
        assert(text.drop_last().len() == 0);
        assert(number_in(text.drop_last(), base) == 0);
        assert(base * 0 == 0);
    } else {
        assert(n / base < n) by (nonlinear_arith)
            requires
                n >= base,
                base >= 2,
        ;
        assert(n / base > 0) by (nonlinear_arith)
            requires
                n >= base,
                base >= 2,
        ;
        assert(0 <= n % base < base) by (nonlinear_arith)
            requires
                base >= 2,
        ;
        let before = digits(n / base, base);
        digits_spell_their_number(n / base, base);
        assert(text.drop_last() =~= before);
        lemma_fundamental_div_mod(n as int, base as int);
        assert forall|i: int| 0 <= i < text.len() implies hex_value(#[trigger] text[i]) is Some && 0
            <= hex_value(text[i])->0 < base && !('A' <= text[i] && text[i] <= 'F') by {
            if i < before.len() {
                assert(text[i] == before[i]);
            }
        }
        assert(text[0] == before[0]);
        if before.len() == 1 && before[0] == '0' {
            assert(before.drop_last().len() == 0);
            assert(number_in(before.drop_last(), base) == 0);
            assert(base * 0 == 0);
            assert(number_in(before, base) == 0);
        }
    }
}

/// Decimal text is a minus sign where the number is negative, and then the digits of its size.
pub proof fn decimal_text_spells_its_number(n: int)
    ensures
        n >= 0 ==> number_in(decimal(n), 10) == n && decimal(n)[0] != '-',
        n < 0 ==> decimal(n)[0] == '-' && number_in(decimal(n).skip(1), 10) == -n,
        decimal(n).len() > 1 ==> decimal(n)[0] != '0',
        n < 0 ==> decimal(n)[1] != '0',
        forall|i: int|
            1 <= i < decimal(n).len() ==> '0' <= #[trigger] decimal(n)[i] && decimal(n)[i] <= '9',
{
    let size = (if n < 0 {
        -n
    } else {
        n
    }) as nat;
    digits_spell_their_number(size, 10);
    let text = digits(size, 10);
    assert forall|i: int| 0 <= i < text.len() implies '0' <= #[trigger] text[i] && text[i]
        <= '9' by {}
    if n < 0 {
        assert(decimal(n).skip(1) =~= text);
        assert(decimal(n)[1] == text[0]);
        if text.len() == 1 {
            assert(text.drop_last().len() == 0);
            assert(number_in(text.drop_last(), 10) == 0);
        }
        assert forall|i: int| 1 <= i < decimal(n).len() implies '0' <= #[trigger] decimal(n)[i]
            && decimal(n)[i] <= '9' by {
            assert(decimal(n)[i] == text[i - 1]);
        }
    }
}

proof fn hex_numbers_are_in_base_sixteen(text: Seq<char>)
    ensures
        hex_number(text) == number_in(text, 16),
    decreases text.len(),
{
    if text.len() > 0 {
        hex_numbers_are_in_base_sixteen(text.drop_last());
    }
}

/// Whether text is one or more hexadecimal digits.
pub open spec fn is_hex_number(text: Seq<char>) -> bool {
    text.len() > 0 && forall|i: int| 0 <= i < text.len() ==> hex_value(#[trigger] text[i]) is Some
}

proof fn unsigned_numbers_are_read_as_spelled(text: Seq<char>, part: Seq<char>)
    requires
        unsigned_part(text) == part,
    ensures
        is_hex_number(part) && number_in(part, 16) <= 0xffff_ffff ==> hex_u32(text) is Some
            && hex_u32(text)->0 == number_in(part, 16),
        !is_hex_number(part) || number_in(part, 16) > 0xffff_ffff ==> hex_u32(text) is None,
{
    hex_numbers_are_in_base_sixteen(part);
    if is_hex_number(part) {
        spelled_numbers_are_not_negative(part);
    }
}

/// A 32-bit number is read out of one or more hexadecimal digits, after an optional plus sign,
/// as what the digits spell, and out of no other text.
pub proof fn hex_numbers_are_read_as_spelled(text: Seq<char>)
    ensures
        text.len() == 0 ==> hex_u32(text) is None,
        text.len() > 0 && text[0] == '+' ==> {
            let part = text.skip(1);
            &&& is_hex_number(part) && number_in(part, 16) <= 0xffff_ffff ==> hex_u32(text) is Some
                && hex_u32(text)->0 == number_in(part, 16)
            &&& !is_hex_number(part) || number_in(part, 16) > 0xffff_ffff ==> hex_u32(text) is None
        },
        text.len() > 0 && text[0] != '+' ==> {
            &&& is_hex_number(text) && number_in(text, 16) <= 0xffff_ffff ==> hex_u32(text) is Some
                && hex_u32(text)->0 == number_in(text, 16)
            &&& !is_hex_number(text) || number_in(text, 16) > 0xffff_ffff ==> hex_u32(text) is None
        },
{
    if text.len() > 1 && text[0] == '+' {
        unsigned_numbers_are_read_as_spelled(text, text.skip(1));
    } else {
        unsigned_numbers_are_read_as_spelled(text, text);
        if text.len() == 1 && text[0] == '+' {
            assert(hex_value(text[0]) is None);
            assert(hex_u32(text) is None);
            assert(text.skip(1).len() == 0);
        }
    }
}

proof fn spelled_numbers_are_not_negative(text: Seq<char>)
    requires
        forall|i: int| 0 <= i < text.len() ==> hex_value(#[trigger] text[i]) is Some,
    ensures
        number_in(text, 16) >= 0,
    decreases text.len(),
{
    if text.len() > 0 {
        let before = text.drop_last();
        assert forall|i: int| 0 <= i < before.len() implies hex_value(#[trigger] before[i]) is Some by {
            assert(before[i] == text[i]);
        }
        spelled_numbers_are_not_negative(before);
        assert(hex_value(text[text.len() - 1]) is Some);
    }
}

/// A line is blank only without any visible character of ASCII and without any character past
/// the ideographic space, and surely if it holds nothing but spaces, tabs and line breaks. Every
/// character of a blank line would be a blank line by itself, and those that are so are the tab,
/// the breaks of lines and pages, and the spaces.
pub proof fn a_blank_line_shows_nothing(text: Seq<char>, c: char)
    ensures
        is_blank(text) <==> (forall|i: int| 0 <= i < text.len() ==> is_blank(seq![#[trigger] text[i]])),
        is_blank(seq![c]) <==> {
            ||| c == '\t' || c == '\n' || c == '\u{b}' || c == '\u{c}' || c == '\r' || c == ' '
            ||| c == '\u{85}' || c == '\u{a0}' || c == '\u{1680}'
            ||| c == '\u{2000}' || c == '\u{2001}' || c == '\u{2002}' || c == '\u{2003}'
            ||| c == '\u{2004}' || c == '\u{2005}' || c == '\u{2006}' || c == '\u{2007}'
            ||| c == '\u{2008}' || c == '\u{2009}' || c == '\u{200a}'
            ||| c == '\u{2028}' || c == '\u{2029}' || c == '\u{202f}' || c == '\u{205f}'
            ||| c == '\u{3000}'
        },
        (exists|i: int| 0 <= i < text.len() && '!' <= #[trigger] text[i] && text[i] <= '~')
            ==> !is_blank(text),
        (forall|i: int|
            0 <= i < text.len() ==> (#[trigger] text[i] == ' ' || text[i] == '\t' || text[i] == '\r'
                || text[i] == '\n')) ==> is_blank(text),
{
    assert(seq![c][0] == c);
    if is_blank(seq![c]) {
        assert(is_white_space(seq![c][0]));
    }
    if is_blank(text) {
        assert forall|i: int| 0 <= i < text.len() implies is_blank(seq![#[trigger] text[i]]) by {
            assert(is_white_space(text[i]));
        }
    }
    if forall|i: int| 0 <= i < text.len() ==> is_blank(seq![#[trigger] text[i]]) {
        assert forall|i: int| 0 <= i < text.len() implies is_white_space(#[trigger] text[i]) by {
            assert(is_blank(seq![text[i]]));
            assert(is_white_space(seq![text[i]][0]));
        }
    }
}

} // verus!

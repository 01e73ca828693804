//! The coinbase transaction of a job, byte by byte.
use super::numbers::{a_push_holds_its_number, written_bytes_are_read_back};
use super::{
    filled_coinbase, filling_keeps_the_coinbase, halves_spell_the_coinbase,
    the_filled_script_pushes_both_nonces,
};
use crate::chain::{le_number, little_endian, number_push};
use crate::coinbase::{
    coinbase_bytes, coinbase_head, coinbase_tail, number_push_shape, occurs_at, script_sig,
    slot_start,
};
use crate::job::{job_of, BlockTemplate};
use crate::text::{hex_bytes, hex_text};
use vstd::arithmetic::power2::lemma2_to64;
use vstd::prelude::*;

verus! {

/// Bytes stand at a place in others exactly if these are so many bytes, the bytes, and a rest.
pub proof fn what_occurs_can_be_cut_out(hay: Seq<u8>, needle: Seq<u8>, at: int, rest: Seq<u8>)
    ensures
        occurs_at(hay.take(at) + needle + rest, needle, at) || at < 0 || at > hay.len(),
        occurs_at(hay, needle, at) ==> 0 <= at <= hay.len() && hay == hay.take(at) + needle + hay.skip(
            at + needle.len(),
        ),
{
    if 0 <= at <= hay.len() {
        let whole = hay.take(at) + needle + rest;
        assert(whole.subrange(at, at + needle.len()) =~= needle);
    }
    if occurs_at(hay, needle, at) {
        let again = hay.take(at) + needle + hay.skip(at + needle.len());
        let window = hay.subrange(at, at + needle.len());
        assert forall|i: int| 0 <= i < hay.len() implies hay[i] == #[trigger] again[i] by {
            if at <= i < at + needle.len() {
                assert(window[i - at] == hay[i]);
            }
        }
        assert(hay =~= again);
    }
}

/// Whether `raw` is a coinbase transaction of this height and value with these extra nonces:
/// version one; one input, which spends the null output under the highest sequence, and whose
/// script pushes the height in the fewest bytes, the pool's extra nonce and the miner's; one
/// output of the value under the script of a lone zero opcode; lock time zero.
#[verifier::opaque]
pub open spec fn is_coinbase(
    raw: Seq<u8>,
    height: int,
    ex1: Seq<u8>,
    ex2: Seq<u8>,
    value: int,
) -> bool {
    let s = raw[41] as int;
    let k = s - 10;
    &&& raw.len() == 61 + s
    &&& 1 <= k
    &&& raw.subrange(0, 5) == seq![1u8, 0u8, 0u8, 0u8, 1u8]
    &&& forall|i: int| 5 <= i < 37 ==> #[trigger] raw[i] == 0
    &&& forall|i: int| 37 <= i < 41 ==> #[trigger] raw[i] == 0xff
    &&& height == 0 ==> k == 1 && raw[42] == 0
    &&& 1 <= height <= 16 ==> k == 1 && raw[42] == 0x50 + height
    &&& height > 16 ==> {
        &&& 2 <= k <= 6
        &&& raw[42] == k - 1
        &&& le_number(raw.subrange(43, 42 + k)) == height
        &&& raw[41 + k] < 0x80
        &&& raw[41 + k] != 0 || (k > 2 && raw[40 + k] >= 0x80)
    }
    &&& raw[42 + k] == 4
    &&& raw.subrange(43 + k, 47 + k) == ex1
    &&& raw[47 + k] == 4
    &&& raw.subrange(48 + k, 52 + k) == ex2
    &&& forall|i: int| 42 + s <= i < 46 + s ==> #[trigger] raw[i] == 0xff
    &&& raw[46 + s] == 1
    &&& le_number(raw.subrange(47 + s, 55 + s)) == value
    &&& raw[55 + s] == 1
    &&& forall|i: int| 56 + s <= i < 61 + s ==> #[trigger] raw[i] == 0
}

/// The script of a filled coinbase, place by place.
proof fn the_script_is_laid_out(height: u32, ex1: Seq<u8>, value: u64, ex2: Seq<u8>)
    requires
        ex1.len() == 4,
        ex2.len() == 4,
    ensures
        ({
            let raw = filled_coinbase(height, ex1, value, ex2);
            let push = number_push(height);
            let k = push.len() as int;
            &&& raw[41] == k + 10
            &&& raw.len() == 71 + k
            &&& raw.subrange(42, 42 + k) == push
            &&& raw[42 + k] == 4
            &&& raw.subrange(43 + k, 47 + k) == ex1
            &&& raw[47 + k] == 4
            &&& raw.subrange(48 + k, 52 + k) == ex2
        }),
{
    let raw = filled_coinbase(height, ex1, value, ex2);
    let push = number_push(height);
    let k = push.len() as int;
    let script = push + seq![4u8] + ex1 + seq![4u8] + ex2;
    number_push_shape(height);
    filling_keeps_the_coinbase(height, ex1, value, ex2);
    the_filled_script_pushes_both_nonces(height, ex1, value, ex2);
    assert(script_sig(height, ex1).len() == k + 10);
    let part = raw.subrange(42, 52 + k);
    assert(part == script);
    assert(raw.len() == coinbase_bytes(height, ex1, value).len());
    reveal_with_fuel(little_endian, 9);
    assert(coinbase_tail(value).len() == 19);
    assert(coinbase_head(script.len()).len() == 42);
    assert forall|i: int| 0 <= i < k + 10 implies #[trigger] raw[42 + i] == script[i] by {
        assert(part[i] == raw[42 + i]);
    }
    assert(raw.subrange(42, 42 + k) =~= push) by {
        assert forall|i: int| 0 <= i < k implies raw.subrange(42, 42 + k)[i] == push[i] by {
            assert(raw[42 + i] == script[i]);
        }
    }
    assert(raw[42 + k] == script[k]);
    assert(raw[42 + (k + 5)] == script[k + 5]);
    assert(raw.subrange(43 + k, 47 + k) =~= ex1) by {
        assert forall|i: int| 0 <= i < 4 implies raw.subrange(43 + k, 47 + k)[i] == ex1[i] by {
            assert(raw[42 + (k + 1 + i)] == script[k + 1 + i]);
        }
    }
    assert(raw.subrange(48 + k, 52 + k) =~= ex2) by {
        assert forall|i: int| 0 <= i < 4 implies raw.subrange(48 + k, 52 + k)[i] == ex2[i] by {
            assert(raw[42 + (k + 6 + i)] == script[k + 6 + i]);
        }
    }
}

/// What stands round the script of a filled coinbase, place by place.
proof fn the_frame_is_laid_out(height: u32, ex1: Seq<u8>, value: u64, ex2: Seq<u8>)
    requires
        ex1.len() == 4,
        ex2.len() == 4,
    ensures
        ({
            let raw = filled_coinbase(height, ex1, value, ex2);
            let s = number_push(height).len() as int + 10;
            &&& raw.subrange(0, 5) == seq![1u8, 0u8, 0u8, 0u8, 1u8]
            &&& forall|i: int| 5 <= i < 37 ==> #[trigger] raw[i] == 0
            &&& forall|i: int| 37 <= i < 41 ==> #[trigger] raw[i] == 0xff
            &&& forall|i: int| 42 + s <= i < 46 + s ==> #[trigger] raw[i] == 0xff
            &&& raw[46 + s] == 1
            &&& le_number(raw.subrange(47 + s, 55 + s)) == value
            &&& raw[55 + s] == 1
            &&& forall|i: int| 56 + s <= i < 61 + s ==> #[trigger] raw[i] == 0
        }),
{
    let raw = filled_coinbase(height, ex1, value, ex2);
    let coinbase = coinbase_bytes(height, ex1, value);
    let script = script_sig(height, ex1);
    let s = number_push(height).len() as int + 10;
    let head = coinbase_head(script.len());
    let tail = coinbase_tail(value);
    number_push_shape(height);
    filling_keeps_the_coinbase(height, ex1, value, ex2);
    lemma2_to64();
    written_bytes_are_read_back(value as nat, 8);
    let start = slot_start(height);
    assert(script.len() == s && start + 4 == 42 + s);
    assert(head.len() == 42 && tail.len() == 19);
    assert forall|i: int| 0 <= i < 42 implies #[trigger] raw[i] == head[i] by {
        assert(raw[i] == coinbase[i]);
    }
    assert forall|i: int| 42 + s <= i < 61 + s implies #[trigger] raw[i] == tail[i - 42 - s] by {
        assert(raw[i] == coinbase[i]);
    }
    assert(raw.subrange(0, 5) =~= seq![1u8, 0u8, 0u8, 0u8, 1u8]);
    assert(raw.subrange(47 + s, 55 + s) =~= little_endian(value as nat, 8));
}

/// The two halves of a coinbase with any extra nonce of a miner between them are a coinbase
/// transaction of the height and the value, with both extra nonces in it.
pub proof fn a_filled_coinbase_is_a_coinbase(height: u32, ex1: Seq<u8>, value: u64, ex2: Seq<u8>)
    requires
        ex1.len() == 4,
        ex2.len() == 4,
    ensures
        is_coinbase(
            coinbase_bytes(height, ex1, value).take(slot_start(height)) + ex2 + coinbase_bytes(
                height,
                ex1,
                value,
            ).skip(slot_start(height) + 4),
            height as int,
            ex1,
            ex2,
            value as int,
        ),
{
    let raw = filled_coinbase(height, ex1, value, ex2);
    let push = number_push(height);
    let k = push.len() as int;
    the_script_is_laid_out(height, ex1, value, ex2);
    the_frame_is_laid_out(height, ex1, value, ex2);
    number_push_shape(height);
    a_push_holds_its_number(height);
    reveal(is_coinbase);
    let part = raw.subrange(42, 42 + k);
    assert(part[0] == raw[42]);
    assert(part[k - 1] == raw[41 + k]);
    if k > 1 {
        assert(part[k - 2] == raw[40 + k]);
        assert(raw.subrange(43, 42 + k) =~= push.subrange(1, k));
    }
}

/// The halves of a job's coinbase with any extra nonce of a miner between them spell a coinbase
/// transaction of the template's height and value.
pub proof fn a_jobs_coinbase_is_the_templates(
    template: BlockTemplate,
    ex1: Seq<u8>,
    number: u64,
    ex2: Seq<u8>,
)
    requires
        ex1.len() == 4,
        ex2.len() == 4,
    ensures
        ({
            let job = job_of(template, ex1, number);
            let spelled = hex_bytes(job.coinbase1 + hex_text(ex2) + job.coinbase2);
            let value = template.coinbase_value as int;
            &&& spelled is Some
            &&& template.height <= u32::MAX ==> is_coinbase(
                spelled->0,
                template.height as int,
                ex1,
                ex2,
                value,
            )
            &&& is_coinbase(spelled->0, template.height as int % 0x1_0000_0000, ex1, ex2, value)
        }),
{
    let height = template.height_u32();
    let filled = filled_coinbase(height, ex1, template.coinbase_value, ex2);
    halves_spell_the_coinbase(template, ex1, number, ex2);
    a_filled_coinbase_is_a_coinbase(height, ex1, template.coinbase_value, ex2);
    assert(is_coinbase(filled, height as int, ex1, ex2, template.coinbase_value as int));
    assert(height == template.height as int % 0x1_0000_0000);
}

} // verus!

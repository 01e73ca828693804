//! The coinbase transaction of a job, and the slot in it that a miner fills.
use crate::chain::{
    encode_transaction, little_endian, number_push, push_four_bytes, push_number, push_opcode,
    script_number, SimpleTransaction,
};
use crate::text::{encode_hex, hex_text};
use vstd::prelude::*;

verus! {

/// How many bytes of extra nonce the pool picks for a job.
pub const EXTRANONCE1_LEN: usize = 4;

/// How many bytes of extra nonce a miner picks.
pub const EXTRANONCE2_LEN: usize = 4;

/// The script of the coinbase input: the push of the height, of the pool's extra nonce, and of
/// four zero bytes.
pub open spec fn script_sig(height: u32, ex1: Seq<u8>) -> Seq<u8> {
    number_push(height) + seq![4u8] + ex1 + seq![4u8, 0u8, 0u8, 0u8, 0u8]
}

/// What is serialized before the script of the coinbase input: version one, one input, and the
/// null output that it spends, then the length of the script.
pub open spec fn coinbase_head(script_len: nat) -> Seq<u8> {
    seq![1u8, 0u8, 0u8, 0u8, 1u8] + Seq::new(32, |i: int| 0u8) + seq![
        0xffu8,
        0xffu8,
        0xffu8,
        0xffu8,
        script_len as u8,
    ]
}

/// What is serialized after the script of the coinbase input: the highest sequence, one output
/// of `value` satoshi under the script of a lone zero opcode, and lock time zero. That script is a
/// placeholder, meant for regtest, and is the same on every network: no payout address enters it.
pub open spec fn coinbase_tail(value: u64) -> Seq<u8> {
    seq![0xffu8, 0xffu8, 0xffu8, 0xffu8, 1u8] + little_endian(value as nat, 8) + seq![
        1u8,
        0u8,
        0u8,
        0u8,
        0u8,
        0u8,
    ]
}

/// The serialized coinbase transaction.
pub open spec fn coinbase_bytes(height: u32, ex1: Seq<u8>, value: u64) -> Seq<u8> {
    let script = script_sig(height, ex1);
    coinbase_head(script.len()) + script + coinbase_tail(value)
}

/// Where in the coinbase transaction the miner's extra nonce starts: past the height's push, the
/// push of the pool's extra nonce, and the opcode that pushes the miner's.
pub open spec fn slot_start(height: u32) -> int {
    42 + number_push(height).len() + 1 + EXTRANONCE1_LEN + 1
}

/// The length of the push of a number, and its first bytes.
pub(crate) proof fn number_push_shape(n: u32)
    ensures
        1 <= number_push(n).len() <= 6,
        n == 0 ==> number_push(n) =~= seq![0u8],
        1 <= n <= 16 ==> number_push(n) =~= seq![(0x50 + n) as u8],
        16 < n < 0x80 ==> number_push(n) =~= seq![1u8, n as u8],
        n >= 0x80 ==> 2 <= number_push(n)[0] <= 5,
{
    reveal_with_fuel(script_number, 5);
}

/// The bytes of a coinbase transaction in front of its script.
proof fn coinbase_head_bytes(script_len: nat)
    requires
        script_len < 0xfd,
    ensures
        coinbase_head(script_len).len() == 42,
        coinbase_head(script_len)[0] == 1,
        coinbase_head(script_len)[4] == 1,
        forall|i: int|
            1 <= i < 37 && i != 4 ==> #[trigger] coinbase_head(script_len)[i] == 0,
        forall|i: int| 37 <= i < 41 ==> #[trigger] coinbase_head(script_len)[i] == 0xff,
        coinbase_head(script_len)[41] == script_len,
{
}

/// Whether `needle` stands in `hay` at `at`.
pub open spec fn occurs_at(hay: Seq<u8>, needle: Seq<u8>, at: int) -> bool {
    0 <= at && at + needle.len() <= hay.len() && hay.subrange(at, at + needle.len()) == needle
}

/// The script of a job's coinbase stands at byte 42 of the transaction and nowhere before.
pub proof fn script_is_found_in_its_place(height: u32, ex1: Seq<u8>, value: u64)
    requires
        ex1.len() == EXTRANONCE1_LEN,
    ensures
        occurs_at(coinbase_bytes(height, ex1, value), script_sig(height, ex1), 42),
        forall|at: int|
            0 <= at < 42 ==> !#[trigger] occurs_at(
                coinbase_bytes(height, ex1, value),
                script_sig(height, ex1),
                at,
            ),
{
    let script = script_sig(height, ex1);
    let hay = coinbase_bytes(height, ex1, value);
    number_push_shape(height);
    coinbase_head_bytes(script.len());
    assert(hay.subrange(42, 42 + script.len() as int) =~= script);
    assert forall|at: int| 0 <= at < 42 implies !#[trigger] occurs_at(hay, script, at) by {
        if occurs_at(hay, script, at) {
            let window = hay.subrange(at, at + script.len());
            assert(window[0] == hay[at] && window[1] == hay[at + 1]);
            assert(script[0] == number_push(height)[0]);
            assert(hay[at] == coinbase_head(script.len())[at]);
            if at < 41 {
                assert(hay[at + 1] == coinbase_head(script.len())[at + 1]);
            }
            if number_push(height).len() == 1 {
                assert(script[1] == 4);
            } else {
                assert(script[1] == number_push(height)[1]);
            }
        }
    }
}

/// Finds the first place where `needle` stands in `hay`.
pub fn find_bytes(hay: &[u8], needle: &[u8]) -> (found: Option<usize>)
    requires
        needle@.len() > 0,
    ensures
        match found {
            Some(at) => occurs_at(hay@, needle@, at as int) && forall|j: int|
                0 <= j < at ==> !#[trigger] occurs_at(hay@, needle@, j),
            None => forall|j: int| !#[trigger] occurs_at(hay@, needle@, j),
        },
{
    if hay.len() < needle.len() {
        return None;
    }
    let total: usize = hay.len();
    let last: usize = total - needle.len();
    let mut at: usize = 0;
    loop
        invariant
            at <= last,
            total == hay@.len(),
            last == hay@.len() - needle@.len(),
            needle@.len() > 0,
            forall|j: int| 0 <= j < at ==> !#[trigger] occurs_at(hay@, needle@, j),
        decreases last - at,
    {
        let mut k: usize = 0;
        while k < needle.len() && hay[at + k] == needle[k]
            invariant
                k <= needle@.len(),
                total == hay@.len(),
                at + needle@.len() <= hay@.len(),
                forall|m: int| 0 <= m < k ==> hay@[at + m] == #[trigger] needle@[m],
            decreases needle.len() - k,
        {
            k += 1;
        }
        let ghost window = hay@.subrange(at as int, at + needle@.len());
        if k == needle.len() {
            assert(window =~= needle@);
            return Some(at);
        }
        assert(window[k as int] != needle@[k as int]);
        if at == last {
            return None;
        }
        at += 1;
    }
}

/// A copy of `bytes[from..to]`.
fn slice_copy(bytes: &[u8], from: usize, to: usize) -> (part: Vec<u8>)
    requires
        from <= to <= bytes@.len(),
    ensures
        part@ == bytes@.subrange(from as int, to as int),
{
    let mut part: Vec<u8> = Vec::new();
    let mut i: usize = from;
    while i < to
        invariant
            from <= i <= to <= bytes@.len(),
            part@ == bytes@.subrange(from as int, i as int),
        decreases to - i,
    {
        part.push(bytes[i]);
        assert(part@ =~= bytes@.subrange(from as int, i + 1));
        i += 1;
    }
    part
}

/// Splits a serialized coinbase transaction round the bytes that a miner replaces, which start
/// `offset` bytes into the first place where `script` stands. `None` if it stands nowhere.
pub fn split_coinbase(coinbase: &[u8], script: &[u8], offset: usize) -> (halves: Option<
    (String, String),
>)
    requires
        offset + EXTRANONCE2_LEN <= script@.len(),
    ensures
        halves is None <==> (forall|at: int| !#[trigger] occurs_at(coinbase@, script@, at)),
        forall|at: int|
            (#[trigger] occurs_at(coinbase@, script@, at) && forall|j: int|
                0 <= j < at ==> !#[trigger] occurs_at(coinbase@, script@, j)) ==> {
                &&& halves is Some
                &&& (halves->0).0@ == hex_text(coinbase@.take(at + offset))
                &&& (halves->0).1@ == hex_text(coinbase@.skip(at + offset + EXTRANONCE2_LEN))
            },
{
    match find_bytes(coinbase, script) {
        None => None,
        Some(at) => {
            let end: usize = coinbase.len();
            assert(at + offset + EXTRANONCE2_LEN <= end);
            let start: usize = at + offset;
            let first = slice_copy(coinbase, 0, start);
            let second = slice_copy(coinbase, start + EXTRANONCE2_LEN, end);
            assert(first@ =~= coinbase@.take(start as int));
            assert(second@ =~= coinbase@.skip(start + EXTRANONCE2_LEN));
            Some((encode_hex(&first), encode_hex(&second)))
        },
    }
}

/// Builds the coinbase transaction of a job and splits it: the hexadecimal text up to the slot
/// that a miner fills, and that of what follows it.
pub fn build_coinbase(height: u32, ex1: &[u8; 4], value: u64) -> (halves: (String, String))
    ensures
        halves.0@ == hex_text(coinbase_bytes(height, ex1@, value).take(slot_start(height))),
        halves.1@ == hex_text(
            coinbase_bytes(height, ex1@, value).skip(slot_start(height) + EXTRANONCE2_LEN),
        ),
{
    proof {
        number_push_shape(height);
        script_is_found_in_its_place(height, ex1@, value);
    }
    let placeholder = [0u8; 4];
    let height_only = push_number(Vec::new(), height);
    let script = push_four_bytes(push_four_bytes(push_number(Vec::new(), height), ex1), &placeholder);
    assert(script@ =~= script_sig(height, ex1@));
    let payout = push_opcode(Vec::new(), 0);
    let tx = SimpleTransaction {
        version: 1,
        previous_txid: [0u8; 32],
        previous_index: 0xffff_ffff,
        script_sig: script,
        sequence: 0xffff_ffff,
        value,
        script_pubkey: payout,
        lock_time: 0,
    };
    let bytes = encode_transaction(&tx);
    proof {
        reveal_with_fuel(little_endian, 5);
        assert(tx.head() =~= coinbase_head(script_sig(height, ex1@).len()));
        assert(tx.tail() =~= coinbase_tail(value));
        assert(bytes@ =~= coinbase_bytes(height, ex1@, value));
    }
    let offset: usize = height_only.len() + 1 + EXTRANONCE1_LEN + 1;
    match split_coinbase(&bytes, &tx.script_sig, offset) {
        Some(halves) => halves,
        None => {
            assert(occurs_at(bytes@, tx.script_sig@, 42));
            (String::new(), String::new())
        },
    }
}

} // verus!

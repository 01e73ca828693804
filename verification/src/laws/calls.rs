//! What the results of calls satisfy, and how the results of several calls relate.
use super::numbers::{
    decimal_text_spells_its_number, digits_spell_their_number, hex_numbers_are_read_as_spelled,
    is_hex_number, number_in,
};
use super::layout::{a_filled_coinbase_is_a_coinbase, is_coinbase};
use super::target::a_share_solves_by_the_target_of_its_header;
use super::tree::{an_odd_group_is_repeated, the_root_joins_its_halves, the_smallest_trees};
use super::{fixed_hex_round_trip, hex_text_joins};
use crate::chain::le_number;
use crate::coinbase::{build_coinbase, coinbase_bytes, find_bytes, occurs_at, slot_start};
use crate::feed::{forward_step, stream_step, Received, StreamStep};
use crate::merkle::{digest_views, merkle_root_from_txids, sha256d_digest};
use crate::node::{poll_event, ZmqEvent};
use crate::stratum::{judge_submission, Submission, Verdict};
use crate::text::{
    decimal_text, fixed_hex, hex_bytes, hex_round_trip, hex_text, parse_hex_u32, short_hex,
};
use vstd::arithmetic::power2::pow2;
use vstd::prelude::*;

verus! {

/// A number that is written in eight digits is read back as itself, and one that is written in
/// the fewest is what these spell. Decimal text spells its number after its sign.
pub proof fn written_numbers_are_read(
    v: u32,
    written: String,
    text: &str,
    read: Option<u32>,
    n: u64,
    short: String,
    d: i64,
    signed: String,
)
    requires
        call_ensures(fixed_hex, (v,), written),
        call_ensures(parse_hex_u32, (text,), read),
        call_ensures(short_hex, (n,), short),
        call_ensures(decimal_text, (d,), signed),
    ensures
        written@.len() == 8,
        text@ == written@ ==> read == Some(v),
        text@ == short@ && n <= u32::MAX ==> read is Some && read->0 == n,
        text@ == short@ && n > u32::MAX ==> read is None,
        number_in(short@, 16) == n,
        short@.len() > 1 ==> short@[0] != '0',
        d >= 0 ==> number_in(signed@, 10) == d && signed@[0] != '-',
        d < 0 ==> signed@[0] == '-' && number_in(signed@.skip(1), 10) == -d,
{
    fixed_hex_round_trip(v);
    digits_spell_their_number(n as nat, 16);
    decimal_text_spells_its_number(d as int);
    hex_numbers_are_read_as_spelled(text@);
    assert(is_hex_number(short@));
    assert(short@[0] != '+');
}

/// A 32-bit number is read out of one or more hexadecimal digits as what they spell, and out of
/// the same digits after a plus sign.
pub proof fn digits_are_read_as_spelled(text: &str, read: Option<u32>)
    requires
        call_ensures(parse_hex_u32, (text,), read),
    ensures
        text@.len() == 0 ==> read is None,
        text@.len() > 0 && text@[0] == '+' ==> {
            let part = text@.skip(1);
            &&& is_hex_number(part) && number_in(part, 16) <= 0xffff_ffff ==> read is Some && read->0
                == number_in(part, 16)
            &&& !is_hex_number(part) || number_in(part, 16) > 0xffff_ffff ==> read is None
        },
        text@.len() > 0 && text@[0] != '+' ==> {
            &&& is_hex_number(text@) && number_in(text@, 16) <= 0xffff_ffff ==> read is Some
                && read->0 == number_in(text@, 16)
            &&& !is_hex_number(text@) || number_in(text@, 16) > 0xffff_ffff ==> read is None
        },
{
    hex_numbers_are_read_as_spelled(text@);
}

/// The halves of a coinbase with any extra nonce of a miner between them spell a coinbase
/// transaction of the height and the value that were asked for.
pub proof fn built_coinbases_are_coinbases(
    height: u32,
    ex1: &[u8; 4],
    value: u64,
    halves: (String, String),
    ex2: Seq<u8>,
)
    requires
        call_ensures(build_coinbase, (height, ex1, value), halves),
        ex2.len() == 4,
    ensures
        ({
            let spelled = hex_bytes(halves.0@ + hex_text(ex2) + halves.1@);
            &&& spelled is Some
            &&& is_coinbase(spelled->0, height as int, ex1@, ex2, value as int)
        }),
{
    let whole = coinbase_bytes(height, ex1@, value);
    let first = whole.take(slot_start(height));
    let second = whole.skip(slot_start(height) + 4);
    hex_text_joins(first, ex2);
    hex_text_joins(first + ex2, second);
    hex_round_trip(first + ex2 + second);
    a_filled_coinbase_is_a_coinbase(height, ex1@, value, ex2);
}

/// Bytes that are found stand where they are found, and nowhere before.
pub proof fn found_bytes_are_the_first(hay: &[u8], needle: &[u8], found: Option<usize>, at: int)
    requires
        call_ensures(find_bytes, (hay, needle), found),
        0 <= at,
        at + needle@.len() <= hay@.len(),
    ensures
        found is Some ==> found->0 + needle@.len() <= hay@.len() && hay@.subrange(
            found->0 as int,
            found->0 + needle@.len(),
        ) == needle@,
        found is Some && hay@.subrange(at, at + needle@.len()) == needle@ ==> found->0 <= at,
{
    if hay@.subrange(at, at + needle@.len()) =~= needle@ {
        assert(occurs_at(hay@, needle@, at));
    }
}

/// One leaf is its own root. The root of two equal powers of two of leaves is the digest of the
/// roots of both. The root of an odd number of groups, each of the same power of two of leaves,
/// is that of the same leaves with the last group repeated. Together these say what every root
/// is.
pub proof fn roots_are_roots_of_roots(
    a: &[[u8; 32]],
    a_root: [u8; 32],
    b: &[[u8; 32]],
    b_root: [u8; 32],
    both: &[[u8; 32]],
    root: [u8; 32],
    k: nat,
    groups: nat,
)
    requires
        call_ensures(merkle_root_from_txids, (a,), a_root),
        call_ensures(merkle_root_from_txids, (b,), b_root),
        call_ensures(merkle_root_from_txids, (both,), root),
        both@ == a@ + b@,
    ensures
        a@.len() == 1 ==> a_root@ == a@[0]@,
        a@.len() == 0 ==> forall|i: int| 0 <= i < 32 ==> #[trigger] a_root@[i] == 0,
        a@.len() == pow2(k) && b@.len() == pow2(k) ==> root@ == sha256d_digest(a_root@ + b_root@),
        a@.len() == pow2(k) * groups && groups > 1 && groups % 2 == 1 && pow2(k) <= a@.len() && b@
            == a@.skip(a@.len() - pow2(k)) ==> root@ == a_root@,
{
    let left = digest_views(a@);
    let right = digest_views(b@);
    assert(digest_views(both@) =~= left + right);
    if a@.len() == 1 {
        the_smallest_trees(a@[0]@);
        assert(left =~= seq![a@[0]@]);
    }
    if a@.len() == 0 {
        the_smallest_trees(Seq::empty());
        assert(left =~= Seq::empty());
    }
    if a@.len() == pow2(k) && b@.len() == pow2(k) {
        the_root_joins_its_halves(left, right, k);
    }
    if a@.len() == pow2(k) * groups && groups > 1 && groups % 2 == 1 && pow2(k) <= a@.len() && b@
        == a@.skip(a@.len() - pow2(k)) {
        an_odd_group_is_repeated(left, k, groups);
        assert(right =~= left.skip(left.len() - pow2(k)));
    }
}

/// An accepted share solves the block exactly if the digest of its header is at most the target
/// that the header carries, wherever that target is one: `m` times 256 to the power `e - 3`, with
/// `e` the top byte and `m` the other three.
pub proof fn judged_shares_solve_by_their_target(
    submission: Submission,
    best: Option<[u8; 32]>,
    verdict: Verdict,
)
    requires
        call_ensures(judge_submission, (submission, best), verdict),
        verdict is Accepted,
    ensures
        ({
            let share = verdict->Accepted_0;
            let hash = le_number(sha256d_digest(share.header@));
            let e = submission.header.bits as nat / 0x100_0000;
            let m = submission.header.bits as nat % 0x100_0000;
            &&& e >= 3 && m > 0x7f_ffff ==> (share.meets_block <==> hash == 0)
            &&& e < 3 ==> (share.meets_block <==> hash * pow2((8 * (3 - e)) as nat) <= m)
            &&& e >= 3 && m <= 0x7f_ffff && m * pow2((8 * (e - 3)) as nat) < pow2(256) && e <= 34
                ==> (share.meets_block <==> hash <= m * pow2((8 * (e - 3)) as nat))
            &&& share.header@ == submission.header@.bytes()
        }),
{
    let tip = match best {
        Some(hash) => Some(hash@),
        None => None,
    };
    a_share_solves_by_the_target_of_its_header(submission@, tip, verdict->Accepted_0@);
}

/// The event stream passes every message on, outlives lost ones and ends with its senders; the
/// forwarder to a miner writes every message as a line and stops at anything else.
pub proof fn broadcasts_are_passed_on(received: Received, step: StreamStep, line: Option<String>)
    requires
        call_ensures(stream_step, (received,), step),
        call_ensures(forward_step, (&received,), line),
    ensures
        received is Message ==> step is Yield && step->Yield_0 == received->Message_0,
        received is Lagged <==> step is Skip,
        received is Closed <==> step is End,
        received is Message <==> line is Some,
        line is Some ==> (line->0)@.drop_last() == (received->Message_0)@ && (line->0)@.last()
            == '\n',
{
    if received is Message {
        assert((line->0)@.drop_last() =~= (received->Message_0)@);
    }
}

/// A round of polling reports a block that came, and otherwise a transaction that came.
pub proof fn a_block_is_reported_first(block_came: bool, tx_came: bool, event: Option<ZmqEvent>)
    requires
        call_ensures(poll_event, (block_came, tx_came), event),
    ensures
        event is Some <==> block_came || tx_came,
        block_came <==> event == Some(ZmqEvent::Block),
        event == Some(ZmqEvent::Tx) ==> tx_came,
{
}

} // verus!

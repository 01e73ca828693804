//! What holds of the pool as a whole.
use crate::chain::{
    block_hash_of, block_hash_text, is_simple_transaction, little_endian, number_push,
    transaction_id,
};
use crate::coinbase::{
    coinbase_bytes, coinbase_head, coinbase_tail, number_push_shape, script_sig, slot_start,
    EXTRANONCE1_LEN, EXTRANONCE2_LEN,
};
use crate::job::{
    block_of, byte_views, decode_all, job_of, BlockTemplate, JobManager, JobModel, RefreshOutcome,
    SubmitError, INITIAL_AGE_NS, PUBLISH_GAP_NS,
};
use crate::json::{json_rendered, response_model, JsonModel};
use crate::merkle::{merkle_root, parents, sha256d_digest};
use crate::session::{session_step, standing_over, Standing};
use crate::stratum::{
    gives_password, granted, hex_u32_or_zero, known_ids, param, refused, reply_id, request_step,
    share_header, submit_step, verdict_of, RequestModel, StepModel, SubmissionModel, VerdictModel,
};
use crate::text::{
    big_endian, decimal, digits, hex_bytes, hex_digit, hex_number, hex_round_trip, hex_text,
    hex_u32, hex_value, unsigned_part,
};
use vstd::prelude::*;

pub mod calls;
pub mod decisions;
pub mod jobs;
pub mod layout;
pub mod messages;
pub mod numbers;
pub mod records;
pub mod replies;
pub mod target;
pub mod tree;
pub mod views;

verus! {

/// Hexadecimal text of two byte strings, one after the other, is that of both together.
proof fn hex_text_joins(a: Seq<u8>, b: Seq<u8>)
    ensures
        hex_text(a) + hex_text(b) == hex_text(a + b),
{
    let joined = hex_text(a) + hex_text(b);
    assert forall|i: int| 0 <= i < joined.len() implies #[trigger] joined[i] == hex_text(a + b)[i] by {
        if i >= hex_text(a).len() {
            let j = i - hex_text(a).len();
            assert(i / 2 == a.len() + j / 2);
            assert(i % 2 == j % 2);
        }
    }
    assert(joined =~= hex_text(a + b));
}

/// A 32-bit number that is written in eight hexadecimal digits is read back as itself.
pub proof fn fixed_hex_round_trip(v: u32)
    ensures
        hex_u32(hex_text(big_endian(v))) == Some(v),
{
    let bytes = big_endian(v);
    bytes_are_read_back(bytes);
    assert(bytes[0] as int * 0x1000000 + bytes[1] as int * 0x10000 + bytes[2] as int * 0x100
        + bytes[3] as int == v as int);
}

/// Four bytes that are written in hexadecimal are read back as a number, the first byte the
/// most significant.
pub proof fn bytes_are_read_back(bytes: Seq<u8>)
    requires
        bytes.len() == 4,
    ensures
        hex_u32(hex_text(bytes)) == Some(
            (bytes[0] * 0x1000000 + bytes[1] * 0x10000 + bytes[2] * 0x100 + bytes[3]) as u32,
        ),
{
    let text = hex_text(bytes);
    assert(text.len() == 8);
    assert forall|i: int| 0 <= i < 8 implies hex_value(#[trigger] text[i]) == Some(
        if i % 2 == 0 {
            bytes[i / 2] as int / 16
        } else {
            bytes[i / 2] as int % 16
        },
    ) by {}
    assert(text[0] != '+');
    assert(unsigned_part(text) == text);
    let t7 = text.drop_last();
    let t6 = t7.drop_last();
    let t5 = t6.drop_last();
    let t4 = t5.drop_last();
    let t3 = t4.drop_last();
    let t2 = t3.drop_last();
    let t1 = t2.drop_last();
    let t0 = t1.drop_last();
    assert(hex_number(t0) == 0);
    assert(hex_number(t1) == bytes[0] as int / 16);
    assert(hex_number(t2) == bytes[0]);
    assert(hex_number(t3) == bytes[0] * 16 + bytes[1] as int / 16);
    assert(hex_number(t4) == bytes[0] * 0x100 + bytes[1]);
    assert(hex_number(t5) == bytes[0] * 0x1000 + bytes[1] * 16 + bytes[2] as int / 16);
    assert(hex_number(t6) == bytes[0] * 0x10000 + bytes[1] * 0x100 + bytes[2]);
    assert(hex_number(t7) == bytes[0] * 0x100000 + bytes[1] * 0x1000 + bytes[2] * 16 + bytes[3] as int
        / 16);
    assert(hex_number(text) == bytes[0] * 0x1000000 + bytes[1] * 0x10000 + bytes[2] * 0x100 + bytes[3]);
}

/// A block hash that is shown is read back as itself.
pub proof fn block_hash_round_trip(hash: Seq<u8>)
    requires
        hash.len() == 32,
    ensures
        block_hash_of(block_hash_text(hash)) == Some(hash),
{
    hex_round_trip(hash.reverse());
    assert(hash.reverse().reverse() =~= hash);
}

/// The coinbase transaction with a miner's extra nonce in its slot.
pub open spec fn filled_coinbase(height: u32, ex1: Seq<u8>, value: u64, ex2: Seq<u8>) -> Seq<u8> {
    let coinbase = coinbase_bytes(height, ex1, value);
    coinbase.take(slot_start(height)) + ex2 + coinbase.skip(slot_start(height) + EXTRANONCE2_LEN)
}

/// A miner's extra nonce changes four bytes of the coinbase, which lie inside the script of its
/// input, and leaves it a transaction.
pub proof fn filling_keeps_the_coinbase(height: u32, ex1: Seq<u8>, value: u64, ex2: Seq<u8>)
    requires
        ex1.len() == EXTRANONCE1_LEN,
        ex2.len() == EXTRANONCE2_LEN,
    ensures
        ({
            let coinbase = coinbase_bytes(height, ex1, value);
            let filled = filled_coinbase(height, ex1, value, ex2);
            let start = slot_start(height);
            &&& 42 <= start
            &&& start + EXTRANONCE2_LEN <= 42 + script_sig(height, ex1).len()
            &&& filled.len() == coinbase.len()
            &&& filled.subrange(start, start + EXTRANONCE2_LEN) == ex2
            &&& forall|i: int|
                0 <= i < filled.len() && !(start <= i < start + EXTRANONCE2_LEN)
                    ==> #[trigger] filled[i] == coinbase[i]
            &&& is_simple_transaction(filled)
            &&& filled[41] == script_sig(height, ex1).len()
            &&& transaction_id(filled) == Some(sha256d_digest(filled))
        }),
{
    let coinbase = coinbase_bytes(height, ex1, value);
    let filled = filled_coinbase(height, ex1, value, ex2);
    let script = script_sig(height, ex1);
    let start = slot_start(height);
    number_push_shape(height);
    reveal_with_fuel(little_endian, 9);
    assert(coinbase_tail(value).len() == 19);
    assert(coinbase_head(script.len()).len() == 42);
    assert(coinbase.len() == 61 + script.len());
    assert(filled.subrange(start, start + EXTRANONCE2_LEN) =~= ex2);
    assert(coinbase[4] == coinbase_head(script.len())[4]);
    assert(coinbase[41] == coinbase_head(script.len())[41]);
    assert(coinbase[46 + script.len() as int] == coinbase_tail(value)[4]);
    assert(coinbase[55 + script.len() as int] == coinbase_tail(value)[13]);
    assert(filled[4] == coinbase[4] && filled[41] == coinbase[41]);
    assert(filled[46 + script.len() as int] == coinbase[46 + script.len() as int]);
    assert(filled[55 + script.len() as int] == coinbase[55 + script.len() as int]);
}

/// The script of a filled coinbase pushes the height, the pool's extra nonce and the miner's, in
/// this order and each whole.
pub proof fn the_filled_script_pushes_both_nonces(
    height: u32,
    ex1: Seq<u8>,
    value: u64,
    ex2: Seq<u8>,
)
    requires
        ex1.len() == EXTRANONCE1_LEN,
        ex2.len() == EXTRANONCE2_LEN,
    ensures
        filled_coinbase(height, ex1, value, ex2).subrange(
            42,
            42 + script_sig(height, ex1).len() as int,
        ) == number_push(height) + seq![4u8] + ex1 + seq![4u8] + ex2,
{
    let coinbase = coinbase_bytes(height, ex1, value);
    let filled = filled_coinbase(height, ex1, value, ex2);
    let script = script_sig(height, ex1);
    let wanted = number_push(height) + seq![4u8] + ex1 + seq![4u8] + ex2;
    number_push_shape(height);
    assert(coinbase_head(script.len()).len() == 42);
    assert(coinbase.subrange(42, 42 + script.len() as int) =~= script);
    assert(filled.subrange(42, 42 + script.len() as int) =~= wanted);
}

/// The halves of a job's coinbase and a miner's extra nonce between them spell the filled
/// coinbase.
pub proof fn halves_spell_the_coinbase(
    template: BlockTemplate,
    ex1: Seq<u8>,
    number: u64,
    ex2: Seq<u8>,
)
    ensures
        ({
            let job = job_of(template, ex1, number);
            hex_bytes(job.coinbase1 + hex_text(ex2) + job.coinbase2) == Some(
                filled_coinbase(template.height_u32(), ex1, template.coinbase_value, ex2),
            )
        }),
{
    let height = template.height_u32();
    let coinbase = coinbase_bytes(height, ex1, template.coinbase_value);
    let first = coinbase.take(slot_start(height));
    let second = coinbase.skip(slot_start(height) + EXTRANONCE2_LEN);
    hex_text_joins(first, ex2);
    hex_text_joins(first + ex2, second);
    hex_round_trip(first + ex2 + second);
}

/// The script of the input of a transaction with the shape of `is_simple_transaction`.
pub open spec fn simple_script(raw: Seq<u8>) -> Seq<u8> {
    raw.subrange(42, 42 + raw[41] as int)
}

/// The halves of a job's coinbase and a miner's extra nonce spell a transaction, and the script
/// of its input pushes the height, the extra nonce that subscribers are told, and the miner's.
pub proof fn the_told_nonce_is_in_the_coinbase(
    template: BlockTemplate,
    ex1: Seq<u8>,
    number: u64,
    ex2: Seq<u8>,
)
    requires
        ex1.len() == EXTRANONCE1_LEN,
        ex2.len() == EXTRANONCE2_LEN,
    ensures
        ({
            let job = job_of(template, ex1, number);
            let spelled = hex_bytes(job.coinbase1 + hex_text(ex2) + job.coinbase2);
            &&& hex_bytes(job.ex1_hex) == Some(ex1)
            &&& spelled is Some
            &&& is_simple_transaction(spelled->0)
            &&& simple_script(spelled->0) == number_push(template.height_u32()) + seq![4u8] + ex1
                + seq![4u8] + ex2
        }),
{
    let height = template.height_u32();
    let value = template.coinbase_value;
    let filled = filled_coinbase(height, ex1, value, ex2);
    halves_spell_the_coinbase(template, ex1, number, ex2);
    assert(is_simple_transaction(filled) && filled[41] == script_sig(height, ex1).len()) by {
        filling_keeps_the_coinbase(height, ex1, value, ex2);
    }
    assert(simple_script(filled) == number_push(height) + seq![4u8] + ex1 + seq![4u8] + ex2) by {
        the_filled_script_pushes_both_nonces(height, ex1, value, ex2);
    }
    hex_round_trip(ex1);
}

/// The method of a share is neither of those that are told apart first.
proof fn submit_is_its_own_method()
    ensures
        "mining.submit"@ != "mining.subscribe"@,
        "mining.submit"@ != "mining.authorize"@,
{
    reveal_strlit("mining.subscribe");
    reveal_strlit("mining.authorize");
    reveal_strlit("mining.submit");
    assert("mining.submit"@.len() == 13);
    assert("mining.subscribe"@.len() == 16);
    assert("mining.authorize"@.len() == 16);
}

/// A share for a job that a template gave, with an extra nonce of the right size, is never
/// refused for its coinbase: it awaits the node's best block. Its header carries the template's
/// version and previous block, its target where that is four bytes, the miner's time and nonce,
/// and a Merkle root over the filled coinbase and the template's transactions.
pub proof fn a_share_carries_its_template(
    template: BlockTemplate,
    ex1: Seq<u8>,
    number: u64,
    ex2: Seq<u8>,
    password: Option<Seq<char>>,
    request: RequestModel,
)
    requires
        ex1.len() == EXTRANONCE1_LEN,
        request.method == "mining.submit"@,
        param(request, 1, Seq::empty()) == job_of(template, ex1, number).job_id,
        hex_bytes(param(request, 2, Seq::empty())) == Some(ex2),
        ex2.len() == EXTRANONCE2_LEN,
    ensures
        ({
            let job = job_of(template, ex1, number);
            let coinbase = filled_coinbase(
                template.height_u32(),
                ex1,
                template.coinbase_value,
                ex2,
            );
            let step = request_step(Some(job), password, request);
            &&& step is CheckTip
            &&& step->CheckTip_0.id == reply_id(request, 3)
            &&& step->CheckTip_0.worker == param(request, 0, "unknown"@)
            &&& step->CheckTip_0.job == job
            &&& step->CheckTip_0.coinbase == coinbase
            &&& step->CheckTip_0.header.version == template.version
            &&& step->CheckTip_0.header.prev_blockhash == template.previous_block_hash@
            &&& step->CheckTip_0.header.merkle_root == merkle_root(
                seq![sha256d_digest(coinbase)] + known_ids(template.transaction_texts()),
            )
            &&& template.bits@.len() == 4 ==> step->CheckTip_0.header.bits == template.bits@[0]
                * 0x1000000 + template.bits@[1] * 0x10000 + template.bits@[2] * 0x100
                + template.bits@[3]
            &&& step->CheckTip_0.header.time == hex_u32_or_zero(param(request, 3, Seq::empty()))
            &&& step->CheckTip_0.header.nonce == hex_u32_or_zero(param(request, 4, Seq::empty()))
        }),
{
    submit_is_its_own_method();
    let job = job_of(template, ex1, number);
    let coinbase = filled_coinbase(template.height_u32(), ex1, template.coinbase_value, ex2);
    assert(request_step(Some(job), password, request) == submit_step(Some(job), request));
    assert(job.ex2_len == ex2.len());
    halves_spell_the_coinbase(template, ex1, number, ex2);
    filling_keeps_the_coinbase(template.height_u32(), ex1, template.coinbase_value, ex2);
    fixed_hex_round_trip(template.version);
    block_hash_round_trip(template.previous_block_hash@);
    if template.bits@.len() == 4 {
        bytes_are_read_back(template.bits@);
    }
    assert(transaction_id(coinbase) == Some(sha256d_digest(coinbase)));
    assert(submit_step(Some(job), request) == StepModel::CheckTip(
        SubmissionModel {
            id: reply_id(request, 3),
            worker: param(request, 0, "unknown"@),
            job,
            coinbase,
            header: share_header(
                job,
                sha256d_digest(coinbase),
                param(request, 3, Seq::empty()),
                param(request, 4, Seq::empty()),
            ),
        },
    ));
}

/// A job's time, read as a share's time, is the template's.
pub proof fn the_time_of_a_job_is_read_back(template: BlockTemplate, ex1: Seq<u8>, number: u64)
    ensures
        hex_u32(job_of(template, ex1, number).ntime) == Some(template.time_u32()),
{
    fixed_hex_round_trip(template.time_u32());
}

/// Block hashes are shown differently unless they are the same.
pub proof fn block_hash_text_is_injective(a: Seq<u8>, b: Seq<u8>)
    requires
        a.len() == 32,
        b.len() == 32,
        block_hash_text(a) == block_hash_text(b),
    ensures
        a == b,
{
    block_hash_round_trip(a);
    block_hash_round_trip(b);
}

/// A share for a job that a template gave is accepted exactly while the node's best block is
/// the one that the template builds on, and is otherwise answered that the tip changed.
pub proof fn a_share_stands_while_the_tip_stays(
    template: BlockTemplate,
    ex1: Seq<u8>,
    number: u64,
    submission: SubmissionModel,
    best: Seq<u8>,
)
    requires
        submission.job == job_of(template, ex1, number),
        best.len() == 32,
    ensures
        verdict_of(submission, Some(best)) is Accepted <==> best == template.previous_block_hash@,
        best != template.previous_block_hash@ ==> verdict_of(submission, Some(best))
            == VerdictModel::Stale(refused(submission.id, 21, "Stale: tip changed"@)),
{
    if block_hash_text(best) == block_hash_text(template.previous_block_hash@) {
        block_hash_text_is_injective(best, template.previous_block_hash@);
    }
}

/// Transactions that are written in hexadecimal are read back, if each is one.
proof fn written_transactions_are_read_back(raws: Seq<Seq<u8>>)
    ensures
        ({
            let hexes = Seq::new(raws.len(), |i: int| hex_text(raws[i]));
            &&& decode_all(hexes) is Ok <==> (forall|i: int|
                0 <= i < raws.len() ==> transaction_id(#[trigger] raws[i]) is Some)
            &&& decode_all(hexes) is Ok ==> decode_all(hexes)->Ok_0 == raws
            &&& decode_all(hexes) is Err ==> decode_all(hexes)->Err_0 == SubmitError::Transaction
        }),
    decreases raws.len(),
{
    let hexes = Seq::new(raws.len(), |i: int| hex_text(raws[i]));
    if raws.len() > 0 {
        let before = raws.drop_last();
        written_transactions_are_read_back(before);
        assert(hexes.drop_last() =~= Seq::new(before.len(), |i: int| hex_text(before[i])));
        hex_round_trip(raws.last());
        assert(before.push(raws.last()) =~= raws);
        assert(raws.last() == raws[raws.len() - 1]);
        if decode_all(hexes) is Ok {
            assert forall|i: int| 0 <= i < raws.len() implies transaction_id(
                #[trigger] raws[i],
            ) is Some by {
                if i < before.len() {
                    assert(before[i] == raws[i]);
                }
            }
        } else if forall|i: int| 0 <= i < raws.len() ==> transaction_id(#[trigger] raws[i]) is Some {
            assert forall|i: int| 0 <= i < before.len() implies transaction_id(
                #[trigger] before[i],
            ) is Some by {
                assert(before[i] == raws[i]);
            }
        }
    } else {
        assert(decode_all(hexes)->Ok_0 =~= raws);
    }
}

/// The block that is submitted for a template's job holds the coinbase and then every
/// transaction of the template, in order. It can be put together exactly if each of them is a
/// transaction.
pub proof fn a_block_holds_the_whole_template(
    template: BlockTemplate,
    ex1: Seq<u8>,
    number: u64,
    header: Seq<u8>,
    coinbase: Seq<u8>,
)
    requires
        header.len() == 80,
        transaction_id(coinbase) is Some,
    ensures
        ({
            let block = block_of(header, coinbase, job_of(template, ex1, number).txs_hex);
            let raws = byte_views(template.transactions@);
            &&& block is Ok <==> (forall|i: int|
                0 <= i < raws.len() ==> transaction_id(#[trigger] raws[i]) is Some)
            &&& block is Ok ==> block->Ok_0 == (header, seq![coinbase] + raws)
            &&& block is Err ==> block->Err_0 == SubmitError::Transaction
        }),
{
    let raws = byte_views(template.transactions@);
    written_transactions_are_read_back(raws);
    assert(template.transaction_texts() =~= Seq::new(raws.len(), |i: int| hex_text(raws[i])));
}

/// The ids of transactions.
pub open spec fn ids_of(raws: Seq<Seq<u8>>) -> Seq<Seq<u8>> {
    Seq::new(raws.len(), |i: int| transaction_id(raws[i])->0)
}

proof fn known_ids_are_those_of_the_block(hexes: Seq<Seq<char>>)
    requires
        decode_all(hexes) is Ok,
    ensures
        known_ids(hexes) == ids_of(decode_all(hexes)->Ok_0),
    decreases hexes.len(),
{
    if hexes.len() > 0 {
        known_ids_are_those_of_the_block(hexes.drop_last());
    }
    assert(known_ids(hexes) =~= ids_of(decode_all(hexes)->Ok_0));
}

/// A share that awaits the node's best block gives a block that fails only for the job's own
/// transactions, and the Merkle root in its header is that of the transactions in the block.
pub proof fn the_root_commits_to_the_block(
    job: JobModel,
    request: RequestModel,
    submission: SubmissionModel,
)
    requires
        submit_step(Some(job), request) == StepModel::CheckTip(submission),
        submission.header.is_valid(),
    ensures
        ({
            let block = block_of(
                submission.header.bytes(),
                submission.coinbase,
                submission.job.txs_hex,
            );
            &&& block is Err ==> decode_all(submission.job.txs_hex) == Err::<Seq<Seq<u8>>, _>(
                block->Err_0,
            )
            &&& block is Ok ==> block->Ok_0.0 == submission.header.bytes()
            &&& block is Ok ==> submission.header.merkle_root == merkle_root(
                ids_of(block->Ok_0.1),
            )
        }),
{
    reveal_with_fuel(little_endian, 5);
    assert(submission.header.bytes().len() == 80);
    let coinbase = submission.coinbase;
    let hexes = submission.job.txs_hex;
    if decode_all(hexes) is Ok {
        known_ids_are_those_of_the_block(hexes);
        let others = decode_all(hexes)->Ok_0;
        assert(ids_of(seq![coinbase] + others) =~= seq![transaction_id(coinbase)->0] + ids_of(
            others,
        ));
    }
}

/// A share for a template's job, with an extra nonce of the right size, is accepted while the
/// node's best block stays the one that the template builds on. The block that it then gives
/// holds the share's header, the filled coinbase, and every transaction of the template in
/// order, and the header's Merkle root is that of these transactions.
pub proof fn an_accepted_share_gives_the_templates_block(
    template: BlockTemplate,
    ex1: Seq<u8>,
    number: u64,
    ex2: Seq<u8>,
    password: Option<Seq<char>>,
    request: RequestModel,
    submission: SubmissionModel,
)
    requires
        ex1.len() == EXTRANONCE1_LEN,
        forall|i: int|
            0 <= i < template.transactions@.len() ==> transaction_id(
                #[trigger] byte_views(template.transactions@)[i],
            ) is Some,
        request.method == "mining.submit"@,
        param(request, 1, Seq::empty()) == job_of(template, ex1, number).job_id,
        hex_bytes(param(request, 2, Seq::empty())) == Some(ex2),
        ex2.len() == EXTRANONCE2_LEN,
        request_step(Some(job_of(template, ex1, number)), password, request) == StepModel::CheckTip(submission),
        submission.header.is_valid(),
    ensures
        ({
            let verdict = verdict_of(submission, Some(template.previous_block_hash@));
            let share = verdict->Accepted_0;
            let coinbase = filled_coinbase(
                template.height_u32(),
                ex1,
                template.coinbase_value,
                ex2,
            );
            let transactions = seq![coinbase] + byte_views(template.transactions@);
            &&& verdict is Accepted
            &&& share.header == submission.header.bytes()
            &&& block_of(share.header, share.coinbase, share.job.txs_hex) == Ok::<_, SubmitError>(
                (share.header, transactions),
            )
            &&& submission.header.merkle_root == merkle_root(ids_of(transactions))
        }),
{
    submit_is_its_own_method();
    let job = job_of(template, ex1, number);
    let raws = byte_views(template.transactions@);
    a_share_carries_its_template(template, ex1, number, ex2, password, request);
    filling_keeps_the_coinbase(template.height_u32(), ex1, template.coinbase_value, ex2);
    a_share_stands_while_the_tip_stays(
        template,
        ex1,
        number,
        submission,
        template.previous_block_hash@,
    );
    reveal_with_fuel(little_endian, 5);
    assert(submission.header.bytes().len() == 80);
    a_block_holds_the_whole_template(
        template,
        ex1,
        number,
        submission.header.bytes(),
        submission.coinbase,
    );
    assert(submit_step(Some(job), request) == StepModel::CheckTip(submission));
    the_root_commits_to_the_block(job, request, submission);
    let block = block_of(submission.header.bytes(), submission.coinbase, job.txs_hex);
    assert(block is Ok);
    assert(block->Ok_0.1 == seq![submission.coinbase] + raws);
}

/// Whether `message` refuses a share for its job, its extra nonce or its coinbase.
pub open spec fn is_refusal(message: JsonModel, id: JsonModel) -> bool {
    ||| message == refused(id, 21, "Stale job"@)
    ||| message == refused(id, 25, "bad ex2 size"@)
    ||| message == refused(id, 23, "bad coinbase"@)
}

/// A share gets one answer. It is refused at once, or else once the node has named its best
/// block, which grants it or refuses it as stale.
pub proof fn a_share_gets_one_answer(
    job: Option<JobModel>,
    password: Option<Seq<char>>,
    request: RequestModel,
    best: Option<Seq<u8>>,
)
    requires
        request.method == "mining.submit"@,
    ensures
        match request_step(job, password, request) {
            StepModel::Send(messages) => messages.len() == 1 && is_refusal(
                messages[0],
                reply_id(request, 3),
            ),
            StepModel::CheckTip(submission) => match verdict_of(submission, best) {
                VerdictModel::Stale(reply) => reply == refused(
                    reply_id(request, 3),
                    21,
                    "Stale: tip changed"@,
                ),
                VerdictModel::Accepted(share) => share.reply == granted(reply_id(request, 3)),
            },
            _ => false,
        },
{
    submit_is_its_own_method();
}

/// A manager that was just made publishes the first template that it is given.
pub proof fn the_first_template_is_published(
    started: i64,
    manager: JobManager,
    template: BlockTemplate,
    now: i64,
    ex1: Seq<u8>,
    number: u64,
    after: JobManager,
    outcome: RefreshOutcome,
)
    requires
        manager.current_job is None,
        manager.last_publish == started - INITIAL_AGE_NS,
        now >= started,
        manager.refreshes_to(template, now, ex1, number, after, outcome),
    ensures
        outcome is Published,
        after.job() == Some(job_of(template, ex1, number)),
{
}

/// Once a template is published, taking it in again publishes nothing and keeps the job.
pub proof fn a_template_is_published_once(
    before: JobManager,
    template: BlockTemplate,
    first: i64,
    ex1: Seq<u8>,
    number: u64,
    middle: JobManager,
    outcome: RefreshOutcome,
    second: i64,
    other_ex1: Seq<u8>,
    other_number: u64,
    after: JobManager,
    other_outcome: RefreshOutcome,
)
    requires
        before.refreshes_to(template, first, ex1, number, middle, outcome),
        outcome is Published,
        middle.refreshes_to(template, second, other_ex1, other_number, after, other_outcome),
    ensures
        other_outcome !is Published,
        after.current_job == middle.current_job,
{
    assert((middle.current_job->0)@ == job_of(template, ex1, number));
    assert((middle.current_job->0)@.txs_hex.len() == template.transactions@.len());
}

/// After a publication the next refresh is throttled exactly until the publication gap is over.
pub proof fn refreshes_keep_their_distance(
    before: JobManager,
    template: BlockTemplate,
    first: i64,
    ex1: Seq<u8>,
    number: u64,
    middle: JobManager,
    outcome: RefreshOutcome,
    other_template: BlockTemplate,
    second: i64,
    other_ex1: Seq<u8>,
    other_number: u64,
    after: JobManager,
    other_outcome: RefreshOutcome,
)
    requires
        before.refreshes_to(template, first, ex1, number, middle, outcome),
        outcome is Published,
        middle.refreshes_to(
            other_template,
            second,
            other_ex1,
            other_number,
            after,
            other_outcome,
        ),
    ensures
        other_outcome !is Throttled <==> second - first >= PUBLISH_GAP_NS,
        other_outcome is Throttled ==> after == middle,
{
}

/// Only a publication holds the next refresh back: one that publishes nothing changes nothing,
/// and whether the next is throttled depends on the last publication alone. A template on a
/// block other than the current job's is published unless it is throttled.
pub proof fn only_a_publication_holds_back(
    before: JobManager,
    template: BlockTemplate,
    first: i64,
    ex1: Seq<u8>,
    number: u64,
    middle: JobManager,
    outcome: RefreshOutcome,
    other_template: BlockTemplate,
    second: i64,
    other_ex1: Seq<u8>,
    other_number: u64,
    after: JobManager,
    other_outcome: RefreshOutcome,
)
    requires
        before.refreshes_to(template, first, ex1, number, middle, outcome),
        outcome !is Published,
        middle.refreshes_to(
            other_template,
            second,
            other_ex1,
            other_number,
            after,
            other_outcome,
        ),
    ensures
        middle == before,
        other_outcome is Throttled <==> second - before.last_publish < PUBLISH_GAP_NS,
        ({
            let tip = block_hash_text(other_template.previous_block_hash@);
            other_outcome !is Throttled && (before.job() matches Some(job) ==> job.prevhash_be
                != tip) ==> {
                &&& other_outcome is Published
                &&& after.job() == Some(job_of(other_template, other_ex1, other_number))
                &&& (after.job()->0).prevhash_be == tip
                &&& after.last_publish == second
            }
        }),
{
}

/// Whether the current job, if there is one, is that of some template.
pub open spec fn holds_a_templates_job(manager: JobManager) -> bool {
    manager.job() matches Some(job) ==> exists|template: BlockTemplate, ex1: [u8; 4], number: u64|
        job == #[trigger] job_of(template, ex1@, number)
}

/// The current job is always that of some template: so it is while there is none, and every
/// refresh keeps it so. Once there is a current job there always is one.
pub proof fn every_job_is_a_templates(
    before: JobManager,
    template: BlockTemplate,
    now: i64,
    ex1: [u8; 4],
    number: u64,
    after: JobManager,
    outcome: RefreshOutcome,
)
    requires
        before.refreshes_to(template, now, ex1@, number, after, outcome),
    ensures
        before.current_job is None ==> holds_a_templates_job(before),
        holds_a_templates_job(before) ==> holds_a_templates_job(after),
        before.current_job is Some ==> after.current_job is Some,
        outcome !is Published ==> after == before,
{
    if outcome is Published {
        assert(after.job() == Some(job_of(template, ex1@, number)));
    } else {
        assert(after.job() == before.job());
    }
}

/// A miner that subscribes is sent the very message that was broadcast when the current job was
/// published.
pub proof fn a_subscriber_gets_the_broadcast_job(
    before: JobManager,
    template: BlockTemplate,
    now: i64,
    ex1: Seq<u8>,
    number: u64,
    after: JobManager,
    outcome: RefreshOutcome,
    password: Option<Seq<char>>,
    request: RequestModel,
)
    requires
        before.refreshes_to(template, now, ex1, number, after, outcome),
        outcome is Published,
        request.method == "mining.subscribe"@,
    ensures
        ({
            let step = request_step(after.job(), password, request);
            &&& step is Send
            &&& step->Send_0.len() == 3
            &&& json_rendered(step->Send_0[2]) == outcome->notify@
        }),
{
}

/// Whether `message` is a response under `id`.
pub open spec fn responds_to(message: JsonModel, id: JsonModel) -> bool {
    exists|result: JsonModel, error: JsonModel|
        message == #[trigger] response_model(id, result, error)
}

/// What the pool first sends to a request, or sends once the share is judged, is a response
/// under the request's own id.
pub proof fn a_response_carries_the_id(
    job: Option<JobModel>,
    password: Option<Seq<char>>,
    request: RequestModel,
    best: Option<Seq<u8>>,
)
    requires
        request.id is Some,
    ensures
        match request_step(job, password, request) {
            StepModel::Send(messages) => messages.len() > 0 && responds_to(
                messages[0],
                request.id->0,
            ),
            StepModel::CheckTip(submission) => match verdict_of(submission, best) {
                VerdictModel::Stale(reply) => responds_to(reply, request.id->0),
                VerdictModel::Accepted(share) => responds_to(share.reply, request.id->0),
            },
            StepModel::Close => job is None,
            _ => false,
        },
{
}

/// The number that a reply to a request of `method` carries where the request has no id.
pub open spec fn default_id(method: Seq<char>) -> int {
    if method == "mining.subscribe"@ {
        1
    } else if method == "mining.authorize"@ {
        2
    } else if method == "mining.submit"@ {
        3
    } else if method == "mining.extranonce.subscribe"@ {
        4
    } else {
        0
    }
}

/// The reply to a request without an id carries a number that depends on the method alone.
pub proof fn a_response_without_an_id_carries_a_number(
    job: Option<JobModel>,
    password: Option<Seq<char>>,
    request: RequestModel,
    best: Option<Seq<u8>>,
)
    requires
        request.id is None,
    ensures
        ({
            let id = JsonModel::Number(decimal(default_id(request.method)));
            match request_step(job, password, request) {
                StepModel::Send(messages) => messages.len() > 0 && responds_to(messages[0], id),
                StepModel::CheckTip(submission) => match verdict_of(submission, best) {
                    VerdictModel::Stale(reply) => responds_to(reply, id),
                    VerdictModel::Accepted(share) => responds_to(share.reply, id),
                },
                StepModel::Close => job is None && request.method == "mining.subscribe"@,
                _ => false,
            }
        }),
{
    submit_is_its_own_method();
}

/// A refusal never grants.
proof fn a_refusal_is_no_grant(id: JsonModel, code: int, message: Seq<char>, other: JsonModel)
    ensures
        refused(id, code, message) != granted(other),
{
    reveal_strlit("result");
    reveal_strlit("error");
    assert("result"@.len() == 6);
    assert("error"@.len() == 5);
    if refused(id, code, message) == granted(other) {
        let members = granted(other)->Object_0;
        assert(members["result"@] == JsonModel::Bool(true));
        assert((refused(id, code, message)->Object_0)["result"@] == JsonModel::Bool(false));
    }
}

/// Where a miner password is set, a miner that does not give it is refused and never granted;
/// one that gives it is granted. Where none is set, every miner is granted.
pub proof fn a_miner_is_granted_for_the_password(
    job: Option<JobModel>,
    password: Option<Seq<char>>,
    request: RequestModel,
    other_id: JsonModel,
)
    requires
        request.method == "mining.authorize"@,
    ensures
        ({
            let id = reply_id(request, 2);
            let step = request_step(job, password, request);
            if password matches Some(password) && !gives_password(request, password) {
                &&& step == StepModel::Send(seq![refused(id, 24, "Unauthorized worker"@)])
                &&& step->Send_0[0] != granted(other_id)
            } else {
                step == StepModel::Send(seq![granted(id)])
            }
        }),
{
    reveal_strlit("mining.subscribe");
    reveal_strlit("mining.authorize");
    assert("mining.subscribe"@[7] == 's');
    assert("mining.authorize"@[7] == 'a');
    a_refusal_is_no_grant(reply_id(request, 2), 24, "Unauthorized worker"@, other_id);
}

/// Where a miner password is set, a share of a miner that is not authorized is refused, whatever
/// it holds, and never granted.
pub proof fn an_unauthorized_share_is_refused(
    standing: Standing,
    job: Option<JobModel>,
    password: Option<Seq<char>>,
    request: RequestModel,
    other_id: JsonModel,
)
    requires
        password is Some,
        standing != Standing::Authorized,
        request.method == "mining.submit"@,
    ensures
        ({
            let step = session_step(standing, job, password, request);
            &&& step == StepModel::Send(
                seq![refused(reply_id(request, 3), 24, "Unauthorized worker"@)],
            )
            &&& step->Send_0[0] != granted(other_id)
        }),
{
    a_refusal_is_no_grant(reply_id(request, 3), 24, "Unauthorized worker"@, other_id);
}

/// Where a miner password is set, a miner is authorized exactly if the last request in which it
/// asked to be gave the password.
pub proof fn authorization_takes_the_password(password: Seq<char>, requests: Seq<RequestModel>)
    ensures
        standing_over(Some(password), requests) == Standing::Authorized <==> exists|i: int|
            #![trigger requests[i]]
            {
                &&& 0 <= i < requests.len()
                &&& requests[i].method == "mining.authorize"@
                &&& gives_password(requests[i], password)
                &&& forall|j: int|
                    i < j < requests.len() ==> (#[trigger] requests[j]).method
                        != "mining.authorize"@
            },
    decreases requests.len(),
{
    if requests.len() > 0 {
        let before = requests.drop_last();
        let last = requests.len() - 1;
        authorization_takes_the_password(password, before);
        assert forall|j: int| 0 <= j < last implies before[j] == #[trigger] requests[j] by {}
        if requests[last].method == "mining.authorize"@ {
            assert(requests.last() == requests[last]);
        } else if standing_over(Some(password), before) == Standing::Authorized {
            let i = choose|i: int|
                #![trigger before[i]]
                {
                    &&& 0 <= i < before.len()
                    &&& before[i].method == "mining.authorize"@
                    &&& gives_password(before[i], password)
                    &&& forall|j: int|
                        i < j < before.len() ==> (#[trigger] before[j]).method
                            != "mining.authorize"@
                };
            assert(requests[i] == before[i]);
            assert forall|j: int| i < j < requests.len() implies (#[trigger] requests[j]).method
                != "mining.authorize"@ by {
                if j < last {
                    assert(before[j] == requests[j]);
                }
            }
        } else {
            assert forall|i: int|
                #![trigger requests[i]]
                0 <= i < requests.len() && requests[i].method == "mining.authorize"@
                    && gives_password(requests[i], password) implies exists|j: int|
                i < j < requests.len() && (#[trigger] requests[j]).method == "mining.authorize"@ by {
                assert(before[i] == requests[i]);
                let j = choose|j: int|
                    i < j < before.len() && (#[trigger] before[j]).method == "mining.authorize"@;
                assert(requests[j] == before[j]);
            }
        }
    }
}

/// Where a miner password is set, no share is granted in a session in which no request gave it.
pub proof fn no_share_without_the_password(
    password: Seq<char>,
    requests: Seq<RequestModel>,
    job: Option<JobModel>,
    request: RequestModel,
    other_id: JsonModel,
)
    requires
        forall|i: int|
            0 <= i < requests.len() && (#[trigger] requests[i]).method == "mining.authorize"@
                ==> !gives_password(requests[i], password),
        request.method == "mining.submit"@,
    ensures
        ({
            let standing = standing_over(Some(password), requests);
            let step = session_step(standing, job, Some(password), request);
            &&& step == StepModel::Send(
                seq![refused(reply_id(request, 3), 24, "Unauthorized worker"@)],
            )
            &&& step->Send_0[0] != granted(other_id)
        }),
{
    let standing = standing_over(Some(password), requests);
    authorization_takes_the_password(password, requests);
    an_unauthorized_share_is_refused(standing, job, Some(password), request, other_id);
}

/// Where a miner password is set, a miner that was refused gets no subscription.
pub proof fn a_refused_miner_gets_no_subscription(
    job: Option<JobModel>,
    password: Option<Seq<char>>,
    request: RequestModel,
)
    requires
        password is Some,
        request.method == "mining.subscribe"@,
    ensures
        session_step(Standing::Refused, job, password, request) == StepModel::Send(
            seq![refused(reply_id(request, 1), 24, "Unauthorized worker"@)],
        ),
{
    submit_is_its_own_method();
}

/// Without a miner password, and for an authorized miner, every request is answered as if there
/// were no standing. So is every request but a share of a miner that has not asked yet.
pub proof fn standing_matters_only_with_a_password(
    standing: Standing,
    job: Option<JobModel>,
    password: Option<Seq<char>>,
    request: RequestModel,
)
    requires
        password is None || standing == Standing::Authorized || (standing == Standing::Unasked
            && request.method != "mining.submit"@),
    ensures
        session_step(standing, job, password, request) == request_step(job, password, request),
{
}

proof fn hex_digit_is_injective(a: int, b: int)
    requires
        0 <= a < 16,
        0 <= b < 16,
        hex_digit(a) == hex_digit(b),
    ensures
        a == b,
{
}

/// Different numbers are written differently.
pub proof fn digits_are_injective(n: nat, m: nat)
    requires
        digits(n, 16) == digits(m, 16),
    ensures
        n == m,
    decreases n,
{
    let a = digits(n, 16);
    let b = digits(m, 16);
    digits_are_not_empty(n);
    digits_are_not_empty(m);
    if n >= 16 && m >= 16 {
        assert(a.drop_last() =~= digits(n / 16, 16));
        assert(b.drop_last() =~= digits(m / 16, 16));
        digits_are_injective(n / 16, m / 16);
        assert(a.last() == hex_digit((n % 16) as int));
        assert(b.last() == hex_digit((m % 16) as int));
        hex_digit_is_injective((n % 16) as int, (m % 16) as int);
    } else if n < 16 && m < 16 {
        assert(a[0] == hex_digit(n as int));
        assert(b[0] == hex_digit(m as int));
        hex_digit_is_injective(n as int, m as int);
    } else if n < 16 {
        digits_are_not_empty(m / 16);
        assert(a.len() == 1 && b.len() >= 2);
    } else {
        digits_are_not_empty(n / 16);
        assert(b.len() == 1 && a.len() >= 2);
    }
}

proof fn digits_are_not_empty(n: nat)
    ensures
        digits(n, 16).len() > 0,
{
}

/// A share that names the job of another number is refused as stale.
pub proof fn a_share_for_another_job_is_stale(
    template: BlockTemplate,
    ex1: Seq<u8>,
    number: u64,
    other_number: u64,
    password: Option<Seq<char>>,
    request: RequestModel,
)
    requires
        number != other_number,
        request.method == "mining.submit"@,
        param(request, 1, Seq::empty()) == digits(other_number as nat, 16),
    ensures
        request_step(Some(job_of(template, ex1, number)), password, request) == StepModel::Send(
            seq![refused(reply_id(request, 3), 21, "Stale job"@)],
        ),
{
    submit_is_its_own_method();
    if digits(number as nat, 16) == digits(other_number as nat, 16) {
        digits_are_injective(number as nat, other_number as nat);
    }
}

/// The Merkle root of two leaves is the digest of both together.
pub proof fn the_root_of_two(a: Seq<u8>, b: Seq<u8>)
    ensures
        merkle_root(seq![a, b]) == sha256d_digest(a + b),
{
    let layer = parents(seq![a, b]);
    assert(layer.len() == 1);
    assert(layer[0] == sha256d_digest(a + b));
    reveal_with_fuel(merkle_root, 2);
}

/// An odd number of leaves, more than one, has the Merkle root of the same leaves with the last
/// one repeated.
pub proof fn an_odd_layer_repeats_its_last(leaves: Seq<Seq<u8>>)
    requires
        leaves.len() > 1,
        leaves.len() % 2 == 1,
    ensures
        merkle_root(leaves) == merkle_root(leaves.push(leaves.last())),
{
    assert(parents(leaves) =~= parents(leaves.push(leaves.last())));
}

} // verus!

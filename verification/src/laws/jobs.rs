//! What a job says of its template, when it is published, and which block it gives.
use super::messages::{
    is_notify, members, miners_are_told_the_whole_job, the_web_page_is_told_of_the_job,
};
use super::numbers::{digits_spell_their_number, number_in};
use super::{block_hash_round_trip, block_hash_text_is_injective, fixed_hex_round_trip};
use crate::chain::{block_hash_of, transaction_id};
use crate::job::{
    block_of, decode_all, first_failure_stays, job_of, notify_model, sse_model, BlockTemplate,
    JobManager, RefreshOutcome, SubmitError,
};
use crate::json::{json_rendered, JsonModel};
use crate::text::{hex_bytes, hex_round_trip, hex_text, hex_u32};
use vstd::prelude::*;

verus! {

/// A job says what its template says: its texts are read back as the template's block, version,
/// target and time, as the pool's extra nonce, as the witness commitment where there is one, and
/// as every one of the template's transactions, in order. Height and time are cut to thirty-two
/// bits, which changes none that fits.
pub proof fn a_job_is_read_back_as_its_template(
    template: BlockTemplate,
    ex1: Seq<u8>,
    number: u64,
    i: int,
)
    ensures
        ({
            let job = job_of(template, ex1, number);
            let time = template.current_time as int % 0x1_0000_0000;
            let commitment = template.default_witness_commitment@;
            &&& number_in(job.job_id, 16) == number
            &&& job.job_id.len() > 1 ==> job.job_id[0] != '0'
            &&& job.prevhash == job.prevhash_be
            &&& block_hash_of(job.prevhash_be) == Some(template.previous_block_hash@)
            &&& job.merkle_branch.len() == 0
            &&& job.version.len() == 8
            &&& hex_u32(job.version) == Some(template.version)
            &&& hex_bytes(job.nbits) == Some(template.bits@)
            &&& job.ntime.len() == 8
            &&& hex_u32(job.ntime) is Some
            &&& hex_u32(job.ntime)->0 == time
            &&& job.clean_jobs
            &&& job.coinbase_value == template.coinbase_value
            &&& job.extranonce1.len() == 0
            &&& job.coinbasetxn_hex.len() == 0
            &&& job.witness_commitment is Some <==> commitment.len() > 0
            &&& commitment.len() > 0 ==> hex_bytes(job.witness_commitment->0) == Some(commitment)
            &&& job.ex1_len == 4
            &&& job.ex2_len == 4
            &&& hex_bytes(job.ex1_hex) == Some(ex1)
            &&& job.txs_hex.len() == template.transactions@.len()
            &&& 0 <= i < job.txs_hex.len() ==> {
                &&& job.txs_hex[i] == hex_text(template.transactions@[i]@)
                &&& hex_bytes(job.txs_hex[i]) == Some(template.transactions@[i]@)
            }
        }),
        template.height <= u32::MAX ==> template.height_u32() == template.height,
        template.current_time <= u32::MAX ==> template.time_u32() == template.current_time,
{
    digits_spell_their_number(number as nat, 16);
    block_hash_round_trip(template.previous_block_hash@);
    fixed_hex_round_trip(template.version);
    fixed_hex_round_trip(template.time_u32());
    hex_round_trip(template.bits@);
    hex_round_trip(template.default_witness_commitment@);
    hex_round_trip(ex1);
    if 0 <= i < template.transactions@.len() {
        hex_round_trip(template.transactions@[i]@);
    }
}

/// Whether a refresh publishes the job of `template` at `now`: it becomes the current job, and
/// the web page and the miners are told of it.
pub open spec fn publishes(
    template: BlockTemplate,
    ex1: Seq<u8>,
    number: u64,
    now: i64,
    after: JobManager,
    outcome: RefreshOutcome,
) -> bool {
    &&& outcome is Published
    &&& after.current_job is Some
    &&& (after.current_job->0)@ == job_of(template, ex1, number)
    &&& after.last_publish == now
    &&& exists|sse: JsonModel, notify: JsonModel|
        {
            &&& outcome->sse@ == #[trigger] json_rendered(sse)
            &&& outcome->notify@ == #[trigger] json_rendered(notify)
            &&& sse is Object
            &&& members(sse)["type"@] == JsonModel::Text("job"@)
            &&& members(sse)["prevhash"@] == JsonModel::Text(job_of(template, ex1, number).prevhash)
            &&& members(sse)["job_id"@] == JsonModel::Text(job_of(template, ex1, number).job_id)
            &&& is_notify(notify, job_of(template, ex1, number))
        }
}

/// A refresh less than two hundred milliseconds after the last publication does nothing. Any
/// other publishes a template that builds on another block than the current job or has another
/// number of transactions, and the first template; one on the same block with as many
/// transactions changes nothing.
pub proof fn a_changed_template_is_published(
    before: JobManager,
    current: BlockTemplate,
    current_ex1: Seq<u8>,
    current_number: u64,
    template: BlockTemplate,
    now: i64,
    ex1: Seq<u8>,
    number: u64,
    after: JobManager,
    outcome: RefreshOutcome,
)
    requires
        before.refreshes_to(template, now, ex1, number, after, outcome),
        before.current_job is Some ==> (before.current_job->0)@ == job_of(
            current,
            current_ex1,
            current_number,
        ),
    ensures
        ({
            let same = before.current_job is Some && current.previous_block_hash@
                == template.previous_block_hash@ && current.transactions@.len()
                == template.transactions@.len();
            &&& now - before.last_publish < 200_000_000 ==> outcome is Throttled && after == before
            &&& now - before.last_publish >= 200_000_000 && same ==> outcome is Unchanged && after
                == before
            &&& now - before.last_publish >= 200_000_000 && !same ==> publishes(
                template,
                ex1,
                number,
                now,
                after,
                outcome,
            )
        }),
{
    let job = job_of(template, ex1, number);
    if before.current_job is Some {
        let held = (before.current_job->0)@;
        assert(held.txs_hex.len() == (before.current_job->0).txs_hex@.len());
        assert(held.prevhash_be == (before.current_job->0).prevhash_be@);
        if before.is_repeated_by(template) {
            block_hash_text_is_injective(
                current.previous_block_hash@,
                template.previous_block_hash@,
            );
        }
    }
    if outcome is Published {
        miners_are_told_the_whole_job(job);
        the_web_page_is_told_of_the_job(job);
        assert(outcome->sse@ == json_rendered(sse_model(job)));
        assert(outcome->notify@ == json_rendered(notify_model(job)));
    }
}

/// Whether `text` spells a transaction.
pub open spec fn spells_a_transaction(text: Seq<char>) -> bool {
    hex_bytes(text) is Some && transaction_id(hex_bytes(text)->0) is Some
}

proof fn decoding_is_text_by_text(hexes: Seq<Seq<char>>)
    ensures
        decode_all(hexes) is Ok <==> (forall|i: int|
            0 <= i < hexes.len() ==> spells_a_transaction(#[trigger] hexes[i])),
        decode_all(hexes) is Ok ==> {
            &&& decode_all(hexes)->Ok_0.len() == hexes.len()
            &&& forall|i: int|
                0 <= i < hexes.len() ==> Some(#[trigger] decode_all(hexes)->Ok_0[i]) == hex_bytes(
                    hexes[i],
                )
        },
    decreases hexes.len(),
{
    if hexes.len() > 0 {
        let before = hexes.drop_last();
        let last = hexes.len() - 1;
        decoding_is_text_by_text(before);
        assert forall|i: int| 0 <= i < last implies before[i] == #[trigger] hexes[i] by {}
        if decode_all(hexes) is Ok {
            assert(decode_all(before) is Ok);
            assert forall|i: int| 0 <= i < hexes.len() implies spells_a_transaction(
                #[trigger] hexes[i],
            ) by {
                if i < last {
                    assert(spells_a_transaction(before[i]));
                }
            }
            assert forall|i: int| 0 <= i < hexes.len() implies Some(
                #[trigger] decode_all(hexes)->Ok_0[i],
            ) == hex_bytes(hexes[i]) by {
                if i < last {
                    assert(decode_all(hexes)->Ok_0[i] == decode_all(before)->Ok_0[i]);
                    assert(before[i] == hexes[i]);
                }
            }
        } else if forall|i: int| 0 <= i < hexes.len() ==> spells_a_transaction(#[trigger] hexes[i]) {
            assert forall|i: int| 0 <= i < before.len() implies spells_a_transaction(
                #[trigger] before[i],
            ) by {
                assert(spells_a_transaction(hexes[i]));
            }
            assert(spells_a_transaction(hexes[last]));
        }
    }
}

/// A block is put together exactly if the header has eighty bytes, the coinbase is a transaction
/// and every text spells one. It holds the header, the coinbase, and what each text spells, in
/// order. Of what is wrong the first thing is named: the header, the coinbase, then the first
/// text that spells no bytes, or bytes that are no transaction.
pub proof fn a_block_holds_what_it_is_given(
    header: Seq<u8>,
    coinbase: Seq<u8>,
    hexes: Seq<Seq<char>>,
    bad: int,
)
    ensures
        ({
            let block = block_of(header, coinbase, hexes);
            let sound = header.len() == 80 && transaction_id(coinbase) is Some;
            &&& block is Ok <==> sound && forall|i: int|
                0 <= i < hexes.len() ==> spells_a_transaction(#[trigger] hexes[i])
            &&& block is Ok ==> {
                &&& block->Ok_0.0 == header
                &&& block->Ok_0.1.len() == 1 + hexes.len()
                &&& block->Ok_0.1[0] == coinbase
                &&& forall|i: int|
                    0 <= i < hexes.len() ==> Some(block->Ok_0.1[1 + i]) == hex_bytes(
                        #[trigger] hexes[i],
                    )
            }
            &&& header.len() != 80 ==> block is Err && block->Err_0 == SubmitError::Header
            &&& header.len() == 80 && transaction_id(coinbase) is None ==> block is Err
                && block->Err_0 == SubmitError::Coinbase
            &&& sound && 0 <= bad < hexes.len() && !spells_a_transaction(hexes[bad]) && (forall|i: int|
                0 <= i < bad ==> spells_a_transaction(#[trigger] hexes[i])) ==> block is Err
                && block->Err_0 == (if hex_bytes(hexes[bad]) is None {
                SubmitError::TransactionHex
            } else {
                SubmitError::Transaction
            })
        }),
{
    decoding_is_text_by_text(hexes);
    let block = block_of(header, coinbase, hexes);
    if block is Ok {
        let others = decode_all(hexes)->Ok_0;
        assert forall|i: int| 0 <= i < hexes.len() implies Some(block->Ok_0.1[1 + i]) == hex_bytes(
            #[trigger] hexes[i],
        ) by {
            assert(block->Ok_0.1[1 + i] == others[i]);
        }
    }
    if 0 <= bad < hexes.len() && !spells_a_transaction(hexes[bad]) && forall|i: int|
        0 <= i < bad ==> spells_a_transaction(#[trigger] hexes[i]) {
        let upto = hexes.take(bad + 1);
        let before = hexes.take(bad);
        decoding_is_text_by_text(before);
        assert forall|i: int| 0 <= i < before.len() implies spells_a_transaction(
            #[trigger] before[i],
        ) by {
            assert(spells_a_transaction(hexes[i]));
        }
        assert(upto.drop_last() =~= before);
        assert(upto.last() == hexes[bad]);
        first_failure_stays(hexes, bad + 1);
    }
}

} // verus!

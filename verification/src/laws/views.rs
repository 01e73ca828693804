//! What the models keep of the values that they stand for: all of it.
use crate::chain::BlockHeader;
use crate::job::{byte_views, texts, JobManager, StratumJob};
use crate::json::{json_model, json_models};
use crate::merkle::digest_views;
use crate::storage::Worker;
use crate::stratum::{
    optional_texts, AcceptedShare, BlockRecord, Request, Step, Submission, Verdict,
};
use crate::web::{row_views, BlockRow};
use serde_json::Value;
use vstd::prelude::*;

verus! {

/// The model of a list has an entry for each, in order.
pub proof fn lists_keep_every_entry(
    strings: Seq<String>,
    optional: Seq<Option<String>>,
    buffers: Seq<Vec<u8>>,
    digests: Seq<[u8; 32]>,
    values: Seq<Value>,
    rows: Seq<BlockRow>,
    i: int,
)
    ensures
        texts(strings).len() == strings.len(),
        0 <= i < strings.len() ==> texts(strings)[i] == strings[i]@,
        optional_texts(optional).len() == optional.len(),
        0 <= i < optional.len() && optional[i] is Some ==> optional_texts(optional)[i] == Some(
            (optional[i]->0)@,
        ),
        0 <= i < optional.len() && optional[i] is None ==> optional_texts(optional)[i] is None,
        byte_views(buffers).len() == buffers.len(),
        0 <= i < buffers.len() ==> byte_views(buffers)[i] == buffers[i]@,
        digest_views(digests).len() == digests.len(),
        0 <= i < digests.len() ==> digest_views(digests)[i] == digests[i]@,
        json_models(values).len() == values.len(),
        0 <= i < values.len() ==> json_models(values)[i] == json_model(values[i]),
        row_views(rows).len() == rows.len(),
        0 <= i < rows.len() ==> row_views(rows)[i] == rows[i]@,
{
}

/// The model of a job keeps every field.
pub proof fn a_jobs_model_is_whole(job: StratumJob, manager: JobManager)
    ensures
        job@.job_id == job.job_id@,
        job@.prevhash == job.prevhash@,
        job@.prevhash_be == job.prevhash_be@,
        job@.coinbase1 == job.coinbase1@,
        job@.coinbase2 == job.coinbase2@,
        job@.merkle_branch == texts(job.merkle_branch@),
        job@.version == job.version@,
        job@.nbits == job.nbits@,
        job@.ntime == job.ntime@,
        job@.clean_jobs == job.clean_jobs,
        job@.coinbase_value == job.coinbase_value,
        job@.extranonce1 == job.extranonce1@,
        job.witness_commitment is Some ==> job@.witness_commitment == Some(
            (job.witness_commitment->0)@,
        ),
        job.witness_commitment is None ==> job@.witness_commitment is None,
        job@.coinbasetxn_hex == job.coinbasetxn_hex@,
        job@.txs_hex == texts(job.txs_hex@),
        job@.ex1_len == job.ex1_len,
        job@.ex2_len == job.ex2_len,
        job@.ex1_hex == job.ex1_hex@,
        manager.current_job is Some ==> manager.job() == Some((manager.current_job->0)@),
        manager.current_job is None ==> manager.job() is None,
{
}

/// The models of a header, a request and a submission keep every field.
pub proof fn a_shares_model_is_whole(header: BlockHeader, request: Request, submission: Submission)
    ensures
        header@.version == header.version,
        header@.prev_blockhash == header.prev_blockhash@,
        header@.merkle_root == header.merkle_root@,
        header@.time == header.time,
        header@.bits == header.bits,
        header@.nonce == header.nonce,
        request.id is Some ==> request@.id == Some(json_model(request.id->0)),
        request.id is None ==> request@.id is None,
        request@.method == request.method@,
        request@.params == optional_texts(request.params@),
        submission@.id == json_model(submission.id),
        submission@.worker == submission.worker@,
        submission@.job == submission.job@,
        submission@.coinbase == submission.coinbase@,
        submission@.header == submission.header@,
{
}

/// The models of a step, a verdict, an accepted share and a record keep every field.
pub proof fn a_decisions_model_is_whole(
    step: Step,
    verdict: Verdict,
    share: AcceptedShare,
    record: BlockRecord,
)
    ensures
        step is Ignore <==> step@ is Ignore,
        step is Complain <==> step@ is Complain,
        step is Send <==> step@ is Send,
        step is Close <==> step@ is Close,
        step is CheckTip <==> step@ is CheckTip,
        step is Complain ==> step@->Complain_0 == json_model(step->Complain_0),
        step is Send ==> step@->Send_0 == json_models(step->Send_0@),
        step is CheckTip ==> step@->CheckTip_0 == step->CheckTip_0@,
        verdict is Stale <==> verdict@ is Stale,
        verdict is Stale ==> verdict@->Stale_0 == json_model(verdict->Stale_0),
        verdict is Accepted ==> verdict@->Accepted_0 == verdict->Accepted_0@,
        share@.worker == share.worker@,
        share@.reply == json_model(share.reply),
        share@.header == share.header@,
        share@.coinbase == share.coinbase@,
        share@.job == share.job@,
        share@.meets_block == share.meets_block,
        record@.height == record.height,
        record@.hash == record.hash@,
        record@.status == record.status@,
        record.credited is Some ==> record@.credited == Some((record.credited->0)@),
        record.credited is None ==> record@.credited is None,
{
}

/// The models of a worker and of a block's row keep every field.
pub proof fn a_pages_model_is_whole(worker: Worker, row: BlockRow)
    ensures
        worker@.id == worker.id,
        worker@.name == worker.name@,
        worker@.authorized == worker.authorized,
        worker.last_seen is Some ==> worker@.last_seen == Some(
            ((worker.last_seen->0).secs, (worker.last_seen->0).nanos),
        ),
        worker.last_seen is None ==> worker@.last_seen is None,
        row@.height == row.height@,
        row@.hash == row.hash@,
        row@.status == row.status@,
        row@.timestamp == row.timestamp@,
{
}

} // verus!

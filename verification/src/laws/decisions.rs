//! What the pool's decisions are, stated of the functions that make them.
use super::jobs::{
    a_block_holds_what_it_is_given, a_changed_template_is_published,
    a_job_is_read_back_as_its_template, publishes, spells_a_transaction,
};
use super::layout::{a_jobs_coinbase_is_the_templates, is_coinbase};
use super::messages::{
    a_message_ends_its_line, a_notification_has_its_members, a_response_has_its_members,
    an_error_has_its_members, is_error, is_granting, is_notification, is_notify, is_refusing,
    is_response, members, metrics_carry_every_bucket, miners_are_told_the_whole_job,
    the_web_page_is_told_of_the_job,
};
use super::numbers::number_in;
use super::records::{
    a_row_shows_its_block, a_worker_is_its_row, only_mainnet_needs_an_address,
    the_environment_decides,
};
use super::replies::{
    a_line_is_answered_as_its_request, a_miner_stands_by_its_last_answer,
    a_request_is_what_the_message_says, a_share_is_checked_in_turn, a_share_is_judged_by_the_tip,
    a_solved_block_is_recorded, a_subscriber_is_sent_three_messages, id_of,
    only_shares_and_subscriptions_are_barred, other_requests_are_answered, reads_as, text_at,
};
use crate::chain::{block_hash_of, block_hash_text, transaction_id, BlockHeader};
use crate::config::{
    after_failure, check_payout, configure, env_or, ConfigError, Environment, Retry, Settings,
};
use crate::job::{
    byte_views, job_of, make_job, notify_message, sse_message, BlockParts, BlockTemplate,
    JobManager, RefreshOutcome, StratumJob, SubmitError,
};
use crate::json::{
    error_value, frame, json_model, json_models, json_parsed, json_rendered, notification, response,
    JsonModel,
};
use crate::merkle::{merkle_root, sha256d_digest};
use crate::session::{
    admits, handle_session_line, handle_session_request, next_standing, session_step,
    standing_after, Standing,
};
use crate::storage::{
    bucket_cutoff, flag_column, format_rfc3339, rate_cutoff, share_entry, utc_parsed, window_cutoff,
    worker_from_row, worker_seen_at, ShareEntry, UtcTime, Worker,
};
use crate::stratum::{
    build_header, forward, handle_line, handle_request, job_view, judge_submission, known_ids,
    line_request, read_request, record_block, request_of, request_step, text_view, AcceptedShare,
    BlockOutcome, BlockRecord, Request, Step, Submission, Verdict,
};
use crate::text::{blank, decimal, hex_bytes, hex_text, hex_u32, same_text};
use crate::web::{
    block_row, blocks, dashboard, metrics_message, metrics_spans, workers, BlockRow, BlocksTemplate,
    DashboardTemplate, StoredBlock, WorkersTemplate,
};
use serde_json::Value;
use vstd::prelude::*;

verus! {

/// A job that is made of a template is read back as that template, and its coinbase is one of
/// the template's height and value.
pub proof fn a_made_job_is_the_templates(
    template: &BlockTemplate,
    ex1: &[u8; 4],
    number: u64,
    job: StratumJob,
    ex2: Seq<u8>,
    i: int,
)
    requires
        call_ensures(make_job, (template, ex1, number), job),
        ex2.len() == 4,
    ensures
        ({
            let spelled = hex_bytes(job.coinbase1@ + hex_text(ex2) + job.coinbase2@);
            let height = template.height as int % 0x1_0000_0000;
            let commitment = template.default_witness_commitment@;
            &&& number_in(job.job_id@, 16) == number
            &&& job.prevhash@ == job.prevhash_be@
            &&& block_hash_of(job.prevhash_be@) == Some(template.previous_block_hash@)
            &&& spelled is Some
            &&& is_coinbase(spelled->0, height, ex1@, ex2, template.coinbase_value as int)
            &&& template.height <= u32::MAX ==> height == template.height
            &&& job.merkle_branch@.len() == 0
            &&& hex_u32(job.version@) == Some(template.version)
            &&& hex_bytes(job.nbits@) == Some(template.bits@)
            &&& hex_u32(job.ntime@) is Some
            &&& hex_u32(job.ntime@)->0 == template.current_time as int % 0x1_0000_0000
            &&& job.clean_jobs
            &&& job.coinbase_value == template.coinbase_value
            &&& job.extranonce1@.len() == 0
            &&& job.coinbasetxn_hex@.len() == 0
            &&& job.witness_commitment is Some <==> commitment.len() > 0
            &&& commitment.len() > 0 ==> hex_bytes((job.witness_commitment->0)@) == Some(commitment)
            &&& job.ex1_len == 4
            &&& job.ex2_len == 4
            &&& hex_bytes(job.ex1_hex@) == Some(ex1@)
            &&& job.txs_hex@.len() == template.transactions@.len()
            &&& 0 <= i < job.txs_hex@.len() ==> hex_bytes(job.txs_hex@[i]@) == Some(
                template.transactions@[i]@,
            )
        }),
{
    a_job_is_read_back_as_its_template(*template, ex1@, number, i);
    a_jobs_coinbase_is_the_templates(*template, ex1@, number, ex2);
    assert(job@.merkle_branch.len() == job.merkle_branch@.len());
    assert(job@.txs_hex.len() == job.txs_hex@.len());
    if 0 <= i < job.txs_hex@.len() {
        assert(job@.txs_hex[i] == job.txs_hex@[i]@);
    }
}

/// The messages about a job tell miners all of it and the web page its id and block.
pub proof fn the_messages_about_a_job(job: &StratumJob, notify: Value, sse: Value)
    requires
        call_ensures(notify_message, (job,), notify),
        call_ensures(sse_message, (job,), sse),
    ensures
        is_notify(json_model(notify), job@),
        json_model(sse) is Object,
        members(json_model(sse)).dom() == set!["type"@, "prevhash"@, "job_id"@],
        members(json_model(sse))["type"@] == JsonModel::Text("job"@),
        members(json_model(sse))["prevhash"@] == JsonModel::Text(job.prevhash@),
        members(json_model(sse))["job_id"@] == JsonModel::Text(job.job_id@),
{
    miners_are_told_the_whole_job(job@);
    the_web_page_is_told_of_the_job(job@);
}

/// Responses, errors and notifications have the members that they are made of, and a message is
/// framed as one line.
pub proof fn messages_are_made_of_their_members(
    id: Value,
    result: Value,
    error: Value,
    reply: Value,
    code: i64,
    text: &str,
    made: Value,
    method: &str,
    params: Vec<Value>,
    notice: Value,
    line: String,
)
    requires
        call_ensures(response, (id, result, error), reply),
        call_ensures(error_value, (code, text), made),
        call_ensures(notification, (method, params), notice),
        call_ensures(frame, (&reply,), line),
    ensures
        is_response(json_model(reply), json_model(id), json_model(result), json_model(error)),
        is_error(json_model(made), code as int, text@),
        is_notification(json_model(notice), method@, json_models(params@)),
        line@.drop_last() == json_rendered(json_model(reply)),
        line@.last() == '\n',
        forall|i: int| 0 <= i < line@.len() - 1 ==> #[trigger] line@[i] != '\n',
{
    a_response_has_its_members(json_model(id), json_model(result), json_model(error));
    an_error_has_its_members(code as int, text@);
    a_notification_has_its_members(method@, json_models(params@));
    a_message_ends_its_line(json_model(reply));
}

/// A manager starts without a job and as if the last one had been published ten seconds ago, and
/// hands out its current job.
pub proof fn a_manager_starts_empty(now: i64, manager: JobManager, held: JobManager, job: Option<StratumJob>)
    requires
        call_ensures(JobManager::new, (now,), manager),
        call_ensures(JobManager::get_current_job, (&held,), job),
    ensures
        manager.current_job is None,
        now - manager.last_publish == 10 * 1_000_000_000,
        job is Some <==> held.current_job is Some,
        job is Some ==> (job->0)@ == (held.current_job->0)@,
{
}

/// A refresh does nothing less than two hundred milliseconds after the last publication, changes
/// nothing for a template on the same block with as many transactions as the current job, and
/// publishes any other.
pub proof fn refreshes_publish_what_changed(
    current: BlockTemplate,
    current_ex1: Seq<u8>,
    current_number: u64,
    template: &BlockTemplate,
    now: i64,
    ex1: &[u8; 4],
    number: u64,
)
    ensures
        forall|manager: &mut JobManager, outcome: RefreshOutcome|
            (#[trigger] call_ensures(
                JobManager::refresh_job_with,
                (manager, template, now, ex1, number),
                outcome,
            )) && (manager.current_job is Some ==> (manager.current_job->0)@ == job_of(
                current,
                current_ex1,
                current_number,
            )) ==> refreshes_rightly(
                *manager,
                current,
                *template,
                now,
                ex1@,
                number,
                *final(manager),
                outcome,
            ),
        forall|manager: &mut JobManager, outcome: RefreshOutcome|
            (#[trigger] call_ensures(JobManager::refresh_job, (manager, template, now), outcome)) && (
            manager.current_job is Some ==> (manager.current_job->0)@ == job_of(
                current,
                current_ex1,
                current_number,
            )) ==> exists|drawn: [u8; 4], drawn_number: u64|
                #[trigger] refreshes_rightly(
                    *manager,
                    current,
                    *template,
                    now,
                    drawn@,
                    drawn_number,
                    *final(manager),
                    outcome,
                ),
{
    assert forall|manager: &mut JobManager, outcome: RefreshOutcome|
        (#[trigger] call_ensures(
            JobManager::refresh_job_with,
            (manager, template, now, ex1, number),
            outcome,
        )) && (manager.current_job is Some ==> (manager.current_job->0)@ == job_of(
            current,
            current_ex1,
            current_number,
        )) implies refreshes_rightly(
        *manager,
        current,
        *template,
        now,
        ex1@,
        number,
        *final(manager),
        outcome,
    ) by {
        a_changed_template_is_published(
            *manager,
            current,
            current_ex1,
            current_number,
            *template,
            now,
            ex1@,
            number,
            *final(manager),
            outcome,
        );
    }
    assert forall|manager: &mut JobManager, outcome: RefreshOutcome|
        (#[trigger] call_ensures(JobManager::refresh_job, (manager, template, now), outcome)) && (
        manager.current_job is Some ==> (manager.current_job->0)@ == job_of(
            current,
            current_ex1,
            current_number,
        )) implies exists|drawn: [u8; 4], drawn_number: u64|
        #[trigger] refreshes_rightly(
            *manager,
            current,
            *template,
            now,
            drawn@,
            drawn_number,
            *final(manager),
            outcome,
        ) by {
        let (drawn, drawn_number) = choose|drawn: [u8; 4], drawn_number: u64|
            #[trigger] manager.refreshes_to(
                *template,
                now,
                drawn@,
                drawn_number,
                *final(manager),
                outcome,
            );
        a_changed_template_is_published(
            *manager,
            current,
            current_ex1,
            current_number,
            *template,
            now,
            drawn@,
            drawn_number,
            *final(manager),
            outcome,
        );
        assert(refreshes_rightly(
            *manager,
            current,
            *template,
            now,
            drawn@,
            drawn_number,
            *final(manager),
            outcome,
        ));
    }
}

/// Whether a refresh from `before`, whose job, if any, is that of `current`, does what it should.
pub open spec fn refreshes_rightly(
    before: JobManager,
    current: BlockTemplate,
    template: BlockTemplate,
    now: i64,
    ex1: Seq<u8>,
    number: u64,
    after: JobManager,
    outcome: RefreshOutcome,
) -> bool {
    let same = before.current_job is Some && current.previous_block_hash@
        == template.previous_block_hash@ && current.transactions@.len()
        == template.transactions@.len();
    &&& now - before.last_publish < 200_000_000 ==> outcome is Throttled && after == before
    &&& now - before.last_publish >= 200_000_000 && same ==> outcome is Unchanged && after == before
    &&& now - before.last_publish >= 200_000_000 && !same ==> publishes(
        template,
        ex1,
        number,
        now,
        after,
        outcome,
    )
}

/// A block is put together exactly if the header has eighty bytes, the coinbase is a transaction
/// and every text of the job spells one; it then holds all of these in order.
pub proof fn a_submitted_block_is_whole(
    header: Vec<u8>,
    coinbase: Vec<u8>,
    job: &StratumJob,
    block: Result<BlockParts, SubmitError>,
    i: int,
)
    requires
        call_ensures(JobManager::submit_from_header_and_template, (header, coinbase, job), block),
    ensures
        block is Ok <==> header@.len() == 80 && transaction_id(coinbase@) is Some && forall|j: int|
            0 <= j < job.txs_hex@.len() ==> spells_a_transaction(#[trigger] job.txs_hex@[j]@),
        block is Ok ==> {
            let parts = block->Ok_0;
            &&& parts.header@ == header@
            &&& parts.transactions@.len() == 1 + job.txs_hex@.len()
            &&& parts.transactions@[0]@ == coinbase@
            &&& 0 <= i < job.txs_hex@.len() ==> Some(parts.transactions@[1 + i]@) == hex_bytes(
                job.txs_hex@[i]@,
            )
        },
        header@.len() != 80 ==> block == Err::<BlockParts, _>(SubmitError::Header),
        header@.len() == 80 && transaction_id(coinbase@) is None ==> block == Err::<BlockParts, _>(
            SubmitError::Coinbase,
        ),
        header@.len() == 80 && transaction_id(coinbase@) is Some && 0 <= i < job.txs_hex@.len()
            && !spells_a_transaction(job.txs_hex@[i]@) && (forall|j: int|
            0 <= j < i ==> spells_a_transaction(#[trigger] job.txs_hex@[j]@)) ==> block == Err::<
            BlockParts,
            _,
        >(
            if hex_bytes(job.txs_hex@[i]@) is None {
                SubmitError::TransactionHex
            } else {
                SubmitError::Transaction
            },
        ),
{
    let hexes = job@.txs_hex;
    assert(hexes.len() == job.txs_hex@.len());
    a_block_holds_what_it_is_given(header@, coinbase@, hexes, i);
    assert forall|j: int| 0 <= j < hexes.len() implies #[trigger] hexes[j] == job.txs_hex@[j]@ by {}
    if forall|j: int|
        0 <= j < job.txs_hex@.len() ==> spells_a_transaction(#[trigger] job.txs_hex@[j]@) {
        assert forall|j: int| 0 <= j < hexes.len() implies spells_a_transaction(#[trigger] hexes[j]) by {
            assert(spells_a_transaction(job.txs_hex@[j]@));
        }
    }
    if block is Ok {
        assert forall|j: int| 0 <= j < job.txs_hex@.len() implies spells_a_transaction(
            #[trigger] job.txs_hex@[j]@,
        ) by {
            assert(spells_a_transaction(hexes[j]));
        }
        let views = byte_views((block->Ok_0).transactions@);
        assert(views.len() == (block->Ok_0).transactions@.len());
        assert(views[0] == (block->Ok_0).transactions@[0]@);
        if 0 <= i < hexes.len() {
            assert(views[1 + i] == (block->Ok_0).transactions@[1 + i]@);
            assert(Some(views[1 + i]) == hex_bytes(hexes[i]));
        }
    }
    if 0 <= i < job.txs_hex@.len() && forall|j: int|
        0 <= j < i ==> spells_a_transaction(#[trigger] job.txs_hex@[j]@) {
        assert forall|j: int| 0 <= j < i implies spells_a_transaction(#[trigger] hexes[j]) by {
            assert(spells_a_transaction(job.txs_hex@[j]@));
        }
    }
}

/// A message is read as a request: its id, its method, and its parameters, as far as these are
/// of the right kind.
pub proof fn a_message_is_read(message: &Value, request: Request, i: int)
    requires
        call_ensures(read_request, (message,), request),
    ensures
        ({
            let m = members(json_model(*message));
            let whole = json_model(*message) is Object;
            let listed = whole && m.contains_key("params"@) && m["params"@] is Array;
            let list = m["params"@]->Array_0;
            &&& request.id is Some <==> whole && m.contains_key("id"@)
            &&& request.id is Some ==> json_model(request.id->0) == m["id"@]
            &&& whole && m.contains_key("method"@) && m["method"@] is Text ==> JsonModel::Text(
                request.method@,
            ) == m["method"@]
            &&& !(whole && m.contains_key("method"@) && m["method"@] is Text)
                ==> request.method@.len() == 0
            &&& !listed ==> request.params@.len() == 0
            &&& listed ==> request.params@.len() == list.len()
            &&& listed && 0 <= i < list.len() ==> (request.params@[i] is Some <==> list[i] is Text)
            &&& listed && 0 <= i < list.len() && list[i] is Text ==> JsonModel::Text(
                (request.params@[i]->0)@,
            ) == list[i]
        }),
{
    a_request_is_what_the_message_says(json_model(*message));
    let params = request@.params;
    assert(params.len() == request.params@.len());
    if 0 <= i < params.len() {
        assert(params[i] is Some <==> request.params@[i] is Some);
        assert(params[i] is Some ==> params[i]->0 == (request.params@[i]->0)@);
    }
}

/// What is done about a subscription and about every request but that and a share.
pub proof fn requests_are_answered(
    job: Option<&StratumJob>,
    password: Option<&str>,
    request: &Request,
    step: Step,
)
    requires
        call_ensures(handle_request, (job, password, request), step),
        request.method@ != "mining.submit"@,
    ensures
        ({
            let asked = request@;
            let subscribes = asked.method == "mining.subscribe"@;
            let authorizes = asked.method == "mining.authorize"@;
            let extends = asked.method == "mining.extranonce.subscribe"@;
            let given = asked.params.len() > 1 && asked.params[1] is Some && password is Some
                && asked.params[1]->0 == (password->0)@;
            let sent = json_models(step->Send_0@);
            &&& subscribes && job is None ==> step is Close
            &&& !subscribes || job is Some ==> step is Send
            &&& subscribes && job is Some ==> {
                let result = members(sent[0])["result"@]->Array_0;
                &&& sent.len() == 3
                &&& is_response(sent[0], id_of(asked, 1), JsonModel::Array(result), JsonModel::Null)
                &&& result.len() == 3
                &&& result[1] == JsonModel::Text((job->0).ex1_hex@)
                &&& is_notification(
                    sent[1],
                    "mining.set_difficulty"@,
                    seq![JsonModel::Number("1.0"@)],
                )
                &&& is_notify(sent[2], (job->0)@)
            }
            &&& !subscribes ==> sent.len() == 1
            &&& authorizes && (password is None || given) ==> is_granting(sent[0], id_of(asked, 2))
            &&& authorizes && password is Some && !given ==> is_refusing(
                sent[0],
                id_of(asked, 2),
                24,
                "Unauthorized worker"@,
            )
            &&& extends ==> is_granting(sent[0], id_of(asked, 4))
            &&& !subscribes && !authorizes && !extends ==> {
                let error = members(sent[0])["error"@];
                &&& is_response(sent[0], id_of(asked, 0), JsonModel::Null, error)
                &&& is_error(error, -32601, "Method not found"@)
            }
        }),
{
    let current = job_view(job);
    let wanted = text_view(password);
    other_requests_are_answered(current, wanted, request@);
    if job is Some && request.method@ == "mining.subscribe"@ {
        a_subscriber_is_sent_three_messages((job->0)@, wanted, request@);
    }
}

/// What is done about a share, whatever the job and the request hold.
pub proof fn shares_are_checked(
    job: Option<&StratumJob>,
    password: Option<&str>,
    request: &Request,
    step: Step,
)
    requires
        call_ensures(handle_request, (job, password, request), step),
        request.method@ == "mining.submit"@,
    ensures
        ({
            let asked = request@;
            let id = id_of(asked, 3);
            let sent = json_models(step->Send_0@);
            let current = (job->0)@;
            let named = job is Some && text_at(asked, 1, Seq::empty()) == current.job_id;
            let ex2 = hex_bytes(text_at(asked, 2, Seq::empty()));
            let sized = ex2 is Some && (ex2->0).len() == current.ex2_len;
            let coinbase = hex_bytes(current.coinbase1 + hex_text(ex2->0) + current.coinbase2);
            let whole = coinbase is Some && transaction_id(coinbase->0) is Some;
            &&& !named ==> step is Send && sent.len() == 1 && is_refusing(
                sent[0],
                id,
                21,
                "Stale job"@,
            )
            &&& named && !sized ==> step is Send && sent.len() == 1 && is_refusing(
                sent[0],
                id,
                25,
                "bad ex2 size"@,
            )
            &&& named && sized && !whole ==> step is Send && sent.len() == 1 && is_refusing(
                sent[0],
                id,
                23,
                "bad coinbase"@,
            )
            &&& named && sized && whole ==> {
                let share = step->CheckTip_0;
                &&& step is CheckTip
                &&& json_model(share.id) == id
                &&& share.worker@ == text_at(asked, 0, "unknown"@)
                &&& share.job@ == current
                &&& share.coinbase@ == coinbase->0
                &&& reads_as(share.header.version, current.version)
                &&& reads_as(share.header.bits, current.nbits)
                &&& reads_as(share.header.time, text_at(asked, 3, Seq::empty()))
                &&& reads_as(share.header.nonce, text_at(asked, 4, Seq::empty()))
                &&& block_hash_of(current.prevhash_be) is Some ==> Some(share.header.prev_blockhash@)
                    == block_hash_of(current.prevhash_be)
                &&& share.header.merkle_root@ == merkle_root(
                    seq![transaction_id(coinbase->0)->0] + known_ids(current.txs_hex),
                )
            }
        }),
{
    a_share_is_checked_in_turn(job_view(job), text_view(password), request@);
}

/// The header of a share is that of its job, with the miner's time and nonce.
pub proof fn a_built_header_is_the_jobs(
    job: &StratumJob,
    coinbase_id: [u8; 32],
    ntime: &str,
    nonce: &str,
    header: BlockHeader,
)
    requires
        call_ensures(build_header, (job, coinbase_id, ntime, nonce), header),
    ensures
        reads_as(header.version, job.version@),
        reads_as(header.bits, job.nbits@),
        reads_as(header.time, ntime@),
        reads_as(header.nonce, nonce@),
        block_hash_of(job.prevhash_be@) is Some ==> Some(header.prev_blockhash@) == block_hash_of(
            job.prevhash_be@,
        ),
        block_hash_of(job.prevhash_be@) is None ==> forall|i: int|
            0 <= i < 32 ==> #[trigger] header.prev_blockhash@[i] == 0,
        header.merkle_root@ == merkle_root(seq![coinbase_id@] + known_ids(job@.txs_hex)),
{
    assert(header.prev_blockhash@ == header@.prev_blockhash);
}

/// A line is passed over, complained about, or answered as its request, in a session or not.
pub proof fn lines_are_answered(
    job: Option<&StratumJob>,
    password: Option<&str>,
    line: &str,
    step: Step,
    is_empty: bool,
    standing: Standing,
    result: (Standing, Step),
)
    requires
        call_ensures(handle_line, (job, password, line), step),
        call_ensures(blank, (line,), is_empty),
        call_ensures(handle_session_line, (standing, job, password, line), result),
    ensures
        is_empty ==> step is Ignore && result.1 is Ignore && result.0 == standing,
        !is_empty && json_parsed(line@) is None ==> {
            let reply = json_model(step->Complain_0);
            &&& step is Complain
            &&& result.1 is Complain
            &&& result.0 == standing
            &&& json_model(result.1->Complain_0) == reply
            &&& is_response(reply, JsonModel::Null, JsonModel::Null, members(reply)["error"@])
            &&& is_error(members(reply)["error"@], -32700, "parse error"@)
        },
        !is_empty && json_parsed(line@) is Some ==> {
            &&& step@ == request_step(
                job_view(job),
                text_view(password),
                request_of(json_parsed(line@)->0),
            )
            &&& standing == Standing::Authorized || password is None ==> result.1@ == step@
            &&& result.0 == standing_after(
                text_view(password),
                standing,
                request_of(json_parsed(line@)->0),
            )
            &&& result.1@ == session_step(
                standing,
                job_view(job),
                text_view(password),
                request_of(json_parsed(line@)->0),
            )
        },
{
    a_line_is_answered_as_its_request(job_view(job), text_view(password), line@);
    if line_request(line@) is Some {
        only_shares_and_subscriptions_are_barred(
            standing,
            job_view(job),
            text_view(password),
            line_request(line@)->0,
        );
    }
}

/// For want of authorization nothing is refused but a share and the subscription of a refused
/// miner, and only where a password is set; a miner stands by the last answer to its request to
/// be authorized.
pub proof fn sessions_ask_for_the_password(
    standing: Standing,
    job: Option<&StratumJob>,
    password: Option<&str>,
    request: &Request,
    refusal: Option<Value>,
    next: Standing,
    result: (Standing, Step),
    step: Step,
)
    requires
        call_ensures(admits, (password, standing, request), refusal),
        call_ensures(next_standing, (password, standing, request), next),
        call_ensures(handle_session_request, (standing, job, password, request), result),
        call_ensures(handle_request, (job, password, request), step),
    ensures
        ({
            let asked = request@;
            let share = asked.method == "mining.submit"@;
            let subscribes = asked.method == "mining.subscribe"@;
            let authorizes = asked.method == "mining.authorize"@;
            let given = asked.params.len() > 1 && asked.params[1] is Some && password is Some
                && asked.params[1]->0 == (password->0)@;
            let barred_share = password is Some && share && standing != Standing::Authorized;
            let barred_subscription = password is Some && subscribes && standing
                == Standing::Refused;
            let sent = json_models(result.1->Send_0@);
            &&& refusal is Some <==> barred_share || barred_subscription
            &&& barred_share ==> is_refusing(
                json_model(refusal->0),
                id_of(asked, 3),
                24,
                "Unauthorized worker"@,
            )
            &&& barred_subscription ==> is_refusing(
                json_model(refusal->0),
                id_of(asked, 1),
                24,
                "Unauthorized worker"@,
            )
            &&& refusal is Some ==> result.1 is Send && sent.len() == 1 && sent[0] == json_model(
                refusal->0,
            )
            &&& refusal is None ==> result.1@ == step@
            &&& result.0 == next
            &&& !authorizes ==> next == standing
            &&& authorizes && (password is None || given) ==> next == Standing::Authorized
            &&& authorizes && password is Some && !given ==> next == Standing::Refused
        }),
{
    only_shares_and_subscriptions_are_barred(
        standing,
        job_view(job),
        text_view(password),
        request@,
    );
    a_miner_stands_by_its_last_answer(text_view(password), standing, request@);
}

/// A share is judged by the node's best block, and a solved block recorded by what came of it.
pub proof fn shares_are_judged_and_recorded(
    submission: Submission,
    best: Option<[u8; 32]>,
    verdict: Verdict,
    share: &AcceptedShare,
    outcome: &BlockOutcome,
    record: Option<BlockRecord>,
)
    requires
        call_ensures(judge_submission, (submission, best), verdict),
        call_ensures(record_block, (share, outcome), record),
    ensures
        best is Some && submission.job.prevhash_be@ != block_hash_text((best->0)@) ==> verdict is Stale,
        best is Some && submission.job.prevhash_be@ == block_hash_text((best->0)@)
            ==> verdict is Accepted,
        best is None ==> (verdict is Accepted <==> submission.job.prevhash_be@ == block_hash_text(
            Seq::new(32, |i: int| 0u8),
        )),
        verdict is Stale ==> is_refusing(
            json_model(verdict->Stale_0),
            json_model(submission.id),
            21,
            "Stale: tip changed"@,
        ),
        verdict is Accepted ==> {
            let accepted = verdict->Accepted_0;
            &&& accepted.worker@ == submission.worker@
            &&& is_granting(json_model(accepted.reply), json_model(submission.id))
            &&& accepted.coinbase@ == submission.coinbase@
            &&& accepted.job@ == submission.job@
            &&& accepted.header@ == submission.header@.bytes()
        },
        outcome is Rejected ==> {
            &&& record is Some
            &&& (record->0).height is None
            &&& (record->0).hash@ == hex_text(sha256d_digest(share.header@))
            &&& (record->0).status@ == "rejected"@
            &&& (record->0).credited is None
        },
        outcome is Accepted ==> record is None,
        outcome is AcceptedAs ==> {
            &&& record is Some
            &&& (record->0).height is Some <==> outcome->height is Some
            &&& outcome->height is Some && outcome->height->0 <= i64::MAX ==> (record->0).height->0
                == outcome->height->0
            &&& (record->0).hash@ == block_hash_text(outcome->best@)
            &&& (record->0).status@ == "accepted"@
            &&& (record->0).credited is Some
            &&& (record->0).credited->0@ == share.worker@
        },
{
    let tip = match best {
        Some(hash) => Some(hash@),
        None => None,
    };
    a_share_is_judged_by_the_tip(submission@, tip);
    a_solved_block_is_recorded(share@, *outcome);
    if record is Some {
        let said = (record->0)@;
        assert(said.height == (record->0).height);
        assert(said.credited is Some <==> (record->0).credited is Some);
    }
}

/// A message is forwarded as itself and a line break, and texts are the same if their characters
/// are.
pub proof fn texts_are_kept(message: &str, line: String, a: &str, b: &str, same: bool)
    requires
        call_ensures(forward, (message,), line),
        call_ensures(same_text, (a, b), same),
    ensures
        line@.drop_last() == message@,
        line@.last() == '\n',
        same <==> a@ == b@,
{
    assert(line@.drop_last() =~= message@);
}

/// A variable that is set is taken as it is, and the pool starts on mainnet only with a payout
/// address.
pub proof fn settings_follow_the_environment(
    env: Environment,
    settings: Result<Settings, ConfigError>,
    value: Option<String>,
    default: &str,
    text: String,
    checked: Result<(), ConfigError>,
)
    requires
        call_ensures(configure, (env,), settings),
        call_ensures(env_or, (value, default), text),
        call_ensures(check_payout, (&env.network, &env.payout_address), checked),
    ensures
        ({
            let mainnet = env.network is Some && (env.network->0)@ == "mainnet"@;
            let payable = env.payout_address is Some && (env.payout_address->0)@.len() > 0;
            let made = settings->Ok_0;
            &&& settings is Ok <==> !mainnet || payable
            &&& checked is Ok <==> settings is Ok
            &&& settings is Ok && env.rpc_url is Some ==> made.rpc_url@ == (env.rpc_url->0)@
            &&& settings is Ok && env.rpc_user is Some ==> made.rpc_user@ == (env.rpc_user->0)@
            &&& settings is Ok && env.rpc_pass is Some ==> made.rpc_pass@ == (env.rpc_pass->0)@
            &&& settings is Ok && env.zmq_block is Some ==> made.zmq_block@ == (env.zmq_block->0)@
            &&& settings is Ok && env.zmq_tx is Some ==> made.zmq_tx@ == (env.zmq_tx->0)@
            &&& settings is Ok && env.stratum_addr is Some ==> made.stratum_addr@
                == (env.stratum_addr->0)@
            &&& settings is Ok && env.web_addr is Some ==> made.web_addr@ == (env.web_addr->0)@
            &&& settings is Ok && env.db_path is Some ==> made.db_path@ == (env.db_path->0)@
            &&& settings is Ok ==> made.miner_password == env.miner_password
        }),
        value is Some ==> text@ == (value->0)@,
        value is None ==> text@ == default@,
{
    only_mainnet_needs_an_address(env.network, env.payout_address);
    the_environment_decides(value, default@);
}

/// The pool tries again after each of the first ten failures, counts them, and gives up at the
/// next.
pub proof fn ten_failures_are_forgiven(failures: usize, retry: Retry)
    requires
        call_ensures(after_failure, (failures,), retry),
    ensures
        retry is Again <==> failures < 10,
        retry is Again ==> retry->Again_0 == failures + 1,
        retry is GiveUp <==> failures >= 10,
{
}

/// Windows and spans reach back from now, and there is no rate over a window that is not longer
/// than nothing.
pub proof fn cutoffs_reach_back(
    now: i64,
    span: i64,
    window: i64,
    bucket: i64,
    rate: Option<i64>,
)
    requires
        call_ensures(window_cutoff, (now, span), window),
        call_ensures(bucket_cutoff, (now, span), bucket),
        call_ensures(rate_cutoff, (now, span), rate),
        now - span >= i64::MIN,
    ensures
        window + span == now,
        bucket + 60 * span == now,
        rate is Some <==> span > 0,
        rate is Some ==> rate->0 == window,
{
}

/// Rows become workers as they stand, flags are one and zero, and a share is recorded as valid
/// for its worker.
pub proof fn rows_are_kept(
    id: i64,
    name: String,
    authorized: i64,
    last_seen: Option<String>,
    worker: Worker,
    moment: Option<UtcTime>,
    seen: Worker,
    value: bool,
    flag: i64,
    worker_id: Option<i64>,
    entry: Option<ShareEntry>,
)
    requires
        call_ensures(worker_from_row, (id, name, authorized, last_seen), worker),
        call_ensures(worker_seen_at, (id, name, authorized, moment), seen),
        call_ensures(flag_column, (value,), flag),
        call_ensures(share_entry, (worker_id,), entry),
    ensures
        worker.id == id && seen.id == id,
        worker.name@ == name@ && seen.name@ == name@,
        worker.authorized <==> authorized != 0,
        seen.authorized <==> authorized != 0,
        last_seen is None ==> worker.last_seen is None,
        last_seen is Some ==> (worker.last_seen is Some <==> utc_parsed((last_seen->0)@) is Some),
        worker.last_seen is Some ==> utc_parsed((last_seen->0)@) == Some(
            ((worker.last_seen->0).secs, (worker.last_seen->0).nanos),
        ),
        seen.last_seen == moment,
        value ==> flag == 1,
        !value ==> flag == 0,
        entry is Some <==> worker_id is Some,
        entry is Some ==> (entry->0).worker_id == worker_id->0 && (entry->0).valid == 1,
{
    let text = match last_seen {
        Some(text) => Some(text@),
        None => None,
    };
    a_worker_is_its_row(id, name@, authorized, text);
    assert(worker@.last_seen is Some <==> worker.last_seen is Some);
}

/// A moment that a calendar and a clock can show is written, and what is written in a row is
/// read back as that moment.
pub proof fn a_written_moment_is_read_back(
    moment: &UtcTime,
    text: Option<String>,
    id: i64,
    name: String,
    authorized: i64,
    worker: Worker,
)
    requires
        call_ensures(format_rfc3339, (moment,), text),
        call_ensures(worker_from_row, (id, name, authorized, text), worker),
    ensures
        -62_167_219_200 <= moment.secs < 253_402_300_800 && moment.nanos < 1_000_000_000
            ==> text is Some,
        text is Some ==> worker.last_seen == Some(*moment),
        text is None ==> worker.last_seen is None,
{
    let written = match text {
        Some(text) => Some(text@),
        None => None,
    };
    a_worker_is_its_row(id, name@, authorized, written);
    assert(worker@.last_seen is Some <==> worker.last_seen is Some);
}

/// Pages show every worker and every block that was read, in order, and none where they could
/// not be.
pub proof fn pages_show_what_was_read(
    list: Option<Vec<Worker>>,
    job: Option<StratumJob>,
    first: DashboardTemplate,
    second: WorkersTemplate,
    stored: Option<Vec<StoredBlock>>,
    third: BlocksTemplate,
    block: &StoredBlock,
    row: BlockRow,
    i: int,
)
    requires
        call_ensures(dashboard, (list, job), first),
        call_ensures(workers, (list,), second),
        call_ensures(blocks, (stored,), third),
        call_ensures(block_row, (block,), row),
    ensures
        list is Some ==> first.workers == list->0 && second.workers == list->0,
        list is None ==> first.workers@.len() == 0 && second.workers@.len() == 0,
        first.job == job,
        stored is None ==> third.blocks@.len() == 0,
        stored is Some ==> third.blocks@.len() == (stored->0)@.len(),
        stored is Some && 0 <= i < (stored->0)@.len() && *block == (stored->0)@[i]
            ==> third.blocks@[i]@ == row@,
        block.0 is None ==> row.height@ == "-"@,
        block.0 is Some && block.0->0 >= 0 ==> number_in(row.height@, 10) == block.0->0,
        block.1 is None ==> row.hash@ == "-"@,
        block.1 is Some ==> row.hash@ == (block.1->0)@,
        row.status@ == block.2@,
        row.timestamp@ == block.3@,
{
    a_row_shows_its_block(*block);
    let rows = crate::web::row_views(third.blocks@);
    assert(rows.len() == third.blocks@.len());
    if 0 <= i < rows.len() {
        assert(rows[i] == third.blocks@[i]@);
    }
}

/// A query for metrics means what it names, and else five minutes and sixty; the answer carries
/// every bucket.
pub proof fn metrics_answer_the_query(
    window: Option<i64>,
    minutes: Option<i64>,
    spans: (i64, i64),
    worker: &str,
    span: i64,
    hashrate: Value,
    buckets: &Vec<(i64, i64)>,
    message: Value,
)
    requires
        call_ensures(metrics_spans, (window, minutes), spans),
        call_ensures(metrics_message, (worker, span, hashrate, buckets), message),
    ensures
        window is Some ==> spans.0 == window->0,
        window is None ==> spans.0 == 300,
        minutes is Some ==> spans.1 == minutes->0,
        minutes is None ==> spans.1 == 60,
        ({
            let m = members(json_model(message));
            let spark = m["spark"@]->Array_0;
            &&& json_model(message) is Object
            &&& m["worker"@] == JsonModel::Text(worker@)
            &&& m["window_secs"@] == JsonModel::Number(decimal(span as int))
            &&& m["hashrate_hps"@] == json_model(hashrate)
            &&& m["spark"@] is Array
            &&& spark.len() == buckets@.len()
            &&& forall|i: int|
                0 <= i < buckets@.len() ==> #[trigger] spark[i] == JsonModel::Array(
                    seq![
                        JsonModel::Number(decimal(buckets@[i].0 as int)),
                        JsonModel::Number(decimal(buckets@[i].1 as int)),
                    ],
                )
        }),
{
    metrics_carry_every_bucket(worker@, span, json_model(hashrate), buckets@);
}

} // verus!

//! What is read of a miner's line, what is answered to it, and what becomes of a share, each
//! spelled out.
use super::messages::{
    a_notification_has_its_members, a_response_has_its_members, an_error_has_its_members, is_error,
    is_granting, is_notification, is_notify, is_refusing, is_response, members,
    miners_are_told_the_whole_job,
};
use crate::chain::{block_hash_of, block_hash_text, transaction_id};
use crate::job::JobModel;
use crate::json::{error_model, json_parsed, response_model, JsonModel};
use crate::merkle::{merkle_root, sha256d_digest};
use crate::session::{session_step, standing_after, Standing};
use crate::stratum::{
    granted, known_ids, line_request, line_step, record_of, refused, request_of, request_step,
    signed_height, submit_step, subscription, verdict_of, AcceptedShareModel, BlockOutcome,
    RequestModel, SubmissionModel,
};
use crate::text::{decimal, hex_bytes, hex_text, hex_u32, is_blank};
use vstd::prelude::*;

verus! {

/// The methods are five different texts.
proof fn methods_differ()
    ensures
        "mining.subscribe"@ != "mining.authorize"@,
        "mining.subscribe"@ != "mining.submit"@,
        "mining.subscribe"@ != "mining.extranonce.subscribe"@,
        "mining.authorize"@ != "mining.submit"@,
        "mining.authorize"@ != "mining.extranonce.subscribe"@,
        "mining.submit"@ != "mining.extranonce.subscribe"@,
{
    reveal_strlit("mining.subscribe");
    reveal_strlit("mining.authorize");
    reveal_strlit("mining.submit");
    reveal_strlit("mining.extranonce.subscribe");
    assert("mining.subscribe"@[7] == 's' && "mining.authorize"@[7] == 'a');
    assert("mining.subscribe"@.len() == 16 && "mining.authorize"@.len() == 16);
    assert("mining.submit"@.len() == 13 && "mining.extranonce.subscribe"@.len() == 27);
}

proof fn refusals_and_grants(id: JsonModel, code: int, text: Seq<char>)
    ensures
        is_refusing(refused(id, code, text), id, code, text),
        is_granting(granted(id), id),
{
    an_error_has_its_members(code, text);
    a_response_has_its_members(id, JsonModel::Bool(false), error_model(code, text));
    a_response_has_its_members(id, JsonModel::Bool(true), JsonModel::Null);
}

/// A request has the id of its message, its method where that is text, and for each of its
/// parameters, where they are an array, the text of one that is text.
pub proof fn a_request_is_what_the_message_says(message: JsonModel)
    ensures
        ({
            let request = request_of(message);
            &&& message !is Object ==> {
                &&& request.id is None
                &&& request.method.len() == 0
                &&& request.params.len() == 0
            }
            &&& message is Object ==> {
                let m = members(message);
                let listed = m.contains_key("params"@) && m["params"@] is Array;
                let list = m["params"@]->Array_0;
                &&& m.contains_key("id"@) ==> request.id == Some(m["id"@])
                &&& !m.contains_key("id"@) ==> request.id is None
                &&& m.contains_key("method"@) && m["method"@] is Text ==> JsonModel::Text(
                    request.method,
                ) == m["method"@]
                &&& !(m.contains_key("method"@) && m["method"@] is Text) ==> request.method.len()
                    == 0
                &&& !listed ==> request.params.len() == 0
                &&& listed ==> request.params.len() == list.len() && forall|i: int|
                    0 <= i < list.len() ==> {
                        &&& (#[trigger] request.params[i]) is Some <==> list[i] is Text
                        &&& list[i] is Text ==> JsonModel::Text(request.params[i]->0) == list[i]
                    }
            }
        }),
{
}

/// A blank line is passed over, one that is no JSON is answered with a parse error under a null
/// id, and any other is answered as the request that it holds.
pub proof fn a_line_is_answered_as_its_request(
    job: Option<JobModel>,
    password: Option<Seq<char>>,
    line: Seq<char>,
)
    ensures
        ({
            let step = line_step(job, password, line);
            &&& is_blank(line) ==> step is Ignore && line_request(line) is None
            &&& !is_blank(line) && json_parsed(line) is None ==> {
                let reply = step->Complain_0;
                &&& line_request(line) is None
                &&& step is Complain
                &&& is_response(
                    reply,
                    JsonModel::Null,
                    JsonModel::Null,
                    members(reply)["error"@],
                )
                &&& is_error(members(reply)["error"@], -32700, "parse error"@)
            }
            &&& !is_blank(line) && json_parsed(line) is Some ==> {
                &&& line_request(line) == Some(request_of(json_parsed(line)->0))
                &&& step == request_step(job, password, request_of(json_parsed(line)->0))
            }
        }),
{
    let error = error_model(-32700, "parse error"@);
    an_error_has_its_members(-32700, "parse error"@);
    a_response_has_its_members(JsonModel::Null, JsonModel::Null, error);
}

/// The id of a request, or the number that stands for it.
pub open spec fn id_of(request: RequestModel, otherwise: int) -> JsonModel {
    if request.id is Some {
        request.id->0
    } else {
        JsonModel::Number(decimal(otherwise))
    }
}

/// The text of a parameter, or another where it is not there or is no text.
pub open spec fn text_at(request: RequestModel, i: int, otherwise: Seq<char>) -> Seq<char> {
    if 0 <= i < request.params.len() && request.params[i] is Some {
        request.params[i]->0
    } else {
        otherwise
    }
}

/// A miner that subscribes is sent three messages: the response with the two subscriptions, the
/// pool's extra nonce and the size of its own; difficulty one; and the current job. Where there
/// is no job, the session ends.
pub proof fn a_subscriber_is_sent_three_messages(
    job: JobModel,
    password: Option<Seq<char>>,
    request: RequestModel,
)
    requires
        request.method == "mining.subscribe"@,
    ensures
        request_step(None, password, request) is Close,
        ({
            let step = request_step(Some(job), password, request);
            let sent = step->Send_0;
            let result = members(sent[0])["result"@]->Array_0;
            let subscriptions = result[0]->Array_0;
            &&& step is Send
            &&& sent.len() == 3
            &&& is_response(sent[0], id_of(request, 1), JsonModel::Array(result), JsonModel::Null)
            &&& result.len() == 3
            &&& result[0] is Array
            &&& subscriptions.len() == 2
            &&& subscriptions[0] == JsonModel::Array(
                seq![JsonModel::Text("mining.set_difficulty"@), JsonModel::Text("1"@)],
            )
            &&& subscriptions[1] == JsonModel::Array(
                seq![JsonModel::Text("mining.notify"@), JsonModel::Text("2"@)],
            )
            &&& result[1] == JsonModel::Text(job.ex1_hex)
            &&& result[2] == JsonModel::Number(decimal(job.ex2_len as int))
            &&& is_notification(
                sent[1],
                "mining.set_difficulty"@,
                seq![JsonModel::Number("1.0"@)],
            )
            &&& is_notify(sent[2], job)
        }),
{
    let result = JsonModel::Array(
        seq![
            JsonModel::Array(
                seq![
                    JsonModel::Array(
                        seq![JsonModel::Text("mining.set_difficulty"@), JsonModel::Text("1"@)],
                    ),
                    JsonModel::Array(
                        seq![JsonModel::Text("mining.notify"@), JsonModel::Text("2"@)],
                    ),
                ],
            ),
            JsonModel::Text(job.ex1_hex),
            JsonModel::Number(decimal(job.ex2_len as int)),
        ],
    );
    let first = subscription(id_of(request, 1), job);
    assert(first == response_model(id_of(request, 1), result, JsonModel::Null));
    a_response_has_its_members(id_of(request, 1), result, JsonModel::Null);
    a_notification_has_its_members(
        "mining.set_difficulty"@,
        seq![JsonModel::Number("1.0"@)],
    );
    miners_are_told_the_whole_job(job);
    assert(members(first)["result"@] == result);
}

/// Authorization is granted unless a password is set that the second parameter is not; an extra
/// nonce subscription is always granted; another method than the five is not found.
pub proof fn other_requests_are_answered(
    job: Option<JobModel>,
    password: Option<Seq<char>>,
    request: RequestModel,
)
    ensures
        ({
            let step = request_step(job, password, request);
            let sent = step->Send_0;
            let asked = request.method == "mining.authorize"@;
            let given = request.params.len() > 1 && request.params[1] is Some && password is Some
                && request.params[1]->0 == password->0;
            &&& asked && (password is None || given) ==> step is Send && sent.len() == 1
                && is_granting(sent[0], id_of(request, 2))
            &&& asked && password is Some && !given ==> step is Send && sent.len() == 1
                && is_refusing(sent[0], id_of(request, 2), 24, "Unauthorized worker"@)
            &&& request.method == "mining.extranonce.subscribe"@ ==> step is Send && sent.len() == 1
                && is_granting(sent[0], id_of(request, 4))
            &&& request.method != "mining.subscribe"@ && request.method != "mining.authorize"@
                && request.method != "mining.submit"@ && request.method
                != "mining.extranonce.subscribe"@ ==> {
                let error = members(sent[0])["error"@];
                &&& step is Send
                &&& sent.len() == 1
                &&& is_response(sent[0], id_of(request, 0), JsonModel::Null, error)
                &&& is_error(error, -32601, "Method not found"@)
            }
        }),
{
    methods_differ();
    refusals_and_grants(id_of(request, 2), 24, "Unauthorized worker"@);
    refusals_and_grants(id_of(request, 4), 0, "Unauthorized worker"@);
    an_error_has_its_members(-32601, "Method not found"@);
    a_response_has_its_members(
        id_of(request, 0),
        JsonModel::Null,
        error_model(-32601, "Method not found"@),
    );
}

/// A share is refused as stale unless it names the current job; then for its extra nonce unless
/// that is hexadecimal of the size that the job wants; then for its coinbase unless the halves
/// of the job's with the extra nonce between them spell a transaction. Any other awaits the
/// node's best block, with the header that its job, its time and its nonce give.
pub proof fn a_share_is_checked_in_turn(
    job: Option<JobModel>,
    password: Option<Seq<char>>,
    request: RequestModel,
)
    requires
        request.method == "mining.submit"@,
    ensures
        ({
            let step = request_step(job, password, request);
            let sent = step->Send_0;
            let id = id_of(request, 3);
            let named = job is Some && text_at(request, 1, Seq::empty()) == (job->0).job_id;
            let ex2 = hex_bytes(text_at(request, 2, Seq::empty()));
            let sized = ex2 is Some && (ex2->0).len() == (job->0).ex2_len;
            let coinbase = hex_bytes((job->0).coinbase1 + hex_text(ex2->0) + (job->0).coinbase2);
            let whole = coinbase is Some && transaction_id(coinbase->0) is Some;
            &&& !named ==> step is Send && sent.len() == 1 && is_refusing(
                sent[0],
                id,
                21,
                "Stale job"@,
            )
            &&& named && !sized ==> step is Send && sent.len() == 1 && is_refusing(
                sent[0],
                id,
                25,
                "bad ex2 size"@,
            )
            &&& named && sized && !whole ==> step is Send && sent.len() == 1 && is_refusing(
                sent[0],
                id,
                23,
                "bad coinbase"@,
            )
            &&& named && sized && whole ==> {
                let share = step->CheckTip_0;
                &&& step is CheckTip
                &&& share.id == id
                &&& share.worker == text_at(request, 0, "unknown"@)
                &&& share.job == job->0
                &&& share.coinbase == coinbase->0
                &&& reads_as(share.header.version, (job->0).version)
                &&& reads_as(share.header.bits, (job->0).nbits)
                &&& reads_as(share.header.time, text_at(request, 3, Seq::empty()))
                &&& reads_as(share.header.nonce, text_at(request, 4, Seq::empty()))
                &&& block_hash_of((job->0).prevhash_be) is Some ==> Some(share.header.prev_blockhash)
                    == block_hash_of((job->0).prevhash_be)
                &&& block_hash_of((job->0).prevhash_be) is None ==> share.header.prev_blockhash.len()
                    == 32 && forall|i: int|
                    0 <= i < 32 ==> #[trigger] share.header.prev_blockhash[i] == 0
                &&& share.header.merkle_root == merkle_root(
                    seq![transaction_id(coinbase->0)->0] + known_ids((job->0).txs_hex),
                )
            }
        }),
{
    methods_differ();
    let id = id_of(request, 3);
    refusals_and_grants(id, 21, "Stale job"@);
    refusals_and_grants(id, 25, "bad ex2 size"@);
    refusals_and_grants(id, 23, "bad coinbase"@);
    assert(request_step(job, password, request) == submit_step(job, request));
}

/// Whether `value` is what `text` is read as in hexadecimal, or zero where it cannot be read.
pub open spec fn reads_as(value: u32, text: Seq<char>) -> bool {
    &&& hex_u32(text) is Some ==> value == hex_u32(text)->0
    &&& hex_u32(text) is None ==> value == 0
}

/// The transactions of a job that enter the Merkle root are those that can be read, in order:
/// each text counts for itself.
pub proof fn each_text_counts_for_itself(a: Seq<Seq<char>>, b: Seq<Seq<char>>, text: Seq<char>)
    ensures
        known_ids(Seq::empty()).len() == 0,
        hex_bytes(text) is Some && transaction_id(hex_bytes(text)->0) is Some ==> known_ids(seq![text])
            == seq![transaction_id(hex_bytes(text)->0)->0],
        hex_bytes(text) is None || transaction_id(hex_bytes(text)->0) is None ==> known_ids(
            seq![text],
        ).len() == 0,
        known_ids(a + b) == known_ids(a) + known_ids(b),
    decreases b.len(),
{
    let one = seq![text];
    assert(one.drop_last() =~= Seq::empty());
    assert(known_ids(one.drop_last()).len() == 0);
    assert(one.last() == text);
    if hex_bytes(text) is Some && transaction_id(hex_bytes(text)->0) is Some {
        assert(known_ids(one) =~= seq![transaction_id(hex_bytes(text)->0)->0]);
    }
    if b.len() == 0 {
        assert(a + b =~= a);
        assert(known_ids(a) + known_ids(b) =~= known_ids(a));
    } else {
        each_text_counts_for_itself(a, b.drop_last(), text);
        assert((a + b).drop_last() =~= a + b.drop_last());
        assert((a + b).last() == b.last());
        assert(known_ids(a + b) =~= known_ids(a) + known_ids(b));
    }
}

/// A share is refused as stale unless its job names the node's best block, or the hash of zeros
/// where the node names none. An accepted one keeps its worker, job and coinbase, carries its
/// serialized header, and is answered by a grant.
pub proof fn a_share_is_judged_by_the_tip(submission: SubmissionModel, best: Option<Seq<u8>>)
    ensures
        ({
            let zeros = Seq::new(32, |i: int| 0u8);
            let tip = if best is Some {
                best->0
            } else {
                zeros
            };
            let verdict = verdict_of(submission, best);
            let share = verdict->Accepted_0;
            &&& submission.job.prevhash_be != block_hash_text(tip) ==> verdict is Stale
                && is_refusing(verdict->Stale_0, submission.id, 21, "Stale: tip changed"@)
            &&& submission.job.prevhash_be == block_hash_text(tip) ==> {
                &&& verdict is Accepted
                &&& share.worker == submission.worker
                &&& is_granting(share.reply, submission.id)
                &&& share.header == submission.header.bytes()
                &&& share.coinbase == submission.coinbase
                &&& share.job == submission.job
            }
        }),
{
    refusals_and_grants(submission.id, 21, "Stale: tip changed"@);
}

/// A rejected block is recorded by the digest of its header, without a height, and credits
/// nobody. An accepted one is recorded as the node's best block, at the height that the node
/// tells, and credits the worker of the share. Nothing is recorded where the node took the block
/// and names no best one.
pub proof fn a_solved_block_is_recorded(share: AcceptedShareModel, outcome: BlockOutcome)
    ensures
        ({
            let record = record_of(share, outcome);
            &&& outcome is Rejected ==> {
                &&& record is Some
                &&& (record->0).height is None
                &&& (record->0).hash == hex_text(sha256d_digest(share.header))
                &&& (record->0).status == "rejected"@
                &&& (record->0).credited is None
            }
            &&& outcome is Accepted ==> record is None
            &&& outcome is AcceptedAs ==> {
                &&& record is Some
                &&& (record->0).height is Some <==> outcome->height is Some
                &&& outcome->height is Some ==> ((record->0).height->0 - outcome->height->0)
                    % 0x1_0000_0000_0000_0000 == 0
                &&& outcome->height is Some && outcome->height->0 <= i64::MAX
                    ==> (record->0).height->0 == outcome->height->0
                &&& (record->0).hash == block_hash_text(outcome->best@)
                &&& (record->0).status == "accepted"@
                &&& (record->0).credited == Some(share.worker)
            }
        }),
{
    if outcome is AcceptedAs && outcome->height is Some {
        let height = outcome->height->0;
        let kept = signed_height(height);
        if height <= i64::MAX {
            assert(kept - height == 0);
        } else {
            assert(kept - height == -0x1_0000_0000_0000_0000);
        }
    }
}

/// Only a request to be authorized changes how a miner stands: it is then authorized, unless a
/// password is set that the second parameter is not.
pub proof fn a_miner_stands_by_its_last_answer(
    password: Option<Seq<char>>,
    standing: Standing,
    request: RequestModel,
)
    ensures
        ({
            let after = standing_after(password, standing, request);
            let given = request.params.len() > 1 && request.params[1] is Some && password is Some
                && request.params[1]->0 == password->0;
            &&& request.method != "mining.authorize"@ ==> after == standing
            &&& request.method == "mining.authorize"@ && (password is None || given) ==> after
                == Standing::Authorized
            &&& request.method == "mining.authorize"@ && password is Some && !given ==> after
                == Standing::Refused
        }),
{
}

/// For want of authorization nothing is refused but a share, unless the miner is authorized, and
/// a subscription of a refused miner, and neither without a password.
pub proof fn only_shares_and_subscriptions_are_barred(
    standing: Standing,
    job: Option<JobModel>,
    password: Option<Seq<char>>,
    request: RequestModel,
)
    ensures
        ({
            let step = session_step(standing, job, password, request);
            let sent = step->Send_0;
            let share = request.method == "mining.submit"@;
            let subscription = request.method == "mining.subscribe"@;
            let barred_share = password is Some && share && standing != Standing::Authorized;
            let barred_subscription = password is Some && subscription && standing
                == Standing::Refused;
            &&& barred_share ==> step is Send && sent.len() == 1 && is_refusing(
                sent[0],
                id_of(request, 3),
                24,
                "Unauthorized worker"@,
            )
            &&& barred_subscription ==> step is Send && sent.len() == 1 && is_refusing(
                sent[0],
                id_of(request, 1),
                24,
                "Unauthorized worker"@,
            )
            &&& !barred_share && !barred_subscription ==> step == request_step(
                job,
                password,
                request,
            )
        }),
{
    methods_differ();
    refusals_and_grants(id_of(request, 3), 24, "Unauthorized worker"@);
    refusals_and_grants(id_of(request, 1), 24, "Unauthorized worker"@);
}

} // verus!

//! The JSON messages of the pool, member by member.
use crate::job::{notify_model, sse_model, JobModel};
use crate::json::{
    error_model, framed, json_rendered, notification_model, response_model, JsonModel,
};
use crate::text::decimal;
use crate::web::metrics_model;
use vstd::prelude::*;

verus! {

/// The members of an object.
pub open spec fn members(model: JsonModel) -> Map<Seq<char>, JsonModel> {
    model->Object_0
}

/// Whether `message` is an object of just an id, a result and an error, and these are they.
pub open spec fn is_response(
    message: JsonModel,
    id: JsonModel,
    result: JsonModel,
    error: JsonModel,
) -> bool {
    &&& message is Object
    &&& members(message).dom() == set!["id"@, "result"@, "error"@]
    &&& members(message)["id"@] == id
    &&& members(message)["result"@] == result
    &&& members(message)["error"@] == error
}

/// Whether `error` is an object of just a code and a message, and these are they.
pub open spec fn is_error(error: JsonModel, code: int, text: Seq<char>) -> bool {
    &&& error is Object
    &&& members(error).dom() == set!["code"@, "message"@]
    &&& members(error)["code"@] == JsonModel::Number(decimal(code))
    &&& members(error)["message"@] == JsonModel::Text(text)
}

/// Whether `message` is an object of just a null id, a method and its parameters, and these are
/// they.
pub open spec fn is_notification(message: JsonModel, method: Seq<char>, params: Seq<JsonModel>) -> bool {
    &&& message is Object
    &&& members(message).dom() == set!["id"@, "method"@, "params"@]
    &&& members(message)["id"@] == JsonModel::Null
    &&& members(message)["method"@] == JsonModel::Text(method)
    &&& members(message)["params"@] == JsonModel::Array(params)
}

/// Whether `message` is a response under `id` that refuses with this code and text.
pub open spec fn is_refusing(message: JsonModel, id: JsonModel, code: int, text: Seq<char>) -> bool {
    &&& message is Object
    &&& is_response(message, id, JsonModel::Bool(false), members(message)["error"@])
    &&& is_error(members(message)["error"@], code, text)
}

/// Whether `message` is the response under `id` that grants.
pub open spec fn is_granting(message: JsonModel, id: JsonModel) -> bool {
    is_response(message, id, JsonModel::Bool(true), JsonModel::Null)
}

/// A response has just the three members that it is made of.
pub proof fn a_response_has_its_members(id: JsonModel, result: JsonModel, error: JsonModel)
    ensures
        is_response(response_model(id, result, error), id, result, error),
{
    reveal_strlit("id");
    reveal_strlit("result");
    reveal_strlit("error");
    assert("id"@.len() == 2 && "result"@.len() == 6 && "error"@.len() == 5);
    assert(members(response_model(id, result, error)).dom() =~= set!["id"@, "result"@, "error"@]);
}

/// An error has just the two members that it is made of.
pub proof fn an_error_has_its_members(code: int, text: Seq<char>)
    ensures
        is_error(error_model(code, text), code, text),
{
    reveal_strlit("code");
    reveal_strlit("message");
    assert("code"@.len() == 4 && "message"@.len() == 7);
    assert(members(error_model(code, text)).dom() =~= set!["code"@, "message"@]);
}

/// A notification has just the three members that it is made of.
pub proof fn a_notification_has_its_members(method: Seq<char>, params: Seq<JsonModel>)
    ensures
        is_notification(notification_model(method, params), method, params),
{
    reveal_strlit("id");
    reveal_strlit("method");
    reveal_strlit("params");
    assert("id"@.len() == 2 && "method"@.len() == 6 && "params"@.len() == 6);
    assert("method"@[0] == 'm' && "params"@[0] == 'p');
    assert(members(notification_model(method, params)).dom() =~= set![
        "id"@,
        "method"@,
        "params"@,
    ]);
}

/// Whether `message` is a `mining.notify` of a job: nine parameters, among them every
/// transaction of the job in order.
pub open spec fn is_notify(message: JsonModel, job: JobModel) -> bool {
    let params = members(message)["params"@]->Array_0;
    let txs = params[4]->Array_0;
    &&& is_notification(message, "mining.notify"@, params)
    &&& params.len() == 9
    &&& params[0] == JsonModel::Text(job.job_id)
    &&& params[1] == JsonModel::Text(job.prevhash_be)
    &&& params[2] == JsonModel::Text(job.coinbase1)
    &&& params[3] == JsonModel::Text(job.coinbase2)
    &&& params[4] is Array
    &&& txs.len() == job.txs_hex.len()
    &&& forall|i: int| 0 <= i < txs.len() ==> #[trigger] txs[i] == JsonModel::Text(job.txs_hex[i])
    &&& params[5] == JsonModel::Text(job.version)
    &&& params[6] == JsonModel::Text(job.nbits)
    &&& params[7] == JsonModel::Text(job.ntime)
    &&& params[8] == JsonModel::Bool(true)
}

/// Miners are told all of a job.
pub proof fn miners_are_told_the_whole_job(job: JobModel)
    ensures
        is_notify(notify_model(job), job),
{
    let params = seq![
        JsonModel::Text(job.job_id),
        JsonModel::Text(job.prevhash_be),
        JsonModel::Text(job.coinbase1),
        JsonModel::Text(job.coinbase2),
        JsonModel::Array(
            Seq::new(job.txs_hex.len(), |i: int| JsonModel::Text(job.txs_hex[i])),
        ),
        JsonModel::Text(job.version),
        JsonModel::Text(job.nbits),
        JsonModel::Text(job.ntime),
        JsonModel::Bool(true),
    ];
    assert(notify_model(job) == notification_model("mining.notify"@, params));
    a_notification_has_its_members("mining.notify"@, params);
}

/// A message goes over the wire as its JSON text and one line break at the end.
pub proof fn a_message_ends_its_line(message: JsonModel)
    ensures
        framed(message).len() == json_rendered(message).len() + 1,
        framed(message).drop_last() == json_rendered(message),
        framed(message).last() == '\n',
{
    assert(framed(message).drop_last() =~= json_rendered(message));
}

/// The web page is told the id of a job and the block that it builds on.
pub proof fn the_web_page_is_told_of_the_job(job: JobModel)
    ensures
        ({
            let message = sse_model(job);
            &&& message is Object
            &&& members(message).dom() == set!["type"@, "prevhash"@, "job_id"@]
            &&& members(message)["type"@] == JsonModel::Text("job"@)
            &&& members(message)["prevhash"@] == JsonModel::Text(job.prevhash)
            &&& members(message)["job_id"@] == JsonModel::Text(job.job_id)
        }),
{
    reveal_strlit("type");
    reveal_strlit("prevhash");
    reveal_strlit("job_id");
    assert("type"@.len() == 4 && "prevhash"@.len() == 8 && "job_id"@.len() == 6);
    assert(members(sse_model(job)).dom() =~= set!["type"@, "prevhash"@, "job_id"@]);
}

/// The metrics of a worker name it and its window, carry the hashrate as it is given, and have a
/// pair of start and count for each bucket, in order.
pub proof fn metrics_carry_every_bucket(
    worker: Seq<char>,
    window: i64,
    hashrate: JsonModel,
    buckets: Seq<(i64, i64)>,
)
    ensures
        ({
            let message = metrics_model(worker, window, hashrate, buckets);
            let spark = members(message)["spark"@]->Array_0;
            &&& message is Object
            &&& members(message).dom() == set![
                "worker"@,
                "window_secs"@,
                "hashrate_hps"@,
                "spark"@,
            ]
            &&& members(message)["worker"@] == JsonModel::Text(worker)
            &&& members(message)["window_secs"@] == JsonModel::Number(decimal(window as int))
            &&& members(message)["hashrate_hps"@] == hashrate
            &&& members(message)["spark"@] is Array
            &&& spark.len() == buckets.len()
            &&& forall|i: int|
                0 <= i < buckets.len() ==> {
                    &&& (#[trigger] spark[i]) is Array
                    &&& spark[i]->Array_0.len() == 2
                    &&& spark[i]->Array_0[0] == JsonModel::Number(decimal(buckets[i].0 as int))
                    &&& spark[i]->Array_0[1] == JsonModel::Number(decimal(buckets[i].1 as int))
                }
        }),
{
    reveal_strlit("worker");
    reveal_strlit("window_secs");
    reveal_strlit("hashrate_hps");
    reveal_strlit("spark");
    assert("worker"@.len() == 6 && "window_secs"@.len() == 11);
    assert("hashrate_hps"@.len() == 12 && "spark"@.len() == 5);
    assert(members(metrics_model(worker, window, hashrate, buckets)).dom() =~= set![
        "worker"@,
        "window_secs"@,
        "hashrate_hps"@,
        "spark"@,
    ]);
}

} // verus!

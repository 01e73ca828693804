//! The Stratum session: what the pool answers to each line that a miner sends, and what it does
//! with a submitted share.
use crate::chain::{
    block_hash_of, block_hash_text, compact_target, compute_transaction_id, encode_header,
    le_number, little_endian, parse_block_hash, show_block_hash, target_from_compact,
    target_is_met, transaction_id, BlockHeader, HeaderModel,
};
use crate::job::{notify_message, notify_model, texts, JobModel, StratumJob};
use crate::json::{
    as_elements, as_text, copy_json, error_model, error_value, json_array, json_bool, json_model,
    json_models, json_null, json_parsed, json_text, json_unsigned, member, notification,
    notification_model, parse_json, response, response_model, JsonModel,
};
use crate::merkle::{digest_views, merkle_root, merkle_root_from_txids, sha256d, sha256d_digest};
use crate::text::{
    blank, decimal, decode_hex, encode_hex, hex_bytes, hex_text, hex_u32, is_blank, parse_hex_u32,
    same_text,
};
use serde_json::Value;
use vstd::prelude::*;

verus! {

/// What the pool reads of a miner's message.
pub struct Request {
    /// The id that the reply carries, where there is one.
    pub id: Option<Value>,
    /// The method; empty where there is none.
    pub method: String,
    /// The parameters: the text of each one that is text.
    pub params: Vec<Option<String>>,
}

/// What a request says.
#[verifier::ext_equal]
pub struct RequestModel {
    pub id: Option<JsonModel>,
    pub method: Seq<char>,
    pub params: Seq<Option<Seq<char>>>,
}

/// The characters of each text that is there.
pub open spec fn optional_texts(strings: Seq<Option<String>>) -> Seq<Option<Seq<char>>> {
    Seq::new(
        strings.len(),
        |i: int|
            match strings[i] {
                Some(text) => Some(text@),
                None => None,
            },
    )
}

impl View for Request {
    type V = RequestModel;

    open spec fn view(&self) -> RequestModel {
        RequestModel {
            id: match self.id {
                Some(id) => Some(json_model(id)),
                None => None,
            },
            method: self.method@,
            params: optional_texts(self.params@),
        }
    }
}

/// The member of an object under `key`; none where the value is no object.
pub open spec fn member_of(model: JsonModel, key: Seq<char>) -> Option<JsonModel> {
    match model {
        JsonModel::Object(members) => if members.contains_key(key) {
            Some(members[key])
        } else {
            None
        },
        _ => None,
    }
}

/// The text of a text value.
pub open spec fn text_of(model: JsonModel) -> Option<Seq<char>> {
    match model {
        JsonModel::Text(text) => Some(text),
        _ => None,
    }
}

/// What the pool reads of a message: its id, its method if that is text, and of its parameters,
/// if they are an array, those that are text.
pub open spec fn request_of(message: JsonModel) -> RequestModel {
    RequestModel {
        id: member_of(message, "id"@),
        method: match member_of(message, "method"@) {
            Some(JsonModel::Text(method)) => method,
            _ => Seq::empty(),
        },
        params: match member_of(message, "params"@) {
            Some(JsonModel::Array(elements)) => Seq::new(
                elements.len(),
                |i: int| text_of(elements[i]),
            ),
            _ => Seq::empty(),
        },
    }
}

/// Reads a request out of a message.
pub fn read_request(message: &Value) -> (request: Request)
    ensures
        request@ == request_of(json_model(*message)),
{
    let id = match member(message, "id") {
        Some(id) => Some(copy_json(id)),
        None => None,
    };
    let method = match member(message, "method") {
        Some(method) => match as_text(method) {
            Some(text) => text.to_owned(),
            None => String::new(),
        },
        None => String::new(),
    };
    let mut params: Vec<Option<String>> = Vec::new();
    let ghost wanted = request_of(json_model(*message)).params;
    if let Some(list) = member(message, "params") {
        if let Some(elements) = as_elements(list) {
            let mut i: usize = 0;
            assert(optional_texts(params@) =~= wanted.take(0));
            while i < elements.len()
                invariant
                    i <= elements.len(),
                    wanted == Seq::new(
                        elements@.len(),
                        |i: int| text_of(json_models(elements@)[i]),
                    ),
                    optional_texts(params@) == wanted.take(i as int),
                decreases elements.len() - i,
            {
                assert(optional_texts(params@).len() == i);
                params.push(
                    match as_text(&elements[i]) {
                        Some(text) => Some(text.to_owned()),
                        None => None,
                    },
                );
                assert(optional_texts(params@) =~= wanted.take(i + 1));
                i += 1;
            }
            assert(wanted.take(i as int) =~= wanted);
        }
    }
    let request = Request { id, method, params };
    assert(request@ =~= request_of(json_model(*message)));
    request
}

/// A share that stands, if its job still builds on the best block.
pub struct Submission {
    /// The id that the reply carries.
    pub id: Value,
    pub worker: String,
    pub job: StratumJob,
    /// The coinbase transaction with the miner's extra nonce in its slot.
    pub coinbase: Vec<u8>,
    pub header: BlockHeader,
}

/// What a submission says.
#[verifier::ext_equal]
pub struct SubmissionModel {
    pub id: JsonModel,
    pub worker: Seq<char>,
    pub job: JobModel,
    pub coinbase: Seq<u8>,
    pub header: HeaderModel,
}

impl View for Submission {
    type V = SubmissionModel;

    open spec fn view(&self) -> SubmissionModel {
        SubmissionModel {
            id: json_model(self.id),
            worker: self.worker@,
            job: self.job@,
            coinbase: self.coinbase@,
            header: self.header@,
        }
    }
}

/// What is to be done about a line that a miner sent.
pub enum Step {
    /// Nothing.
    Ignore,
    /// Send a message, and go on even if it cannot be sent.
    Complain(Value),
    /// Send these messages.
    Send(Vec<Value>),
    /// End the session: there is no job to work on.
    Close,
    /// Ask the node for its best block, and judge the submission by it.
    CheckTip(Submission),
}

/// What a step says.
#[verifier::ext_equal]
pub enum StepModel {
    Ignore,
    Complain(JsonModel),
    Send(Seq<JsonModel>),
    Close,
    CheckTip(SubmissionModel),
}

impl View for Step {
    type V = StepModel;

    open spec fn view(&self) -> StepModel {
        match self {
            Step::Ignore => StepModel::Ignore,
            Step::Complain(message) => StepModel::Complain(json_model(*message)),
            Step::Send(messages) => StepModel::Send(json_models(messages@)),
            Step::Close => StepModel::Close,
            Step::CheckTip(submission) => StepModel::CheckTip(submission@),
        }
    }
}

/// The id that a reply carries: that of the request, or a number where it has none.
pub open spec fn reply_id(request: RequestModel, otherwise: int) -> JsonModel {
    match request.id {
        Some(id) => id,
        None => JsonModel::Number(decimal(otherwise)),
    }
}

/// A parameter of a request, where it is there and is text.
pub open spec fn param(request: RequestModel, index: int, otherwise: Seq<char>) -> Seq<char> {
    if index < request.params.len() && request.params[index] is Some {
        request.params[index]->0
    } else {
        otherwise
    }
}

/// The reply that grants a request.
pub open spec fn granted(id: JsonModel) -> JsonModel {
    response_model(id, JsonModel::Bool(true), JsonModel::Null)
}

/// The reply that refuses a share.
pub open spec fn refused(id: JsonModel, code: int, message: Seq<char>) -> JsonModel {
    response_model(id, JsonModel::Bool(false), error_model(code, message))
}

/// The reply to `mining.subscribe`: the two subscriptions, the pool's extra nonce, and how many
/// bytes of extra nonce the miner picks.
pub open spec fn subscription(id: JsonModel, job: JobModel) -> JsonModel {
    response_model(
        id,
        JsonModel::Array(
            seq![
                JsonModel::Array(
                    seq![
                        JsonModel::Array(
                            seq![JsonModel::Text("mining.set_difficulty"@), JsonModel::Text("1"@)],
                        ),
                        JsonModel::Array(
                            seq![JsonModel::Text("mining.notify"@), JsonModel::Text("2"@)],
                        ),
                    ],
                ),
                JsonModel::Text(job.ex1_hex),
                JsonModel::Number(decimal(job.ex2_len as int)),
            ],
        ),
        JsonModel::Null,
    )
}

/// The message that sets the share difficulty to one.
pub open spec fn difficulty_model() -> JsonModel {
    notification_model("mining.set_difficulty"@, seq![JsonModel::Number("1.0"@)])
}

/// The ids of those of `hexes` that spell a transaction, in order.
pub open spec fn known_ids(hexes: Seq<Seq<char>>) -> Seq<Seq<u8>>
    decreases hexes.len(),
{
    if hexes.len() == 0 {
        Seq::empty()
    } else {
        let before = known_ids(hexes.drop_last());
        match hex_bytes(hexes.last()) {
            Some(raw) => match transaction_id(raw) {
                Some(id) => before.push(id),
                None => before,
            },
            None => before,
        }
    }
}

/// The number that `text` spells in hexadecimal, or zero.
pub open spec fn hex_u32_or_zero(text: Seq<char>) -> u32 {
    match hex_u32(text) {
        Some(value) => value,
        None => 0,
    }
}

/// The header of a share: version, previous block and target of the job, the Merkle root over
/// the coinbase transaction and those of the job's other transactions that can be read, and the
/// miner's time and nonce. A number that cannot be read is zero, and so is a hash.
pub open spec fn share_header(
    job: JobModel,
    coinbase_id: Seq<u8>,
    ntime: Seq<char>,
    nonce: Seq<char>,
) -> HeaderModel {
    HeaderModel {
        version: hex_u32_or_zero(job.version),
        prev_blockhash: match block_hash_of(job.prevhash_be) {
            Some(hash) => hash,
            None => Seq::new(32, |i: int| 0u8),
        },
        merkle_root: merkle_root(seq![coinbase_id] + known_ids(job.txs_hex)),
        time: hex_u32_or_zero(ntime),
        bits: hex_u32_or_zero(job.nbits),
        nonce: hex_u32_or_zero(nonce),
    }
}

/// What is done about `mining.submit`: a share for another job is refused as stale, one whose
/// extra nonce is not as many bytes as the job wants for its size, and one that gives no
/// coinbase transaction for that; any other awaits the node's best block.
pub open spec fn submit_step(job: Option<JobModel>, request: RequestModel) -> StepModel {
    let id = reply_id(request, 3);
    match job {
        None => StepModel::Send(seq![refused(id, 21, "Stale job"@)]),
        Some(job) => if job.job_id != param(request, 1, Seq::empty()) {
            StepModel::Send(seq![refused(id, 21, "Stale job"@)])
        } else {
            match hex_bytes(param(request, 2, Seq::empty())) {
                None => StepModel::Send(seq![refused(id, 25, "bad ex2 size"@)]),
                Some(ex2) => if ex2.len() != job.ex2_len {
                    StepModel::Send(seq![refused(id, 25, "bad ex2 size"@)])
                } else {
                    match hex_bytes(job.coinbase1 + hex_text(ex2) + job.coinbase2) {
                        None => StepModel::Send(seq![refused(id, 23, "bad coinbase"@)]),
                        Some(coinbase) => match transaction_id(coinbase) {
                            None => StepModel::Send(seq![refused(id, 23, "bad coinbase"@)]),
                            Some(coinbase_id) => StepModel::CheckTip(
                                SubmissionModel {
                                    id,
                                    worker: param(request, 0, "unknown"@),
                                    job,
                                    coinbase,
                                    header: share_header(
                                        job,
                                        coinbase_id,
                                        param(request, 3, Seq::empty()),
                                        param(request, 4, Seq::empty()),
                                    ),
                                },
                            ),
                        },
                    }
                },
            }
        },
    }
}

/// Whether the second parameter of a request is the text `password`.
pub open spec fn gives_password(request: RequestModel, password: Seq<char>) -> bool {
    request.params.len() > 1 && request.params[1] == Some(password)
}

/// What is done about `mining.authorize`: it is granted, but where a miner password is set only
/// to a miner that gives it.
pub open spec fn authorize_step(password: Option<Seq<char>>, request: RequestModel) -> StepModel {
    let id = reply_id(request, 2);
    if password matches Some(password) && !gives_password(request, password) {
        StepModel::Send(seq![refused(id, 24, "Unauthorized worker"@)])
    } else {
        StepModel::Send(seq![granted(id)])
    }
}

/// What is done about a request while `job` is the current job and `password`, if any, the miner
/// password.
pub open spec fn request_step(
    job: Option<JobModel>,
    password: Option<Seq<char>>,
    request: RequestModel,
) -> StepModel {
    if request.method == "mining.subscribe"@ {
        match job {
            None => StepModel::Close,
            Some(job) => StepModel::Send(
                seq![subscription(reply_id(request, 1), job), difficulty_model(), notify_model(job)],
            ),
        }
    } else if request.method == "mining.authorize"@ {
        authorize_step(password, request)
    } else if request.method == "mining.submit"@ {
        submit_step(job, request)
    } else if request.method == "mining.extranonce.subscribe"@ {
        StepModel::Send(seq![granted(reply_id(request, 4))])
    } else {
        StepModel::Send(
            seq![
                response_model(
                    reply_id(request, 0),
                    JsonModel::Null,
                    error_model(-32601, "Method not found"@),
                ),
            ],
        )
    }
}

/// What is done about a line while `job` is the current job and `password`, if any, the miner
/// password: a blank line is passed over, and one that is no JSON is complained about.
pub open spec fn line_step(
    job: Option<JobModel>,
    password: Option<Seq<char>>,
    line: Seq<char>,
) -> StepModel {
    if is_blank(line) {
        StepModel::Ignore
    } else {
        match json_parsed(line) {
            None => StepModel::Complain(
                response_model(
                    JsonModel::Null,
                    JsonModel::Null,
                    error_model(-32700, "parse error"@),
                ),
            ),
            Some(message) => request_step(job, password, request_of(message)),
        }
    }
}

/// What the current job says, if there is one.
pub open spec fn job_view(job: Option<&StratumJob>) -> Option<JobModel> {
    match job {
        Some(job) => Some(job@),
        None => None,
    }
}

/// The characters of a text, if there is one.
pub open spec fn text_view(text: Option<&str>) -> Option<Seq<char>> {
    match text {
        Some(text) => Some(text@),
        None => None,
    }
}

pub(crate) fn id_or(request: &Request, otherwise: u64) -> (id: Value)
    ensures
        json_model(id) == reply_id(request@, otherwise as int),
{
    match &request.id {
        Some(id) => copy_json(id),
        None => json_unsigned(otherwise),
    }
}

fn param_or<'a>(request: &'a Request, index: usize, otherwise: &'a str) -> (text: &'a str)
    ensures
        text@ == param(request@, index as int, otherwise@),
{
    if index < request.params.len() {
        match &request.params[index] {
            Some(text) => text.as_str(),
            None => otherwise,
        }
    } else {
        otherwise
    }
}

pub(crate) fn send_one(message: Value) -> (step: Step)
    ensures
        step@ == StepModel::Send(seq![json_model(message)]),
{
    let mut messages: Vec<Value> = Vec::new();
    messages.push(message);
    assert(json_models(messages@) =~= seq![json_model(message)]);
    Step::Send(messages)
}

fn grant(id: Value) -> (message: Value)
    ensures
        json_model(message) == granted(json_model(id)),
{
    response(id, json_bool(true), json_null())
}

pub(crate) fn refuse(id: Value, code: i64, message: &str) -> (reply: Value)
    ensures
        json_model(reply) == refused(json_model(id), code as int, message@),
{
    response(id, json_bool(false), error_value(code, message))
}

fn array_of_two(first: Value, second: Value) -> (value: Value)
    ensures
        json_model(value) == JsonModel::Array(seq![json_model(first), json_model(second)]),
{
    let mut elements: Vec<Value> = Vec::new();
    elements.push(first);
    elements.push(second);
    assert(json_models(elements@) =~= seq![json_model(first), json_model(second)]);
    json_array(elements)
}

fn subscribe(id: Value, job: &StratumJob) -> (message: Value)
    ensures
        json_model(message) == subscription(json_model(id), job@),
{
    let difficulty = array_of_two(json_text("mining.set_difficulty"), json_text("1"));
    let notify = array_of_two(json_text("mining.notify"), json_text("2"));
    let mut result: Vec<Value> = Vec::new();
    result.push(array_of_two(difficulty, notify));
    result.push(json_text(&job.ex1_hex));
    result.push(json_unsigned(job.ex2_len as u64));
    assert(json_models(result@) =~= seq![
        json_model(result@[0]),
        JsonModel::Text(job.ex1_hex@),
        JsonModel::Number(decimal(job.ex2_len as int)),
    ]);
    response(id, json_array(result), json_null())
}

fn set_difficulty() -> (message: Value)
    ensures
        json_model(message) == difficulty_model(),
{
    let mut params: Vec<Value> = Vec::new();
    proof {
        reveal_strlit("1.0");
    }
    if let Some(one) = parse_json("1.0") {
        params.push(one);
    }
    assert(json_models(params@) =~= seq![JsonModel::Number("1.0"@)]);
    notification("mining.set_difficulty", params)
}

/// The transaction ids of a share: that of the coinbase, then those of the job's other
/// transactions that can be read.
fn share_ids(coinbase_id: [u8; 32], txs_hex: &Vec<String>) -> (ids: Vec<[u8; 32]>)
    ensures
        digest_views(ids@) == seq![coinbase_id@] + known_ids(texts(txs_hex@)),
{
    let ghost wanted = texts(txs_hex@);
    let mut ids: Vec<[u8; 32]> = Vec::new();
    ids.push(coinbase_id);
    assert(digest_views(ids@) =~= seq![coinbase_id@] + known_ids(wanted.take(0)));
    let mut i: usize = 0;
    while i < txs_hex.len()
        invariant
            i <= txs_hex.len(),
            wanted == texts(txs_hex@),
            digest_views(ids@) == seq![coinbase_id@] + known_ids(wanted.take(i as int)),
        decreases txs_hex.len() - i,
    {
        let ghost before = wanted.take(i as int);
        let ghost after = wanted.take(i + 1);
        let ghost views = digest_views(ids@);
        assert(after.drop_last() =~= before);
        assert(after.last() == txs_hex@[i as int]@);
        if let Some(raw) = decode_hex(&txs_hex[i]) {
            if let Some(id) = compute_transaction_id(&raw) {
                ids.push(id);
                assert(digest_views(ids@) =~= views.push(id@));
            }
        }
        assert(digest_views(ids@) =~= seq![coinbase_id@] + known_ids(after));
        i += 1;
    }
    assert(wanted.take(i as int) =~= wanted);
    ids
}

fn hex_or_zero(text: &str) -> (value: u32)
    ensures
        value == hex_u32_or_zero(text@),
{
    match parse_hex_u32(text) {
        Some(value) => value,
        None => 0,
    }
}

/// Makes the header of a share.
pub fn build_header(job: &StratumJob, coinbase_id: [u8; 32], ntime: &str, nonce: &str) -> (header:
    BlockHeader)
    ensures
        header@ == share_header(job@, coinbase_id@, ntime@, nonce@),
{
    let ids = share_ids(coinbase_id, &job.txs_hex);
    let prev_blockhash = match parse_block_hash(&job.prevhash_be) {
        Some(hash) => hash,
        None => {
            let zeros = [0u8; 32];
            assert(zeros@ =~= Seq::new(32, |i: int| 0u8));
            zeros
        },
    };
    BlockHeader {
        version: hex_or_zero(&job.version),
        prev_blockhash,
        merkle_root: merkle_root_from_txids(&ids),
        time: hex_or_zero(ntime),
        bits: hex_or_zero(&job.nbits),
        nonce: hex_or_zero(nonce),
    }
}

fn handle_submit(job: Option<&StratumJob>, request: &Request) -> (step: Step)
    ensures
        step@ == submit_step(job_view(job), request@),
{
    proof {
        reveal_strlit("");
        assert(""@ =~= Seq::<char>::empty());
    }
    let id = id_or(request, 3);
    let job = match job {
        Some(job) => job,
        None => {
            return send_one(refuse(id, 21, "Stale job"));
        },
    };
    if !same_text(&job.job_id, param_or(request, 1, "")) {
        return send_one(refuse(id, 21, "Stale job"));
    }
    let ex2 = match decode_hex(param_or(request, 2, "")) {
        Some(ex2) => ex2,
        None => {
            return send_one(refuse(id, 25, "bad ex2 size"));
        },
    };
    if ex2.len() != job.ex2_len {
        return send_one(refuse(id, 25, "bad ex2 size"));
    }
    let mut coinbase_hex = job.coinbase1.clone();
    coinbase_hex.append(&encode_hex(&ex2));
    coinbase_hex.append(&job.coinbase2);
    let coinbase = match decode_hex(&coinbase_hex) {
        Some(coinbase) => coinbase,
        None => {
            return send_one(refuse(id, 23, "bad coinbase"));
        },
    };
    let coinbase_id = match compute_transaction_id(&coinbase) {
        Some(coinbase_id) => coinbase_id,
        None => {
            return send_one(refuse(id, 23, "bad coinbase"));
        },
    };
    let header = build_header(job, coinbase_id, param_or(request, 3, ""), param_or(request, 4, ""));
    Step::CheckTip(
        Submission {
            id,
            worker: param_or(request, 0, "unknown").to_owned(),
            job: job.clone(),
            coinbase,
            header,
        },
    )
}

pub(crate) fn password_is_given(request: &Request, password: &str) -> (given: bool)
    ensures
        given == gives_password(request@, password@),
{
    if request.params.len() > 1 {
        match &request.params[1] {
            Some(text) => same_text(text, password),
            None => false,
        }
    } else {
        false
    }
}

fn handle_authorize(password: Option<&str>, request: &Request) -> (step: Step)
    ensures
        step@ == authorize_step(text_view(password), request@),
{
    let id = id_or(request, 2);
    let allowed = match password {
        Some(password) => password_is_given(request, password),
        None => true,
    };
    if allowed {
        send_one(grant(id))
    } else {
        send_one(refuse(id, 24, "Unauthorized worker"))
    }
}

/// Decides what is done about a request while `job` is the current job and `password`, if any,
/// the miner password.
pub fn handle_request(job: Option<&StratumJob>, password: Option<&str>, request: &Request) -> (step:
    Step)
    ensures
        step@ == request_step(job_view(job), text_view(password), request@),
{
    let method: &str = &request.method;
    if same_text(method, "mining.subscribe") {
        match job {
            None => Step::Close,
            Some(job) => {
                let mut messages: Vec<Value> = Vec::new();
                messages.push(subscribe(id_or(request, 1), job));
                messages.push(set_difficulty());
                messages.push(notify_message(job));
                assert(json_models(messages@) =~= seq![
                    subscription(reply_id(request@, 1), job@),
                    difficulty_model(),
                    notify_model(job@),
                ]);
                Step::Send(messages)
            },
        }
    } else if same_text(method, "mining.authorize") {
        handle_authorize(password, request)
    } else if same_text(method, "mining.submit") {
        handle_submit(job, request)
    } else if same_text(method, "mining.extranonce.subscribe") {
        send_one(grant(id_or(request, 4)))
    } else {
        let error = error_value(-32601, "Method not found");
        send_one(response(id_or(request, 0), json_null(), error))
    }
}

/// The request that a line holds; `None` where the line is blank or no JSON.
pub open spec fn line_request(line: Seq<char>) -> Option<RequestModel> {
    if is_blank(line) {
        None
    } else {
        match json_parsed(line) {
            Some(message) => Some(request_of(message)),
            None => None,
        }
    }
}

/// Reads the request that a line holds, or says what is done about a line that holds none.
pub(crate) fn read_line(line: &str) -> (read: Result<Request, Step>)
    ensures
        match read {
            Ok(request) => line_request(line@) == Some(request@),
            Err(step) => line_request(line@) is None && step@ == line_step(None, None, line@),
        },
{
    if blank(line) {
        return Err(Step::Ignore);
    }
    match parse_json(line) {
        None => {
            let error = error_value(-32700, "parse error");
            Err(Step::Complain(response(json_null(), json_null(), error)))
        },
        Some(message) => Ok(read_request(&message)),
    }
}

/// Decides what is done about a line while `job` is the current job and `password`, if any, the
/// miner password.
pub fn handle_line(job: Option<&StratumJob>, password: Option<&str>, line: &str) -> (step: Step)
    ensures
        step@ == line_step(job_view(job), text_view(password), line@),
{
    match read_line(line) {
        Ok(request) => handle_request(job, password, &request),
        Err(step) => step,
    }
}

/// A share that the pool accepts.
pub struct AcceptedShare {
    pub worker: String,
    /// The reply to the miner.
    pub reply: Value,
    /// The serialized header.
    pub header: Vec<u8>,
    /// The serialized coinbase transaction.
    pub coinbase: Vec<u8>,
    pub job: StratumJob,
    /// Whether the share solves the block.
    pub meets_block: bool,
}

/// What an accepted share says.
#[verifier::ext_equal]
pub struct AcceptedShareModel {
    pub worker: Seq<char>,
    pub reply: JsonModel,
    pub header: Seq<u8>,
    pub coinbase: Seq<u8>,
    pub job: JobModel,
    pub meets_block: bool,
}

impl View for AcceptedShare {
    type V = AcceptedShareModel;

    open spec fn view(&self) -> AcceptedShareModel {
        AcceptedShareModel {
            worker: self.worker@,
            reply: json_model(self.reply),
            header: self.header@,
            coinbase: self.coinbase@,
            job: self.job@,
            meets_block: self.meets_block,
        }
    }
}

/// What becomes of a submission.
pub enum Verdict {
    /// Its job does not build on the best block; this is the reply.
    Stale(Value),
    Accepted(AcceptedShare),
}

/// What a verdict says.
#[verifier::ext_equal]
pub enum VerdictModel {
    Stale(JsonModel),
    Accepted(AcceptedShareModel),
}

impl View for Verdict {
    type V = VerdictModel;

    open spec fn view(&self) -> VerdictModel {
        match self {
            Verdict::Stale(reply) => VerdictModel::Stale(json_model(*reply)),
            Verdict::Accepted(share) => VerdictModel::Accepted(share@),
        }
    }
}

/// Whether the header's hash meets the target that the header carries.
pub open spec fn meets_target(header: HeaderModel) -> bool {
    le_number(sha256d_digest(header.bytes())) <= compact_target(header.bits)
}

/// What becomes of a submission when the node's best block is `best`; a node that names none is
/// taken to name the hash of zeros.
pub open spec fn verdict_of(submission: SubmissionModel, best: Option<Seq<u8>>) -> VerdictModel {
    let tip = match best {
        Some(hash) => hash,
        None => Seq::new(32, |i: int| 0u8),
    };
    if block_hash_text(tip) != submission.job.prevhash_be {
        VerdictModel::Stale(refused(submission.id, 21, "Stale: tip changed"@))
    } else {
        VerdictModel::Accepted(
            AcceptedShareModel {
                worker: submission.worker,
                reply: granted(submission.id),
                header: submission.header.bytes(),
                coinbase: submission.coinbase,
                job: submission.job,
                meets_block: meets_target(submission.header),
            },
        )
    }
}

/// The bytes of a hash, if there is one.
pub open spec fn hash_view(hash: Option<[u8; 32]>) -> Option<Seq<u8>> {
    match hash {
        Some(hash) => Some(hash@),
        None => None,
    }
}

/// Judges a submission by the node's best block.
pub fn judge_submission(submission: Submission, best: Option<[u8; 32]>) -> (verdict: Verdict)
    ensures
        verdict@ == verdict_of(submission@, hash_view(best)),
        verdict matches Verdict::Accepted(share) ==> share.header@.len() == 80,
{
    let tip = match best {
        Some(hash) => hash,
        None => {
            let zeros = [0u8; 32];
            assert(zeros@ =~= Seq::new(32, |i: int| 0u8));
            zeros
        },
    };
    if !same_text(&show_block_hash(&tip), &submission.job.prevhash_be) {
        return Verdict::Stale(refuse(submission.id, 21, "Stale: tip changed"));
    }
    let header = encode_header(&submission.header);
    proof {
        reveal_with_fuel(little_endian, 5);
    }
    let target = target_from_compact(submission.header.bits);
    let meets_block = target_is_met(&target, &sha256d(&header));
    Verdict::Accepted(
        AcceptedShare {
            worker: submission.worker,
            reply: grant(submission.id),
            header,
            coinbase: submission.coinbase,
            job: submission.job,
            meets_block,
        },
    )
}

/// What came of a solved block.
pub enum BlockOutcome {
    /// It could not be put together, or the node refused it.
    Rejected,
    /// The node took it, and names no best block.
    Accepted,
    /// The node took it; its best block now, and the height of that where the node tells it.
    AcceptedAs { best: [u8; 32], height: Option<u64> },
}

/// What is recorded of a solved block.
pub struct BlockRecord {
    pub height: Option<i64>,
    pub hash: String,
    pub status: String,
    /// The worker that a share is recorded for, if one is.
    pub credited: Option<String>,
}

/// What a record says.
#[verifier::ext_equal]
pub struct BlockRecordModel {
    pub height: Option<i64>,
    pub hash: Seq<char>,
    pub status: Seq<char>,
    pub credited: Option<Seq<char>>,
}

impl View for BlockRecord {
    type V = BlockRecordModel;

    open spec fn view(&self) -> BlockRecordModel {
        BlockRecordModel {
            height: self.height,
            hash: self.hash@,
            status: self.status@,
            credited: match self.credited {
                Some(worker) => Some(worker@),
                None => None,
            },
        }
    }
}

/// A height as the database holds it, in sixty-four bits with a sign.
pub open spec fn signed_height(height: u64) -> i64 {
    if height <= i64::MAX {
        height as i64
    } else {
        (height - 0x1_0000_0000_0000_0000) as i64
    }
}

/// What is recorded of a solved block: a rejected one by the digest of its header, an accepted
/// one by the node's best block, with a share for its worker, and nothing where the node took
/// it and names no best block.
pub open spec fn record_of(share: AcceptedShareModel, outcome: BlockOutcome) -> Option<
    BlockRecordModel,
> {
    match outcome {
        BlockOutcome::Rejected => Some(
            BlockRecordModel {
                height: None,
                hash: hex_text(sha256d_digest(share.header)),
                status: "rejected"@,
                credited: None,
            },
        ),
        BlockOutcome::Accepted => None,
        BlockOutcome::AcceptedAs { best, height } => Some(
            BlockRecordModel {
                height: match height {
                    Some(height) => Some(signed_height(height)),
                    None => None,
                },
                hash: block_hash_text(best@),
                status: "accepted"@,
                credited: Some(share.worker),
            },
        ),
    }
}

/// Decides what is recorded of a solved block.
pub fn record_block(share: &AcceptedShare, outcome: &BlockOutcome) -> (record: Option<BlockRecord>)
    ensures
        record is Some == record_of(share@, *outcome) is Some,
        record is Some ==> Some((record->0)@) == record_of(share@, *outcome),
{
    match outcome {
        BlockOutcome::Rejected => Some(
            BlockRecord {
                height: None,
                hash: encode_hex(&sha256d(&share.header)),
                status: "rejected".to_owned(),
                credited: None,
            },
        ),
        BlockOutcome::Accepted => None,
        BlockOutcome::AcceptedAs { best, height } => Some(
            BlockRecord {
                height: match height {
                    Some(height) => Some(
                        if *height <= 0x7fff_ffff_ffff_ffff {
                            *height as i64
                        } else {
                            (*height - 0x8000_0000_0000_0000) as i64 + i64::MIN
                        },
                    ),
                    None => None,
                },
                hash: show_block_hash(best),
                status: "accepted".to_owned(),
                credited: Some(share.worker.clone()),
            },
        ),
    }
}

/// A broadcast message as it goes to a miner: its text and a line break.
pub fn forward(message: &str) -> (line: String)
    ensures
        line@ == message@ + seq!['\n'],
{
    let mut line = message.to_owned();
    line.append("\n");
    proof {
        reveal_strlit("\n");
    }
    assert(line@ =~= message@ + seq!['\n']);
    line
}

} // verus!

//! Jobs: how one is made of a block template, when a new one is published, and what block a
//! solved one gives.
use crate::chain::{
    block_hash_text, compute_transaction_id, decodes_as_header, show_block_hash, transaction_id,
};
use crate::coinbase::{
    build_coinbase, coinbase_bytes, slot_start, EXTRANONCE1_LEN, EXTRANONCE2_LEN,
};
use crate::json::{
    json_array, json_bool, json_model, json_models, json_rendered, json_text, notification,
    notification_model, object_of_three, render_json, JsonModel,
};
use crate::text::{
    big_endian, decode_hex, digits, encode_hex, fixed_hex, hex_bytes, hex_text, same_text, short_hex,
};
use serde_json::Value;
use vstd::prelude::*;

verus! {

/// What miners work on.
#[derive(Debug)]
pub struct StratumJob {
    pub job_id: String,
    /// The previous block's hash, as it is shown.
    pub prevhash: String,
    /// The previous block's hash, as it is sent to miners.
    pub prevhash_be: String,
    /// The coinbase transaction up to the miner's extra nonce, in hexadecimal.
    pub coinbase1: String,
    /// The coinbase transaction past the miner's extra nonce, in hexadecimal.
    pub coinbase2: String,
    pub merkle_branch: Vec<String>,
    pub version: String,
    pub nbits: String,
    pub ntime: String,
    pub clean_jobs: bool,
    /// What the coinbase pays, in satoshi.
    pub coinbase_value: u64,
    pub extranonce1: String,
    pub witness_commitment: Option<String>,
    pub coinbasetxn_hex: String,
    /// The other transactions of the block, in hexadecimal.
    pub txs_hex: Vec<String>,
    pub ex1_len: usize,
    pub ex2_len: usize,
    /// The pool's extra nonce, in hexadecimal.
    pub ex1_hex: String,
}

/// What a job says.
#[verifier::ext_equal]
pub struct JobModel {
    pub job_id: Seq<char>,
    pub prevhash: Seq<char>,
    pub prevhash_be: Seq<char>,
    pub coinbase1: Seq<char>,
    pub coinbase2: Seq<char>,
    pub merkle_branch: Seq<Seq<char>>,
    pub version: Seq<char>,
    pub nbits: Seq<char>,
    pub ntime: Seq<char>,
    pub clean_jobs: bool,
    pub coinbase_value: u64,
    pub extranonce1: Seq<char>,
    pub witness_commitment: Option<Seq<char>>,
    pub coinbasetxn_hex: Seq<char>,
    pub txs_hex: Seq<Seq<char>>,
    pub ex1_len: usize,
    pub ex2_len: usize,
    pub ex1_hex: Seq<char>,
}

/// The characters of each text.
pub open spec fn texts(strings: Seq<String>) -> Seq<Seq<char>> {
    Seq::new(strings.len(), |i: int| strings[i]@)
}

/// The bytes of each buffer.
pub open spec fn byte_views(buffers: Seq<Vec<u8>>) -> Seq<Seq<u8>> {
    Seq::new(buffers.len(), |i: int| buffers[i]@)
}

impl View for StratumJob {
    type V = JobModel;

    open spec fn view(&self) -> JobModel {
        JobModel {
            job_id: self.job_id@,
            prevhash: self.prevhash@,
            prevhash_be: self.prevhash_be@,
            coinbase1: self.coinbase1@,
            coinbase2: self.coinbase2@,
            merkle_branch: texts(self.merkle_branch@),
            version: self.version@,
            nbits: self.nbits@,
            ntime: self.ntime@,
            clean_jobs: self.clean_jobs,
            coinbase_value: self.coinbase_value,
            extranonce1: self.extranonce1@,
            witness_commitment: match self.witness_commitment {
                Some(text) => Some(text@),
                None => None,
            },
            coinbasetxn_hex: self.coinbasetxn_hex@,
            txs_hex: texts(self.txs_hex@),
            ex1_len: self.ex1_len,
            ex2_len: self.ex2_len,
            ex1_hex: self.ex1_hex@,
        }
    }
}

fn copy_texts(strings: &Vec<String>) -> (copy: Vec<String>)
    ensures
        texts(copy@) == texts(strings@),
{
    let mut copy: Vec<String> = Vec::new();
    let mut i: usize = 0;
    while i < strings.len()
        invariant
            i <= strings.len(),
            texts(copy@) == texts(strings@).take(i as int),
        decreases strings.len() - i,
    {
        assert(texts(copy@).len() == i);
        copy.push(strings[i].clone());
        assert(texts(copy@) =~= texts(strings@).take(i + 1));
        i += 1;
    }
    assert(texts(copy@) =~= texts(strings@));
    copy
}

impl Clone for StratumJob {
    fn clone(&self) -> (copy: StratumJob)
        ensures
            copy@ == self@,
    {
        StratumJob {
            job_id: self.job_id.clone(),
            prevhash: self.prevhash.clone(),
            prevhash_be: self.prevhash_be.clone(),
            coinbase1: self.coinbase1.clone(),
            coinbase2: self.coinbase2.clone(),
            merkle_branch: copy_texts(&self.merkle_branch),
            version: self.version.clone(),
            nbits: self.nbits.clone(),
            ntime: self.ntime.clone(),
            clean_jobs: self.clean_jobs,
            coinbase_value: self.coinbase_value,
            extranonce1: self.extranonce1.clone(),
            witness_commitment: match &self.witness_commitment {
                Some(text) => Some(text.clone()),
                None => None,
            },
            coinbasetxn_hex: self.coinbasetxn_hex.clone(),
            txs_hex: copy_texts(&self.txs_hex),
            ex1_len: self.ex1_len,
            ex2_len: self.ex2_len,
            ex1_hex: self.ex1_hex.clone(),
        }
    }
}

/// What the node proposes for the next block.
#[derive(Debug)]
pub struct BlockTemplate {
    pub version: u32,
    /// The previous block's hash, in the order in which it is computed.
    pub previous_block_hash: [u8; 32],
    /// The compact target, the most significant byte first.
    pub bits: Vec<u8>,
    /// In seconds since 1970.
    pub current_time: u64,
    pub height: u64,
    /// What the coinbase may pay, in satoshi.
    pub coinbase_value: u64,
    /// The serialized transactions beside the coinbase.
    pub transactions: Vec<Vec<u8>>,
    /// The script that commits to the witnesses; empty where there is none.
    pub default_witness_commitment: Vec<u8>,
}

impl BlockTemplate {
    /// The height, in thirty-two bits.
    pub open spec fn height_u32(self) -> u32 {
        (self.height % 0x1_0000_0000) as u32
    }

    /// The time, in thirty-two bits.
    pub open spec fn time_u32(self) -> u32 {
        (self.current_time % 0x1_0000_0000) as u32
    }

    /// The hexadecimal text of each transaction.
    pub open spec fn transaction_texts(self) -> Seq<Seq<char>> {
        Seq::new(self.transactions@.len(), |i: int| hex_text(self.transactions@[i]@))
    }
}

/// The job that `template` gives under the pool's extra nonce `ex1` and the job number
/// `number`.
pub open spec fn job_of(template: BlockTemplate, ex1: Seq<u8>, number: u64) -> JobModel {
    let height = template.height_u32();
    let coinbase = coinbase_bytes(height, ex1, template.coinbase_value);
    JobModel {
        job_id: digits(number as nat, 16),
        prevhash: block_hash_text(template.previous_block_hash@),
        prevhash_be: block_hash_text(template.previous_block_hash@),
        coinbase1: hex_text(coinbase.take(slot_start(height))),
        coinbase2: hex_text(coinbase.skip(slot_start(height) + EXTRANONCE2_LEN)),
        merkle_branch: Seq::empty(),
        version: hex_text(big_endian(template.version)),
        nbits: hex_text(template.bits@),
        ntime: hex_text(big_endian(template.time_u32())),
        clean_jobs: true,
        coinbase_value: template.coinbase_value,
        extranonce1: Seq::empty(),
        witness_commitment: if template.default_witness_commitment@.len() == 0 {
            None
        } else {
            Some(hex_text(template.default_witness_commitment@))
        },
        coinbasetxn_hex: Seq::empty(),
        txs_hex: template.transaction_texts(),
        ex1_len: EXTRANONCE1_LEN,
        ex2_len: EXTRANONCE2_LEN,
        ex1_hex: hex_text(ex1),
    }
}

fn transaction_texts(transactions: &Vec<Vec<u8>>) -> (result: Vec<String>)
    ensures
        texts(result@) == Seq::new(transactions@.len(), |i: int| hex_text(transactions@[i]@)),
{
    let ghost wanted = Seq::new(transactions@.len(), |i: int| hex_text(transactions@[i]@));
    let mut result: Vec<String> = Vec::new();
    let mut i: usize = 0;
    while i < transactions.len()
        invariant
            i <= transactions.len(),
            wanted == Seq::new(transactions@.len(), |i: int| hex_text(transactions@[i]@)),
            texts(result@) == wanted.take(i as int),
        decreases transactions.len() - i,
    {
        assert(texts(result@).len() == i);
        result.push(encode_hex(&transactions[i]));
        assert(texts(result@) =~= wanted.take(i + 1));
        i += 1;
    }
    assert(wanted.take(i as int) =~= wanted);
    result
}

/// Makes the job of a template.
pub fn make_job(template: &BlockTemplate, ex1: &[u8; 4], number: u64) -> (job: StratumJob)
    ensures
        job@ == job_of(*template, ex1@, number),
{
    let height: u32 = (template.height % 0x1_0000_0000) as u32;
    let time: u32 = (template.current_time % 0x1_0000_0000) as u32;
    let (coinbase1, coinbase2) = build_coinbase(height, ex1, template.coinbase_value);
    let job = StratumJob {
        job_id: short_hex(number),
        prevhash: show_block_hash(&template.previous_block_hash),
        prevhash_be: show_block_hash(&template.previous_block_hash),
        coinbase1,
        coinbase2,
        merkle_branch: Vec::new(),
        version: fixed_hex(template.version),
        nbits: encode_hex(&template.bits),
        ntime: fixed_hex(time),
        clean_jobs: true,
        coinbase_value: template.coinbase_value,
        extranonce1: String::new(),
        witness_commitment: if template.default_witness_commitment.len() == 0 {
            None
        } else {
            Some(encode_hex(&template.default_witness_commitment))
        },
        coinbasetxn_hex: String::new(),
        txs_hex: transaction_texts(&template.transactions),
        ex1_len: EXTRANONCE1_LEN,
        ex2_len: EXTRANONCE2_LEN,
        ex1_hex: encode_hex(ex1),
    };
    assert(job@ =~= job_of(*template, ex1@, number));
    job
}

/// Each text as a JSON value.
pub open spec fn text_models(strings: Seq<Seq<char>>) -> Seq<JsonModel> {
    Seq::new(strings.len(), |i: int| JsonModel::Text(strings[i]))
}

/// The `mining.notify` message of a job: its id, the previous block's hash, the two halves of
/// the coinbase, the whole list of the other transactions, version, target, time, and the
/// order to drop older jobs.
pub open spec fn notify_model(job: JobModel) -> JsonModel {
    notification_model(
        "mining.notify"@,
        seq![
            JsonModel::Text(job.job_id),
            JsonModel::Text(job.prevhash_be),
            JsonModel::Text(job.coinbase1),
            JsonModel::Text(job.coinbase2),
            JsonModel::Array(text_models(job.txs_hex)),
            JsonModel::Text(job.version),
            JsonModel::Text(job.nbits),
            JsonModel::Text(job.ntime),
            JsonModel::Bool(true),
        ],
    )
}

/// The message that tells the web page of a new job.
pub open spec fn sse_model(job: JobModel) -> JsonModel {
    JsonModel::Object(
        map![
            "type"@ => JsonModel::Text("job"@),
            "prevhash"@ => JsonModel::Text(job.prevhash),
            "job_id"@ => JsonModel::Text(job.job_id),
        ],
    )
}

fn text_values(strings: &Vec<String>) -> (values: Vec<Value>)
    ensures
        json_models(values@) == text_models(texts(strings@)),
{
    let ghost wanted = text_models(texts(strings@));
    let mut values: Vec<Value> = Vec::new();
    let mut i: usize = 0;
    while i < strings.len()
        invariant
            i <= strings.len(),
            wanted == text_models(texts(strings@)),
            json_models(values@) == wanted.take(i as int),
        decreases strings.len() - i,
    {
        assert(json_models(values@).len() == i);
        values.push(json_text(&strings[i]));
        assert(json_models(values@) =~= wanted.take(i + 1));
        i += 1;
    }
    assert(wanted.take(i as int) =~= wanted);
    values
}

/// Makes the `mining.notify` message of a job.
pub fn notify_message(job: &StratumJob) -> (message: Value)
    ensures
        json_model(message) == notify_model(job@),
{
    let mut params: Vec<Value> = Vec::new();
    params.push(json_text(&job.job_id));
    params.push(json_text(&job.prevhash_be));
    params.push(json_text(&job.coinbase1));
    params.push(json_text(&job.coinbase2));
    params.push(json_array(text_values(&job.txs_hex)));
    params.push(json_text(&job.version));
    params.push(json_text(&job.nbits));
    params.push(json_text(&job.ntime));
    params.push(json_bool(true));
    assert(json_models(params@) =~= seq![
        JsonModel::Text(job.job_id@),
        JsonModel::Text(job.prevhash_be@),
        JsonModel::Text(job.coinbase1@),
        JsonModel::Text(job.coinbase2@),
        JsonModel::Array(text_models(texts(job.txs_hex@))),
        JsonModel::Text(job.version@),
        JsonModel::Text(job.nbits@),
        JsonModel::Text(job.ntime@),
        JsonModel::Bool(true),
    ]);
    notification("mining.notify", params)
}

/// Makes the message that tells the web page of a new job.
pub fn sse_message(job: &StratumJob) -> (message: Value)
    ensures
        json_model(message) == sse_model(job@),
{
    object_of_three(
        ("type", json_text("job")),
        ("prevhash", json_text(&job.prevhash)),
        ("job_id", json_text(&job.job_id)),
    )
}

/// How long after one job the next may be published, in nanoseconds.
pub const PUBLISH_GAP_NS: i64 = 200_000_000;

/// How long ago the last publication is taken to lie when there was none, in nanoseconds.
pub const INITIAL_AGE_NS: i64 = 10_000_000_000;

/// The current job, and when a job was last published. Times are nanoseconds of a clock that
/// never runs backwards, counted from any fixed moment.
pub struct JobManager {
    pub current_job: Option<StratumJob>,
    pub last_publish: i64,
}

/// What a refresh did.
pub enum RefreshOutcome {
    /// A job was published too recently; nothing changed.
    Throttled,
    /// The template gives no new job; nothing changed.
    Unchanged,
    /// There is a new current job, and these are the messages to the web page and to the
    /// miners.
    Published { sse: String, notify: String },
}

impl JobManager {
    /// What the current job says.
    pub open spec fn job(self) -> Option<JobModel> {
        match self.current_job {
            Some(job) => Some(job@),
            None => None,
        }
    }

    /// Whether it is too early for another job.
    pub open spec fn is_throttled(self, now: i64) -> bool {
        now - self.last_publish < PUBLISH_GAP_NS
    }

    /// Whether the current job builds on the same block and has as many transactions as
    /// `template`.
    pub open spec fn is_repeated_by(self, template: BlockTemplate) -> bool {
        &&& self.current_job is Some
        &&& (self.current_job->0).prevhash_be@ == block_hash_text(template.previous_block_hash@)
        &&& (self.current_job->0).txs_hex@.len() == template.transactions@.len()
    }

    /// What a refresh does under the extra nonce `ex1` and the job number `number`.
    pub open spec fn refreshes_to(
        self,
        template: BlockTemplate,
        now: i64,
        ex1: Seq<u8>,
        number: u64,
        after: JobManager,
        outcome: RefreshOutcome,
    ) -> bool {
        if self.is_throttled(now) {
            outcome is Throttled && after == self
        } else if self.is_repeated_by(template) {
            outcome is Unchanged && after == self
        } else {
            let job = job_of(template, ex1, number);
            &&& after.job() == Some(job)
            &&& after.last_publish == now
            &&& outcome matches RefreshOutcome::Published { sse, notify }
            &&& sse@ == json_rendered(sse_model(job))
            &&& notify@ == json_rendered(notify_model(job))
        }
    }

    /// Starts without a job, ready to publish one.
    pub fn new(now: i64) -> (manager: JobManager)
        requires
            now >= i64::MIN + INITIAL_AGE_NS,
        ensures
            manager.current_job is None,
            manager.last_publish == now - INITIAL_AGE_NS,
    {
        JobManager { current_job: None, last_publish: now - INITIAL_AGE_NS }
    }

    /// A copy of the current job.
    pub fn get_current_job(&self) -> (job: Option<StratumJob>)
        ensures
            job is Some == self.current_job is Some,
            job is Some ==> Some((job->0)@) == self.job(),
    {
        match &self.current_job {
            Some(job) => Some(job.clone()),
            None => None,
        }
    }

    /// Whether it is too early for another job.
    fn throttled(&self, now: i64) -> (throttled: bool)
        ensures
            throttled == self.is_throttled(now),
    {
        (now as i128) - (self.last_publish as i128) < PUBLISH_GAP_NS as i128
    }

    /// Whether `template` gives nothing new.
    fn repeated_by(&self, template: &BlockTemplate) -> (repeated: bool)
        ensures
            repeated == self.is_repeated_by(*template),
    {
        match &self.current_job {
            Some(job) => {
                let prevhash = show_block_hash(&template.previous_block_hash);
                same_text(&job.prevhash_be, &prevhash) && job.txs_hex.len()
                    == template.transactions.len()
            },
            None => false,
        }
    }

    /// Takes a new template in, with a given extra nonce and job number.
    pub fn refresh_job_with(
        &mut self,
        template: &BlockTemplate,
        now: i64,
        ex1: &[u8; 4],
        number: u64,
    ) -> (outcome: RefreshOutcome)
        ensures
            old(self).refreshes_to(*template, now, ex1@, number, *final(self), outcome),
    {
        if self.throttled(now) {
            return RefreshOutcome::Throttled;
        }
        if self.repeated_by(template) {
            return RefreshOutcome::Unchanged;
        }
        let job = make_job(template, ex1, number);
        let sse = render_json(&sse_message(&job));
        let notify = render_json(&notify_message(&job));
        self.current_job = Some(job);
        self.last_publish = now;
        RefreshOutcome::Published { sse, notify }
    }

    /// Takes a new template in, with an extra nonce and a job number drawn at random.
    pub fn refresh_job(&mut self, template: &BlockTemplate, now: i64) -> (outcome: RefreshOutcome)
        ensures
            exists|ex1: [u8; 4], number: u64|
                #[trigger] old(self).refreshes_to(
                    *template,
                    now,
                    ex1@,
                    number,
                    *final(self),
                    outcome,
                ),
    {
        let ex1 = random_extranonce();
        let number: u64 = random_job_number();
        let outcome = self.refresh_job_with(template, now, &ex1, number);
        assert(old(self).refreshes_to(*template, now, ex1@, number, *self, outcome));
        outcome
    }

    /// Puts a solved block together: the header, the coinbase transaction, and the job's other
    /// transactions in order.
    pub fn submit_from_header_and_template(
        header_bytes: Vec<u8>,
        coinbase_bytes: Vec<u8>,
        job: &StratumJob,
    ) -> (block: Result<BlockParts, SubmitError>)
        ensures
            match block {
                Ok(parts) => block_of(header_bytes@, coinbase_bytes@, job@.txs_hex) == Ok::<
                    _,
                    SubmitError,
                >((parts.header@, byte_views(parts.transactions@))),
                Err(error) => block_of(header_bytes@, coinbase_bytes@, job@.txs_hex) == Err::<
                    (Seq<u8>, Seq<Seq<u8>>),
                    _,
                >(error),
            },
    {
        if !decodes_as_header(&header_bytes) {
            return Err(SubmitError::Header);
        }
        if compute_transaction_id(&coinbase_bytes).is_none() {
            return Err(SubmitError::Coinbase);
        }
        let ghost coinbase = coinbase_bytes@;
        let ghost wanted = texts(job.txs_hex@);
        let mut transactions: Vec<Vec<u8>> = Vec::new();
        transactions.push(coinbase_bytes);
        assert(byte_views(transactions@) =~= seq![coinbase]);
        let mut i: usize = 0;
        while i < job.txs_hex.len()
            invariant
                i <= job.txs_hex.len(),
                header_bytes@.len() == 80,
                transaction_id(coinbase) is Some,
                coinbase == coinbase_bytes@,
                wanted == texts(job.txs_hex@),
                decode_all(wanted.take(i as int)) is Ok,
                byte_views(transactions@) == seq![coinbase] + decode_all(wanted.take(i as int))->Ok_0,
            decreases job.txs_hex.len() - i,
        {
            let ghost before = wanted.take(i as int);
            let ghost after = wanted.take(i + 1);
            assert(after.drop_last() =~= before);
            assert(after.last() == job.txs_hex@[i as int]@);
            match decode_hex(&job.txs_hex[i]) {
                None => {
                    proof {
                        first_failure_stays(wanted, i + 1);
                    }
                    return Err(SubmitError::TransactionHex);
                },
                Some(raw) => {
                    if compute_transaction_id(&raw).is_none() {
                        proof {
                            first_failure_stays(wanted, i + 1);
                        }
                        return Err(SubmitError::Transaction);
                    }
                    let ghost views = byte_views(transactions@);
                    let ghost raw_bytes = raw@;
                    transactions.push(raw);
                    assert(byte_views(transactions@) =~= views.push(raw_bytes));
                    assert(byte_views(transactions@) =~= seq![coinbase] + decode_all(after)->Ok_0);
                },
            }
            i += 1;
        }
        assert(wanted.take(i as int) =~= wanted);
        Ok(BlockParts { header: header_bytes, transactions })
    }
}

/// Calls `rand::random` for four bytes. Nothing is known of them.
#[verifier::external_body]
fn random_extranonce() -> (ex1: [u8; 4]) {
    rand::random()
}

/// Calls `rand::random` for a 64-bit number. Nothing is known of it.
#[verifier::external_body]
fn random_job_number() -> (number: u64) {
    rand::random()
}

/// A block, ready to be submitted.
#[derive(Debug)]
pub struct BlockParts {
    /// The serialized header.
    pub header: Vec<u8>,
    /// The serialized transactions, the coinbase first.
    pub transactions: Vec<Vec<u8>>,
}

/// Why no block can be put together.
#[derive(Debug, Clone, Copy, PartialEq, Eq)]
pub enum SubmitError {
    /// The header is not one.
    Header,
    /// The coinbase is no transaction.
    Coinbase,
    /// A transaction of the job is no hexadecimal text.
    TransactionHex,
    /// A transaction of the job is no transaction.
    Transaction,
}

impl SubmitError {
    /// What failed, in words.
    pub open spec fn words(self) -> Seq<char> {
        match self {
            SubmitError::Header => "deserialize header"@,
            SubmitError::Coinbase => "deserialize coinbase"@,
            SubmitError::TransactionHex => "decode tx hex"@,
            SubmitError::Transaction => "deserialize tx"@,
        }
    }

    /// Says what failed.
    pub fn message(&self) -> (message: &'static str)
        ensures
            message@ == self.words(),
    {
        match self {
            SubmitError::Header => "deserialize header",
            SubmitError::Coinbase => "deserialize coinbase",
            SubmitError::TransactionHex => "decode tx hex",
            SubmitError::Transaction => "deserialize tx",
        }
    }
}

/// The transactions that `hexes` spell, or what is wrong with the first one that spells none.
pub open spec fn decode_all(hexes: Seq<Seq<char>>) -> Result<Seq<Seq<u8>>, SubmitError>
    decreases hexes.len(),
{
    if hexes.len() == 0 {
        Ok(Seq::empty())
    } else {
        match decode_all(hexes.drop_last()) {
            Err(error) => Err(error),
            Ok(before) => match hex_bytes(hexes.last()) {
                None => Err(SubmitError::TransactionHex),
                Some(raw) => if transaction_id(raw) is Some {
                    Ok(before.push(raw))
                } else {
                    Err(SubmitError::Transaction)
                },
            },
        }
    }
}

/// The block of a header, a coinbase transaction and the other transactions, or the first
/// thing that is wrong with them.
pub open spec fn block_of(header: Seq<u8>, coinbase: Seq<u8>, hexes: Seq<Seq<char>>) -> Result<
    (Seq<u8>, Seq<Seq<u8>>),
    SubmitError,
> {
    if header.len() != 80 {
        Err(SubmitError::Header)
    } else if transaction_id(coinbase) is None {
        Err(SubmitError::Coinbase)
    } else {
        match decode_all(hexes) {
            Err(error) => Err(error),
            Ok(others) => Ok((header, seq![coinbase] + others)),
        }
    }
}

/// Where a beginning of `hexes` fails to decode, all of it fails in the same way.
pub(crate) proof fn first_failure_stays(hexes: Seq<Seq<char>>, upto: int)
    requires
        0 <= upto <= hexes.len(),
        decode_all(hexes.take(upto)) is Err,
    ensures
        decode_all(hexes) == decode_all(hexes.take(upto)),
    decreases hexes.len(),
{
    if upto == hexes.len() {
        assert(hexes.take(upto) =~= hexes);
    } else {
        assert(hexes.drop_last().take(upto) =~= hexes.take(upto));
        first_failure_stays(hexes.drop_last(), upto);
    }
}

} // verus!

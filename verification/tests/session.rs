use serde_json::Value;
use solo_rs_pool::job::{
    make_job, notify_message, sse_message, BlockTemplate, JobManager, RefreshOutcome, StratumJob,
    SubmitError,
};
use solo_rs_pool::json::{error_value, frame, notification, response};
use solo_rs_pool::session::{admits, handle_session_line, next_standing, Standing};
use solo_rs_pool::stratum::{
    build_header, forward, handle_line, handle_request, judge_submission, read_request, record_block,
    AcceptedShare, BlockOutcome, Request, Step, Submission, Verdict,
};

const SECOND: i64 = 1_000_000_000;

const GENESIS_COINBASE_1: &str = "01000000010000000000000000000000000000000000000000000000000000000000000000ffffffff4d04";
const GENESIS_EX2: &str = "ffff001d";
const GENESIS_COINBASE_2: &str = "0104455468652054696d65732030332f4a616e2f32303039204368616e63656c6c6f72206f6e206272696e6b206f66207365636f6e64206261696c6f757420666f722062616e6b73ffffffff0100f2052a01000000434104678afdb0fe5548271967f1a67130b7105cd6a828e03909a67962e0ea1f61deb649f6bc3f4cef38c4f35504e51ec112de5c384df7ba0b8d578a4c702b6bf11d5fac00000000";
const GENESIS_HASH: &str = "000000000019d6689c085ae165831e934ff763ae46a2a6c172b3f1b60a8ce26f";

fn json(text: &str) -> Value {
    serde_json::from_str(text).unwrap()
}

/// A segwit transaction with one input and one output.
fn segwit_tx() -> Vec<u8> {
    let raw = format!(
        "02000000000101{}0000000000fdffffff01e803000000000000015101020304aa00000000",
        "11".repeat(32)
    );
    let raw = raw.replace("01020304aa", "0104aabbccdd");
    hex::decode(raw).unwrap()
}

fn legacy_tx() -> Vec<u8> {
    hex::decode(format!("{}{}{}", GENESIS_COINBASE_1, GENESIS_EX2, GENESIS_COINBASE_2)).unwrap()
}

fn prev_hash() -> [u8; 32] {
    let mut hash = [0u8; 32];
    for (i, b) in hash.iter_mut().enumerate() {
        *b = i as u8;
    }
    hash
}

const PREV_TEXT: &str = "1f1e1d1c1b1a191817161514131211100f0e0d0c0b0a09080706050403020100";

fn template() -> BlockTemplate {
    BlockTemplate {
        version: 0x2000_0000,
        previous_block_hash: prev_hash(),
        bits: vec![0x20, 0x7f, 0xff, 0xff],
        current_time: 0x1_6553_f100,
        height: 0x5_0000_00c8,
        coinbase_value: 5_000_000_000,
        transactions: vec![legacy_tx(), segwit_tx()],
        default_witness_commitment: vec![0x6a, 0x24],
    }
}

fn genesis_job() -> StratumJob {
    let mut job = make_job(&template(), &[0; 4], 0xabc);
    job.prevhash_be = "0".repeat(64);
    job.coinbase1 = GENESIS_COINBASE_1.to_string();
    job.coinbase2 = GENESIS_COINBASE_2.to_string();
    job.version = "00000001".to_string();
    job.nbits = "1d00ffff".to_string();
    job.txs_hex = vec![];
    job
}

fn sent(step: Step) -> Vec<Value> {
    match step {
        Step::Send(messages) => messages,
        _ => panic!("nothing is sent"),
    }
}

fn pending(step: Step) -> Submission {
    match step {
        Step::CheckTip(submission) => submission,
        _ => panic!("no share"),
    }
}

fn accepted(verdict: Verdict) -> AcceptedShare {
    match verdict {
        Verdict::Accepted(share) => share,
        Verdict::Stale(reply) => panic!("{}", reply),
    }
}

fn submit_line(job_id: &str, ex2: &str, ntime: &str, nonce: &str) -> String {
    format!(
        r#"{{"id":9,"method":"mining.submit","params":["rig.1","{}","{}","{}","{}"]}}"#,
        job_id, ex2, ntime, nonce
    )
}

#[test]
fn a_job_says_what_its_template_says() {
    let job = make_job(&template(), &[0xa1, 0xb2, 0xc3, 0xd4], 0xbeef);
    assert_eq!(job.job_id, "beef");
    assert_eq!(job.prevhash, PREV_TEXT);
    assert_eq!(job.prevhash_be, PREV_TEXT);
    let head = format!("0100000001{}ffffffff0d", "00".repeat(32));
    assert_eq!(job.coinbase1, format!("{}02c80004a1b2c3d404", head));
    assert_eq!(job.coinbase2, "ffffffff0100f2052a01000000010000000000");
    assert!(job.merkle_branch.is_empty());
    assert_eq!(job.version, "20000000");
    assert_eq!(job.nbits, "207fffff");
    assert_eq!(job.ntime, "6553f100");
    assert!(job.clean_jobs);
    assert_eq!(job.coinbase_value, 5_000_000_000);
    assert_eq!(job.extranonce1, "");
    assert_eq!(job.witness_commitment, Some("6a24".to_string()));
    assert_eq!(job.coinbasetxn_hex, "");
    assert_eq!(job.txs_hex, vec![hex::encode(legacy_tx()), hex::encode(segwit_tx())]);
    assert_eq!((job.ex1_len, job.ex2_len), (4, 4));
    assert_eq!(job.ex1_hex, "a1b2c3d4");
    let mut plain = template();
    plain.default_witness_commitment = vec![];
    assert_eq!(make_job(&plain, &[0; 4], 0).witness_commitment, None);
    assert_eq!(make_job(&plain, &[0; 4], 0).job_id, "0");
}

#[test]
fn a_copied_job_is_the_same() {
    let job = make_job(&template(), &[1, 2, 3, 4], 5);
    assert_eq!(format!("{:?}", job.clone()), format!("{:?}", job));
}

#[test]
fn refreshing_is_throttled_and_deduplicated() {
    let mut manager = JobManager::new(100 * SECOND);
    assert!(manager.get_current_job().is_none());
    assert_eq!(manager.last_publish, 90 * SECOND);
    let mut next = template();
    let outcome = manager.refresh_job_with(&next, 100 * SECOND, &[1, 2, 3, 4], 1);
    let (sse, notify) = match outcome {
        RefreshOutcome::Published { sse, notify } => (sse, notify),
        _ => panic!("the first template is published"),
    };
    let job = manager.get_current_job().unwrap();
    assert_eq!(sse, format!(r#"{{"job_id":"1","prevhash":"{}","type":"job"}}"#, PREV_TEXT));
    assert_eq!(json(&notify), notify_message(&job));
    let outcome = manager.refresh_job_with(&next, 100 * SECOND + 199_999_999, &[0; 4], 2);
    assert!(matches!(outcome, RefreshOutcome::Throttled));
    assert_eq!(manager.last_publish, 100 * SECOND);
    let outcome = manager.refresh_job_with(&next, 100 * SECOND + 200_000_000, &[0; 4], 2);
    assert!(matches!(outcome, RefreshOutcome::Unchanged));
    assert_eq!(manager.last_publish, 100 * SECOND);
    assert_eq!(manager.get_current_job().unwrap().job_id, "1");
    next.transactions.pop();
    let outcome = manager.refresh_job_with(&next, 101 * SECOND, &[0; 4], 2);
    assert!(matches!(outcome, RefreshOutcome::Published { .. }));
    assert_eq!(manager.get_current_job().unwrap().job_id, "2");
    next.previous_block_hash = [9; 32];
    let outcome = manager.refresh_job_with(&next, 102 * SECOND, &[0; 4], 3);
    assert!(matches!(outcome, RefreshOutcome::Published { .. }));
    let outcome = manager.refresh_job_with(&next, 50 * SECOND, &[0; 4], 4);
    assert!(matches!(outcome, RefreshOutcome::Throttled));
}

#[test]
fn only_a_publication_starts_the_throttle() {
    let mut manager = JobManager::new(0);
    let mut next = template();
    assert!(matches!(manager.refresh_job(&next, 0), RefreshOutcome::Published { .. }));
    assert!(matches!(manager.refresh_job(&next, 10 * SECOND), RefreshOutcome::Unchanged));
    next.previous_block_hash = [7; 32];
    let soon = 10 * SECOND + 100_000_000;
    assert!(matches!(manager.refresh_job(&next, soon), RefreshOutcome::Published { .. }));
    assert_eq!(manager.get_current_job().unwrap().prevhash_be, "07".repeat(32));
    assert_eq!(manager.last_publish, soon);
    next.previous_block_hash = [8; 32];
    assert!(matches!(manager.refresh_job(&next, soon + 199_999_999), RefreshOutcome::Throttled));
    assert!(matches!(
        manager.refresh_job(&next, soon + 200_000_000),
        RefreshOutcome::Published { .. }
    ));
}

#[test]
fn a_refresh_draws_its_own_numbers() {
    let mut ids = Vec::new();
    let mut nonces = Vec::new();
    for _ in 0..8 {
        let mut manager = JobManager::new(0);
        assert!(matches!(manager.refresh_job(&template(), 0), RefreshOutcome::Published { .. }));
        let job = manager.get_current_job().unwrap();
        assert_eq!(job.ex1_hex.len(), 8);
        assert_eq!(hex::decode(&job.coinbase1).unwrap()[46..50], hex::decode(&job.ex1_hex).unwrap()[..]);
        assert!(u64::from_str_radix(&job.job_id, 16).is_ok());
        ids.push(job.job_id);
        nonces.push(job.ex1_hex);
    }
    ids.sort();
    ids.dedup();
    nonces.sort();
    nonces.dedup();
    assert!(ids.len() > 1);
    assert!(nonces.len() > 1);
}

#[test]
fn messages_have_their_wire_form() {
    let id = json("[1.25,{\"a\":\"b\"}]");
    let reply = response(id, Value::Null, error_value(-32601, "Method not found"));
    let line = r#"{"error":{"code":-32601,"message":"Method not found"},"id":[1.25,{"a":"b"}],"result":null}"#;
    assert_eq!(frame(&reply), format!("{}\n", line));
    let message = notification("m", vec![Value::from("line\nbreak")]);
    assert_eq!(frame(&message), "{\"id\":null,\"method\":\"m\",\"params\":[\"line\\nbreak\"]}\n");
    assert_eq!(forward("{}"), "{}\n");
    let job = make_job(&template(), &[0; 4], 7);
    assert_eq!(
        sse_message(&job),
        json(&format!(r#"{{"type":"job","prevhash":"{}","job_id":"7"}}"#, PREV_TEXT))
    );
}

#[test]
fn requests_are_read_leniently() {
    let request = read_request(&json(r#"{"id":null,"method":"x","params":["a",1,null,"b"]}"#));
    assert_eq!(request.id, Some(Value::Null));
    assert_eq!(request.method, "x");
    assert_eq!(request.params, vec![Some("a".to_string()), None, None, Some("b".to_string())]);
    for odd in ["[]", "\"method\"", "5", "{}", r#"{"method":5,"params":{"0":"a"}}"#] {
        let request = read_request(&json(odd));
        assert_eq!(request.id, None);
        assert_eq!(request.method, "");
        assert!(request.params.is_empty());
    }
}

#[test]
fn blank_lines_and_nonsense() {
    assert!(matches!(handle_line(None, None, "  \t"), Step::Ignore));
    match handle_line(None, None, "{nonsense") {
        Step::Complain(reply) => assert_eq!(
            reply,
            json(r#"{"id":null,"error":{"code":-32700,"message":"parse error"},"result":null}"#)
        ),
        _ => panic!("no complaint"),
    }
    let reply = sent(handle_line(None, None, r#"{"id":"q","method":"mining.configure"}"#));
    let wanted = r#"{"id":"q","result":null,"error":{"code":-32601,"message":"Method not found"}}"#;
    assert_eq!(reply, vec![json(wanted)]);
    let reply = sent(handle_line(None, None, "[]"));
    let wanted = r#"{"id":0,"result":null,"error":{"code":-32601,"message":"Method not found"}}"#;
    assert_eq!(reply, vec![json(wanted)]);
}

#[test]
fn subscribing_gives_the_current_job() {
    assert!(matches!(handle_line(None, None, r#"{"id":1,"method":"mining.subscribe"}"#), Step::Close));
    let job = make_job(&template(), &[0xa1, 0xb2, 0xc3, 0xd4], 0x77);
    let messages = sent(handle_line(Some(&job), None, r#"{"method":"mining.subscribe","params":[]}"#));
    assert_eq!(messages.len(), 3);
    assert_eq!(
        messages[0],
        json(r#"{"id":1,"result":[[["mining.set_difficulty","1"],["mining.notify","2"]],"a1b2c3d4",4],"error":null}"#)
    );
    assert_eq!(
        frame(&messages[1]),
        "{\"id\":null,\"method\":\"mining.set_difficulty\",\"params\":[1.0]}\n"
    );
    let notify = json(&format!(
        r#"{{"id":null,"method":"mining.notify","params":["77","{}","{}","{}",["{}","{}"],"20000000","207fffff","6553f100",true]}}"#,
        PREV_TEXT, job.coinbase1, job.coinbase2, job.txs_hex[0], job.txs_hex[1]
    ));
    assert_eq!(messages[2], notify);
    assert_eq!(notify_message(&job), notify);
}

#[test]
fn a_subscriber_sees_what_was_broadcast() {
    let mut manager = JobManager::new(0);
    let notify = match manager.refresh_job(&template(), 0) {
        RefreshOutcome::Published { notify, .. } => notify,
        _ => panic!("the first template is published"),
    };
    let job = manager.get_current_job();
    let messages = sent(handle_line(job.as_ref(), None, r#"{"id":1,"method":"mining.subscribe"}"#));
    assert_eq!(frame(&messages[2]), forward(&notify));
}

#[test]
fn authorizing_is_granted() {
    let reply = sent(handle_line(None, None, r#"{"id":5,"method":"mining.authorize","params":["u","p"]}"#));
    assert_eq!(reply, vec![json(r#"{"id":5,"result":true,"error":null}"#)]);
    let reply = sent(handle_line(None, None, r#"{"method":"mining.authorize"}"#));
    assert_eq!(reply, vec![json(r#"{"id":2,"result":true,"error":null}"#)]);
    let reply = sent(handle_line(None, None, r#"{"method":"mining.extranonce.subscribe"}"#));
    assert_eq!(reply, vec![json(r#"{"id":4,"result":true,"error":null}"#)]);
}

#[test]
fn a_miner_password_is_asked_for() {
    let granted = json(r#"{"id":5,"result":true,"error":null}"#);
    let refused =
        json(r#"{"id":5,"result":false,"error":{"code":24,"message":"Unauthorized worker"}}"#);
    let line = |params: &str| format!(r#"{{"id":5,"method":"mining.authorize","params":{}}}"#, params);
    for (params, reply) in [
        (r#"["rig","secret"]"#, &granted),
        (r#"["rig","secret","more"]"#, &granted),
        (r#"["rig","Secret"]"#, &refused),
        (r#"["secret","rig"]"#, &refused),
        (r#"["rig",""]"#, &refused),
        (r#"["rig",5]"#, &refused),
        (r#"["rig"]"#, &refused),
        (r#"{"1":"secret"}"#, &refused),
    ] {
        assert_eq!(sent(handle_line(None, Some("secret"), &line(params))), vec![reply.clone()]);
        assert_eq!(sent(handle_line(None, None, &line(params))), vec![granted.clone()]);
    }
    assert_eq!(sent(handle_line(None, Some(""), &line(r#"["rig"]"#))), vec![refused.clone()]);
    let nameless = sent(handle_line(None, Some("secret"), r#"{"method":"mining.authorize"}"#));
    assert_eq!(nameless[0]["id"], Value::from(2));
    assert_eq!(nameless[0]["result"], Value::from(false));
    let other = sent(handle_line(None, Some("secret"), r#"{"method":"mining.extranonce.subscribe"}"#));
    assert_eq!(other[0]["result"], Value::from(true));
}

#[test]
fn shares_are_refused_with_a_reason() {
    let job = genesis_job();
    let stale = json(r#"{"id":9,"result":false,"error":{"code":21,"message":"Stale job"}}"#);
    let size = json(r#"{"id":9,"result":false,"error":{"code":25,"message":"bad ex2 size"}}"#);
    let coinbase = json(r#"{"id":9,"result":false,"error":{"code":23,"message":"bad coinbase"}}"#);
    let good = submit_line("abc", GENESIS_EX2, "0", "0");
    assert_eq!(sent(handle_line(None, None, &good)), vec![stale.clone()]);
    assert_eq!(sent(handle_line(Some(&job), None, &submit_line("ABC", GENESIS_EX2, "0", "0"))), vec![stale]);
    for ex2 in ["", "ffff00", "ffff001d00", "ffff001", "gggggggg"] {
        assert_eq!(sent(handle_line(Some(&job), None, &submit_line("abc", ex2, "0", "0"))), vec![size.clone()]);
    }
    let mut odd = genesis_job();
    odd.coinbase1.push('0');
    assert_eq!(sent(handle_line(Some(&odd), None, &good)), vec![coinbase.clone()]);
    let mut long = genesis_job();
    long.coinbase2.push_str("00");
    assert_eq!(sent(handle_line(Some(&long), None, &good)), vec![coinbase]);
    let nameless = sent(handle_line(Some(&job), None, r#"{"method":"mining.submit"}"#));
    assert_eq!(nameless[0], json(r#"{"id":3,"result":false,"error":{"code":21,"message":"Stale job"}}"#));
}

#[test]
fn the_genesis_block_is_solved() {
    let job = genesis_job();
    let line = submit_line("abc", GENESIS_EX2, "495fab29", "7c2bac1d");
    let submission = pending(handle_line(Some(&job), None, &line));
    assert_eq!(submission.worker, "rig.1");
    assert_eq!(submission.coinbase, legacy_tx());
    assert_eq!(submission.header.version, 1);
    assert_eq!(submission.header.bits, 0x1d00_ffff);
    let mut root = submission.header.merkle_root;
    root.reverse();
    assert_eq!(
        hex::encode(root),
        "4a5e1e4baab89f3a32518a88c31bc87f618f76673e2cc77ab2127b7afdeda33b"
    );
    let share = accepted(judge_submission(submission, None));
    assert!(share.meets_block);
    assert_eq!(share.header.len(), 80);
    assert_eq!(share.reply, json(r#"{"id":9,"result":true,"error":null}"#));
    let parts = JobManager::submit_from_header_and_template(
        share.header.clone(),
        share.coinbase.clone(),
        &share.job,
    )
    .unwrap();
    let header: bitcoin::block::Header = bitcoin::consensus::deserialize(&parts.header).unwrap();
    assert_eq!(header.block_hash().to_string(), GENESIS_HASH);
    assert_eq!(parts.transactions, vec![legacy_tx()]);

    let rejected = record_block(&share, &BlockOutcome::Rejected).unwrap();
    let mut digest = hex::decode(&rejected.hash).unwrap();
    digest.reverse();
    assert_eq!(hex::encode(digest), GENESIS_HASH);
    assert_eq!(rejected.height, None);
    assert_eq!(rejected.status, "rejected");
    assert_eq!(rejected.credited, None);
    assert!(record_block(&share, &BlockOutcome::Accepted).is_none());
    let outcome = BlockOutcome::AcceptedAs { best: prev_hash(), height: Some(7) };
    let record = record_block(&share, &outcome).unwrap();
    assert_eq!(record.height, Some(7));
    assert_eq!(record.hash, PREV_TEXT);
    assert_eq!(record.status, "accepted");
    assert_eq!(record.credited, Some("rig.1".to_string()));
    let outcome = BlockOutcome::AcceptedAs { best: prev_hash(), height: None };
    assert_eq!(record_block(&share, &outcome).unwrap().height, None);
    let outcome = BlockOutcome::AcceptedAs { best: prev_hash(), height: Some(u64::MAX) };
    assert_eq!(record_block(&share, &outcome).unwrap().height, Some(-1));
}

#[test]
fn another_nonce_solves_nothing() {
    let job = genesis_job();
    let line = submit_line("abc", GENESIS_EX2, "495fab29", "7c2bac1e");
    let share = accepted(judge_submission(pending(handle_line(Some(&job), None, &line)), None));
    assert!(!share.meets_block);
    let mut easy = genesis_job();
    for (nbits, meets) in [
        ("20ffffff", false),
        ("227fffff", true),
        ("01010000", false),
        ("00000000", false),
        ("not hex", false),
    ] {
        easy.nbits = nbits.to_string();
        let share = accepted(judge_submission(pending(handle_line(Some(&easy), None, &line)), None));
        let header: bitcoin::block::Header = bitcoin::consensus::deserialize(&share.header).unwrap();
        assert_eq!(share.meets_block, header.target().is_met_by(header.block_hash()), "{}", nbits);
        if nbits != "227fffff" {
            assert_eq!(share.meets_block, meets, "{}", nbits);
        }
    }
}

#[test]
fn a_share_stands_only_on_the_best_block() {
    let job = make_job(&template(), &[1, 2, 3, 4], 0x55);
    let line = submit_line("55", "deadbeef", "6553f105", "0000002a");
    let submission = pending(handle_line(Some(&job), None, &line));
    assert_eq!(submission.header.version, 0x2000_0000);
    assert_eq!(submission.header.prev_blockhash, prev_hash());
    assert_eq!(submission.header.bits, 0x207f_ffff);
    assert_eq!(submission.header.time, 0x6553_f105);
    assert_eq!(submission.header.nonce, 42);
    assert_eq!(
        hex::encode(&submission.coinbase),
        format!("{}deadbeef{}", job.coinbase1, job.coinbase2)
    );
    match judge_submission(submission, Some([0; 32])) {
        Verdict::Stale(reply) => assert_eq!(
            reply,
            json(r#"{"id":9,"result":false,"error":{"code":21,"message":"Stale: tip changed"}}"#)
        ),
        Verdict::Accepted(_) => panic!("another tip"),
    }
    let none = judge_submission(pending(handle_line(Some(&job), None, &line)), None);
    assert!(matches!(none, Verdict::Stale(_)));
    let share = accepted(judge_submission(pending(handle_line(Some(&job), None, &line)), Some(prev_hash())));
    assert_eq!(share.worker, "rig.1");
}

#[test]
fn the_block_holds_the_whole_template() {
    let template = template();
    let job = make_job(&template, &[1, 2, 3, 4], 0x55);
    let line = submit_line("55", "00000000", "6553f105", "1");
    let submission = pending(handle_line(Some(&job), None, &line));
    let root = submission.header.merkle_root;
    let share = accepted(judge_submission(submission, Some(prev_hash())));
    let parts =
        JobManager::submit_from_header_and_template(share.header, share.coinbase.clone(), &job).unwrap();
    assert_eq!(parts.transactions.len(), 3);
    assert_eq!(parts.transactions[0], share.coinbase);
    assert_eq!(parts.transactions[1..], template.transactions[..]);
    let txdata: Vec<bitcoin::Transaction> = parts
        .transactions
        .iter()
        .map(|raw| bitcoin::consensus::deserialize(raw).unwrap())
        .collect();
    let header: bitcoin::block::Header = bitcoin::consensus::deserialize(&parts.header).unwrap();
    let block = bitcoin::Block { header, txdata };
    assert!(block.check_merkle_root());
    assert_eq!(bitcoin_hashes::Hash::to_byte_array(block.header.merkle_root), root);
}

#[test]
fn unreadable_transactions_are_left_out_of_the_root_and_fail_the_block() {
    let mut job = make_job(&template(), &[1, 2, 3, 4], 0x55);
    let with = build_header(&job, [5; 32], "0", "0");
    job.txs_hex.push("zz".to_string());
    job.txs_hex.push("00".to_string());
    assert_eq!(build_header(&job, [5; 32], "0", "0"), with);
    let submit = |header: usize, coinbase: Vec<u8>, job: &StratumJob| {
        JobManager::submit_from_header_and_template(vec![0; header], coinbase, job).err()
    };
    assert_eq!(submit(80, legacy_tx(), &job), Some(SubmitError::TransactionHex));
    job.txs_hex.remove(2);
    assert_eq!(submit(80, legacy_tx(), &job), Some(SubmitError::Transaction));
    assert_eq!(submit(79, legacy_tx(), &job), Some(SubmitError::Header));
    assert_eq!(submit(81, vec![], &job), Some(SubmitError::Header));
    assert_eq!(submit(80, vec![1], &job), Some(SubmitError::Coinbase));
    assert_eq!(SubmitError::Header.message(), "deserialize header");
    assert_eq!(SubmitError::Coinbase.message(), "deserialize coinbase");
    assert_eq!(SubmitError::TransactionHex.message(), "decode tx hex");
    assert_eq!(SubmitError::Transaction.message(), "deserialize tx");
}

#[test]
fn odd_numbers_in_a_job_or_share_are_zero() {
    let mut job = make_job(&template(), &[1, 2, 3, 4], 0x55);
    job.version = "100000000".to_string();
    job.prevhash_be = "xyz".to_string();
    job.nbits = String::new();
    let header = build_header(&job, [5; 32], "zz", "-1");
    assert_eq!((header.version, header.bits, header.time, header.nonce), (0, 0, 0, 0));
    assert_eq!(header.prev_blockhash, [0; 32]);
    job.prevhash_be = PREV_TEXT.to_uppercase();
    assert_eq!(build_header(&job, [5; 32], "+10", "ff").prev_blockhash, prev_hash());
    assert_eq!(build_header(&job, [5; 32], "+10", "ff").time, 16);
}

#[test]
fn a_request_can_be_made_by_hand() {
    let request = Request {
        id: None,
        method: "mining.submit".to_string(),
        params: vec![None, Some("abc".to_string()), Some(GENESIS_EX2.to_string())],
    };
    let submission = pending(handle_request(Some(&genesis_job()), None, &request));
    assert_eq!(submission.worker, "unknown");
    assert_eq!(submission.id, Value::from(3));
    assert_eq!((submission.header.time, submission.header.nonce), (0, 0));
}

#[test]
fn one_input_and_one_output_make_a_transaction() {
    let mut job = make_job(&template(), &[1, 2, 3, 4], 0x55);
    for (sig, key) in [(0usize, 0usize), (1, 252), (252, 1), (4, 4)] {
        let mut raw = vec![0xff; 4];
        raw.push(1);
        raw.extend_from_slice(&[0xee; 36]);
        raw.push(sig as u8);
        raw.extend(vec![0xab; sig]);
        raw.extend_from_slice(&[0; 4]);
        raw.push(1);
        raw.extend_from_slice(&[0xff; 8]);
        raw.push(key as u8);
        raw.extend(vec![0xcd; key]);
        raw.extend_from_slice(&[0xff; 4]);
        job.txs_hex = vec![hex::encode(&raw)];
        let digest = <bitcoin_hashes::sha256d::Hash as bitcoin_hashes::Hash>::hash(&raw);
        let both = [[5u8; 32], bitcoin_hashes::Hash::to_byte_array(digest)].concat();
        let root = <bitcoin_hashes::sha256d::Hash as bitcoin_hashes::Hash>::hash(&both);
        let header = build_header(&job, [5; 32], "0", "0");
        assert_eq!(header.merkle_root, bitcoin_hashes::Hash::to_byte_array(root));
        let parts =
            JobManager::submit_from_header_and_template(vec![0; 80], raw.clone(), &job).unwrap();
        assert_eq!(parts.transactions, vec![raw.clone(), raw.clone()]);
        raw.push(0);
        let longer = JobManager::submit_from_header_and_template(vec![0; 80], raw, &job);
        assert_eq!(longer.err(), Some(SubmitError::Coinbase));
    }
}

#[test]
fn a_job_outlives_every_refresh() {
    let mut manager = JobManager::new(0);
    let mut next = template();
    for round in 0..6u64 {
        next.height = round;
        next.transactions.push(legacy_tx());
        manager.refresh_job_with(&next, round as i64 * 150_000_000, &[9; 4], round);
        let job = manager.get_current_job().unwrap();
        assert_eq!(job.prevhash, PREV_TEXT);
        assert_eq!(job.ex1_hex, "09090909");
    }
    assert_eq!(manager.get_current_job().unwrap().job_id, "4");
}

#[test]
fn shares_are_taken_from_authorized_miners_only() {
    let job = genesis_job();
    let share = submit_line("abc", GENESIS_EX2, "495fab29", "7c2bac1d");
    let subscribe = r#"{"id":1,"method":"mining.subscribe","params":[]}"#;
    let wrong = r#"{"id":2,"method":"mining.authorize","params":["rig","guess"]}"#;
    let right = r#"{"id":2,"method":"mining.authorize","params":["rig","secret"]}"#;
    let unauthorized =
        |id: u64| json(&format!(r#"{{"id":{},"result":false,"error":{{"code":24,"message":"Unauthorized worker"}}}}"#, id));
    let play = |standing: Standing, line: &str| {
        handle_session_line(standing, Some(&job), Some("secret"), line)
    };

    let (standing, step) = play(Standing::Unasked, subscribe);
    assert_eq!(standing, Standing::Unasked);
    assert_eq!(sent(step).len(), 3);
    let (standing, step) = play(standing, &share);
    assert_eq!(standing, Standing::Unasked);
    assert_eq!(sent(step), vec![unauthorized(9)]);
    let (standing, step) = play(standing, wrong);
    assert_eq!(standing, Standing::Refused);
    assert_eq!(sent(step), vec![unauthorized(2)]);
    let (standing, step) = play(standing, &share);
    assert_eq!(sent(step), vec![unauthorized(9)]);
    let (standing, step) = play(standing, subscribe);
    assert_eq!(standing, Standing::Refused);
    assert_eq!(sent(step), vec![unauthorized(1)]);
    let (standing, step) = play(standing, right);
    assert_eq!(standing, Standing::Authorized);
    assert_eq!(sent(step), vec![json(r#"{"id":2,"result":true,"error":null}"#)]);
    let (standing, step) = play(standing, "  ");
    assert_eq!(standing, Standing::Authorized);
    assert!(matches!(step, Step::Ignore));
    let (standing, step) = play(standing, "{");
    assert_eq!(standing, Standing::Authorized);
    assert!(matches!(step, Step::Complain(_)));
    let (standing, step) = play(standing, &share);
    assert_eq!(standing, Standing::Authorized);
    assert!(accepted(judge_submission(pending(step), None)).meets_block);
    let (standing, _) = play(standing, wrong);
    assert_eq!(standing, Standing::Refused);
}

#[test]
fn without_a_password_every_standing_is_the_same() {
    let job = genesis_job();
    let share = submit_line("abc", GENESIS_EX2, "495fab29", "7c2bac1d");
    for standing in [Standing::Unasked, Standing::Refused, Standing::Authorized] {
        let (next, step) = handle_session_line(standing, Some(&job), None, &share);
        assert_eq!(next, standing);
        assert_eq!(pending(step).worker, "rig.1");
        let line = r#"{"method":"mining.authorize"}"#;
        let (next, step) = handle_session_line(standing, None, None, line);
        assert_eq!(next, Standing::Authorized);
        assert_eq!(sent(step), vec![json(r#"{"id":2,"result":true,"error":null}"#)]);
    }
}

#[test]
fn a_request_is_admitted_or_refused() {
    let request = |method: &str| read_request(&json(&format!(r#"{{"method":"{}"}}"#, method)));
    let barred = |standing: Standing, method: &str| {
        admits(Some("secret"), standing, &request(method)).map(|reply| reply["id"].clone())
    };
    assert_eq!(barred(Standing::Unasked, "mining.submit"), Some(Value::from(3)));
    assert_eq!(barred(Standing::Refused, "mining.submit"), Some(Value::from(3)));
    assert_eq!(barred(Standing::Authorized, "mining.submit"), None);
    assert_eq!(barred(Standing::Unasked, "mining.subscribe"), None);
    assert_eq!(barred(Standing::Refused, "mining.subscribe"), Some(Value::from(1)));
    assert_eq!(barred(Standing::Authorized, "mining.subscribe"), None);
    assert_eq!(barred(Standing::Refused, "mining.authorize"), None);
    assert_eq!(barred(Standing::Refused, "mining.extranonce.subscribe"), None);
    assert_eq!(barred(Standing::Refused, ""), None);
    assert!(admits(None, Standing::Refused, &request("mining.submit")).is_none());
    let asked = next_standing(Some("secret"), Standing::Authorized, &request("mining.authorize"));
    assert_eq!(asked, Standing::Refused);
}

use serde_json::Value;
use solo_rs_pool::config::{
    after_failure, check_payout, configure, env_or, ConfigError, Environment, Retry,
};
use solo_rs_pool::feed::{forward_step, stream_step, Received, StreamStep};
use solo_rs_pool::node::{poll_event, ZmqEvent};
use solo_rs_pool::storage::{
    bucket_cutoff, flag_column, format_rfc3339, rate_cutoff, share_entry, window_cutoff, worker_from_row,
    worker_seen_at, ShareEntry, UtcTime,
};
use solo_rs_pool::web::{blocks, dashboard, metrics_message, metrics_spans, workers};

fn nothing_set() -> Environment {
    Environment {
        rpc_url: None,
        rpc_user: None,
        rpc_pass: None,
        zmq_block: None,
        zmq_tx: None,
        stratum_addr: None,
        web_addr: None,
        db_path: None,
        network: None,
        payout_address: None,
        miner_password: None,
    }
}

#[test]
fn settings_have_defaults() {
    let settings = configure(nothing_set()).ok().unwrap();
    assert_eq!(settings.rpc_url, "http://127.0.0.1:18443");
    assert_eq!(settings.rpc_user, "solo");
    assert_eq!(settings.rpc_pass, "solo123");
    assert_eq!(settings.zmq_block, "tcp://127.0.0.1:28342");
    assert_eq!(settings.zmq_tx, "tcp://127.0.0.1:28343");
    assert_eq!(settings.stratum_addr, "0.0.0.0:3335");
    assert_eq!(settings.web_addr, "0.0.0.0:8080");
    assert_eq!(settings.db_path, "./data/pool.sqlite");
    assert_eq!(settings.miner_password, None);
}

#[test]
fn settings_come_from_the_environment() {
    let mut env = nothing_set();
    env.rpc_user = Some("alice".to_string());
    env.miner_password = Some("secret".to_string());
    env.stratum_addr = Some("127.0.0.1:3333".to_string());
    let settings = configure(env).ok().unwrap();
    assert_eq!(settings.rpc_user, "alice");
    assert_eq!(settings.miner_password, Some("secret".to_string()));
    assert_eq!(settings.stratum_addr, "127.0.0.1:3333");
    assert_eq!(settings.rpc_pass, "solo123");
    assert_eq!(env_or(Some(String::new()), "x"), "");
    assert_eq!(env_or(None, "x"), "x");
}

#[test]
fn mainnet_needs_a_payout_address() {
    let mainnet = Some("mainnet".to_string());
    let regtest = Some("regtest".to_string());
    let address = Some("bc1qexample".to_string());
    assert_eq!(check_payout(&mainnet, &None), Err(ConfigError::NoPayoutAddress));
    assert_eq!(check_payout(&mainnet, &Some(String::new())), Err(ConfigError::NoPayoutAddress));
    assert_eq!(check_payout(&mainnet, &address), Ok(()));
    assert_eq!(check_payout(&regtest, &None), Ok(()));
    assert_eq!(check_payout(&None, &None), Ok(()));
    let mut env = nothing_set();
    env.network = mainnet;
    let refused = configure(env).err().unwrap();
    assert_eq!(refused, ConfigError::NoPayoutAddress);
    assert_eq!(refused.message(), "PAYOUT_ADDRESS must be set on NETWORK=mainnet");
}

#[test]
fn the_first_job_is_tried_eleven_times() {
    let mut failures = 0;
    let mut attempts = 0;
    loop {
        attempts += 1;
        match after_failure(failures) {
            Retry::Again(n) => failures = n,
            Retry::GiveUp => break,
        }
    }
    assert_eq!(attempts, 11);
    assert_eq!(failures, 10);
}

#[test]
fn a_block_comes_before_a_transaction() {
    assert_eq!(poll_event(true, true), Some(ZmqEvent::Block));
    assert_eq!(poll_event(true, false), Some(ZmqEvent::Block));
    assert_eq!(poll_event(false, true), Some(ZmqEvent::Tx));
    assert_eq!(poll_event(false, false), None);
}

#[test]
fn broadcasts_are_passed_on() {
    assert!(matches!(stream_step(Received::Message("a".to_string())), StreamStep::Yield(s) if s == "a"));
    assert!(matches!(stream_step(Received::Lagged), StreamStep::Skip));
    assert!(matches!(stream_step(Received::Closed), StreamStep::End));
    assert_eq!(forward_step(&Received::Message("{}".to_string())), Some("{}\n".to_string()));
    assert_eq!(forward_step(&Received::Lagged), None);
    assert_eq!(forward_step(&Received::Closed), None);
}

#[test]
fn a_moment_is_written_and_read_back() {
    let time = UtcTime { secs: 1_700_000_000, nanos: 123_456_000 };
    let text = format_rfc3339(&time).unwrap();
    assert_eq!(text, "2023-11-14T22:13:20.123456+00:00");
    let worker = worker_from_row(3, "rig".to_string(), 1, Some(text));
    assert_eq!(worker.last_seen, Some(time));
    for (secs, nanos) in [
        (0i64, 0u32),
        (1, 1),
        (951_782_400, 999_999_999),
        (4_102_444_799, 5_000_000),
        (253_402_300_799, 999_999_999),
        (253_402_300_799, 1_999_999_999),
        (-62_167_219_200, 0),
        (-62_167_219_141, 1_000_000_000),
        (-1, 500_000_000),
        (-1, 1_500_000_000),
        (1_483_228_799, 1_000_000_001),
    ] {
        let time = UtcTime { secs, nanos };
        let text = format_rfc3339(&time).unwrap();
        assert!(text.ends_with("+00:00"));
        assert!([25, 29, 32, 35].contains(&text.len()));
        let worker = worker_from_row(0, String::new(), 0, Some(text));
        assert_eq!(worker.last_seen, Some(time));
    }
    for (secs, nanos, wanted) in [
        (253_402_300_800i64, 0u32, "+10000-01-01T00:00:00+00:00"),
        (-62_167_219_201, 999_000_000, "-0001-12-31T23:59:59.999+00:00"),
        (-8_334_601_228_800, 0, "-262143-01-01T00:00:00+00:00"),
        (8_210_266_876_799, 1_999_999_999, "+262142-12-31T23:59:60.999999999+00:00"),
    ] {
        let time = UtcTime { secs, nanos };
        let text = format_rfc3339(&time).unwrap();
        assert_eq!(text, wanted);
        assert_eq!(worker_from_row(0, String::new(), 0, Some(text)).last_seen, Some(time));
    }
    assert_eq!(format_rfc3339(&UtcTime { secs: -8_334_601_228_801, nanos: 0 }), None);
    assert_eq!(format_rfc3339(&UtcTime { secs: 8_210_266_876_800, nanos: 0 }), None);
    assert_eq!(format_rfc3339(&UtcTime { secs: i64::MIN, nanos: 0 }), None);
    let leap = UtcTime { secs: 1_483_228_799, nanos: 1_500_000_000 };
    assert_eq!(format_rfc3339(&leap).unwrap(), "2016-12-31T23:59:60.500+00:00");
    let oldest = UtcTime { secs: -62_167_219_200, nanos: 0 };
    assert_eq!(format_rfc3339(&oldest).unwrap(), "0000-01-01T00:00:00+00:00");
    assert_eq!(format_rfc3339(&UtcTime { secs: i64::MAX, nanos: 0 }), None);
    assert_eq!(format_rfc3339(&UtcTime { secs: 0, nanos: 1_000_000_000 }), None);
    assert_eq!(format_rfc3339(&UtcTime { secs: 59, nanos: 2_000_000_000 }), None);
}

#[test]
fn rows_become_workers() {
    let worker = worker_from_row(1, "a".to_string(), 0, Some("yesterday".to_string()));
    assert_eq!(worker.id, 1);
    assert_eq!(worker.name, "a");
    assert!(!worker.authorized);
    assert_eq!(worker.last_seen, None);
    assert!(worker_from_row(2, "b".to_string(), 2, None).authorized);
    let seen = worker_from_row(2, "b".to_string(), -1, Some("2024-02-29T01:02:03+01:00".to_string()));
    assert!(seen.authorized);
    assert_eq!(seen.last_seen, Some(UtcTime { secs: 1_709_164_923, nanos: 0 }));
    assert_eq!(format!("{:?}", seen.clone()), format!("{:?}", seen));
    assert!(worker_seen_at(9, "c".to_string(), flag_column(true), None).authorized);
    assert!(!worker_seen_at(9, "c".to_string(), flag_column(false), None).authorized);
}

#[test]
fn shares_are_recorded_for_known_workers() {
    assert_eq!(share_entry(Some(7)), Some(ShareEntry { worker_id: 7, valid: 1 }));
    assert_eq!(share_entry(None), None);
    assert_eq!(window_cutoff(1_000, 300), 700);
    assert_eq!(bucket_cutoff(10_000, 60), 6_400);
    assert_eq!(rate_cutoff(1_000, 300), Some(700));
    assert_eq!(rate_cutoff(1_000, 0), None);
    assert_eq!(rate_cutoff(1_000, i64::MIN), None);
}

#[test]
fn block_rows_show_what_is_known() {
    let page = blocks(Some(vec![
        (Some(840_000), Some("00ff".to_string()), "accepted".to_string(), "t1".to_string()),
        (None, None, "rejected".to_string(), "t0".to_string()),
    ]));
    assert_eq!(page.blocks.len(), 2);
    assert_eq!(page.blocks[0].height, "840000");
    assert_eq!(page.blocks[0].hash, "00ff");
    assert_eq!(page.blocks[0].status, "accepted");
    assert_eq!(page.blocks[0].timestamp, "t1");
    assert_eq!(page.blocks[1].height, "-");
    assert_eq!(page.blocks[1].hash, "-");
    assert_eq!(page.blocks[1].status, "rejected");
    assert_eq!(format!("{:?}", page.blocks[0].clone()), format!("{:?}", page.blocks[0]));
    assert!(blocks(None).blocks.is_empty());
    assert!(blocks(Some(vec![])).blocks.is_empty());
}

#[test]
fn pages_show_no_workers_where_none_can_be_read() {
    let row = || worker_from_row(1, "a".to_string(), 1, None);
    assert_eq!(dashboard(Some(vec![row()]), None).workers.len(), 1);
    assert!(dashboard(None, None).job.is_none());
    assert!(dashboard(None, None).workers.is_empty());
    assert_eq!(workers(Some(vec![row(), row()])).workers.len(), 2);
    assert!(workers(None).workers.is_empty());
}

#[test]
fn metrics_have_default_spans_and_a_fixed_shape() {
    assert_eq!(metrics_spans(None, None), (300, 60));
    assert_eq!(metrics_spans(Some(10), Some(-5)), (10, -5));
    let message = metrics_message("rig", 300, Value::from(1.5), &vec![(60, 2), (120, 1)]);
    let wanted = r#"{"hashrate_hps":1.5,"spark":[[60,2],[120,1]],"window_secs":300,"worker":"rig"}"#;
    assert_eq!(message, serde_json::from_str::<Value>(wanted).unwrap());
}

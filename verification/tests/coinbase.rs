use solo_rs_pool::coinbase::{build_coinbase, find_bytes, split_coinbase};

fn expected(script_prefix: &str, script_len: &str) -> (String, String) {
    let head = format!("0100000001{}ffffffff{}", "00".repeat(32), script_len);
    let tail = "ffffffff0100f2052a01000000010000000000";
    let script = format!("{}04a1b2c3d40400000000", script_prefix);
    let whole = format!("{}{}{}", head, script, tail);
    let start = 2 * (42 + script_prefix.len() / 2 + 6);
    (whole[..start].to_string(), whole[start + 8..].to_string())
}

#[test]
fn coinbase_halves_are_exact() {
    let ex1 = [0xa1, 0xb2, 0xc3, 0xd4];
    let value = 5_000_000_000;
    let cases = [
        (0u32, "00", "0b"),
        (1, "51", "0b"),
        (16, "60", "0b"),
        (17, "0111", "0c"),
        (127, "017f", "0c"),
        (128, "028000", "0d"),
        (255, "02ff00", "0d"),
        (256, "020001", "0d"),
        (840_000, "0340d10c", "0e"),
        (0x80_0000, "0400008000", "0f"),
        (u32::MAX, "05ffffffff00", "10"),
    ];
    for (height, push, len) in cases {
        let (first, second) = build_coinbase(height, &ex1, value);
        let (first_wanted, second_wanted) = expected(push, len);
        assert_eq!(first, first_wanted, "{}", height);
        assert_eq!(second, second_wanted, "{}", height);
    }
}

#[test]
fn a_filled_coinbase_is_a_transaction() {
    for height in [0u32, 5, 200, 70_000, 900_000, u32::MAX] {
        let (first, second) = build_coinbase(height, &[1, 2, 3, 4], 312_500_000);
        let raw = hex::decode(format!("{}deadbeef{}", first, second)).unwrap();
        let tx: bitcoin::Transaction = bitcoin::consensus::deserialize(&raw).unwrap();
        assert!(tx.is_coinbase());
        assert_eq!(tx.output.len(), 1);
        assert_eq!(tx.output[0].value.to_sat(), 312_500_000);
        assert_eq!(tx.output[0].script_pubkey.as_bytes(), &[0u8]);
        assert_eq!(bitcoin::consensus::serialize(&tx), raw);
        let script = bitcoin::ScriptBuf::builder()
            .push_int(height as i64)
            .push_slice([1, 2, 3, 4])
            .push_slice([0xde, 0xad, 0xbe, 0xef])
            .into_script();
        assert_eq!(tx.input[0].script_sig, script);
    }
}

#[test]
fn bytes_are_found_at_their_first_place() {
    assert_eq!(find_bytes(&[1, 2, 3, 2, 3], &[2, 3]), Some(1));
    assert_eq!(find_bytes(&[1, 1, 1, 2], &[1, 2]), Some(2));
    assert_eq!(find_bytes(&[1, 2], &[1, 2, 3]), None);
    assert_eq!(find_bytes(&[1, 2, 3], &[4]), None);
    assert_eq!(find_bytes(&[7], &[7]), Some(0));
}

#[test]
fn splitting_needs_the_script() {
    let halves = split_coinbase(&[9, 9, 1, 2, 3, 4, 5, 6, 8], &[1, 2, 3, 4, 5, 6], 1);
    assert_eq!(halves, Some(("090901".to_string(), "0608".to_string())));
    assert_eq!(split_coinbase(&[9, 9], &[1, 2, 3, 4], 0), None);
}

use solo_rs_pool::merkle::merkle_root_from_txids;

fn internal(shown: &str) -> [u8; 32] {
    let mut bytes: [u8; 32] = hex::decode(shown).unwrap().try_into().unwrap();
    bytes.reverse();
    bytes
}

fn sha256d(data: &[u8]) -> [u8; 32] {
    let digest = <bitcoin_hashes::sha256d::Hash as bitcoin_hashes::Hash>::hash(data);
    bitcoin_hashes::Hash::to_byte_array(digest)
}

#[test]
fn root_of_block_100000() {
    let ids = [
        internal("8c14f0db3df150123e6f3dbbf30f8b955a8249b62ac1d1ff16284aefa3d06d87"),
        internal("fff2525b8931402dd09222c50775608f75787bd2b87e56995a7bdd30f79702c4"),
        internal("6359f0868171b1d194cbee1af2f16ea598ae8fad666d9b012c8ed2b79a236ec4"),
        internal("e9a66845e05d5abc0ad04ec80f774a7e585c6e8db975962d069a522137b80c1d"),
    ];
    let root = internal("f3e94742aca4b5ef85488dc37c06c3282295ffec960994b2c0d5ac2a25a95766");
    assert_eq!(merkle_root_from_txids(&ids), root);
}

#[test]
fn roots_of_none_one_and_two() {
    assert_eq!(merkle_root_from_txids(&[]), [0u8; 32]);
    assert_eq!(merkle_root_from_txids(&[[7; 32]]), [7u8; 32]);
    let both = [[1u8; 32], [2u8; 32]].concat();
    assert_eq!(merkle_root_from_txids(&[[1; 32], [2; 32]]), sha256d(&both));
}

#[test]
fn an_odd_layer_counts_its_last_twice() {
    let three = [[1u8; 32], [2; 32], [3; 32]];
    let four = [[1u8; 32], [2; 32], [3; 32], [3; 32]];
    assert_eq!(merkle_root_from_txids(&three), merkle_root_from_txids(&four));
    let five = [[1u8; 32], [2; 32], [3; 32], [4; 32], [5; 32]];
    let six = [[1u8; 32], [2; 32], [3; 32], [4; 32], [5; 32], [5; 32]];
    assert_eq!(merkle_root_from_txids(&five), merkle_root_from_txids(&six));
}

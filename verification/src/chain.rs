//! The pieces of Bitcoin's block format that a job is made of: script pushes, the coinbase
//! transaction, the block header, transaction ids, block hashes as text, and the
//! proof-of-work target.
use crate::merkle::sha256d_digest;
use crate::text::{hex_bytes, hex_text, is_hex};
use vstd::arithmetic::power2::pow2;
use vstd::prelude::*;

verus! {

/// The lowest `width` bytes of `n`, the least significant first.
pub open spec fn little_endian(n: nat, width: nat) -> Seq<u8>
    decreases width,
{
    if width == 0 {
        Seq::empty()
    } else {
        seq![(n % 256) as u8] + little_endian(n / 256, (width - 1) as nat)
    }
}

/// The number that `bytes` spell, the least significant first.
pub open spec fn le_number(bytes: Seq<u8>) -> nat
    decreases bytes.len(),
{
    if bytes.len() == 0 {
        0
    } else {
        bytes[0] as nat + 256 * le_number(bytes.skip(1))
    }
}

/// The length prefix of a variable-length field.
pub open spec fn compact_size(n: nat) -> Seq<u8> {
    if n < 0xfd {
        seq![n as u8]
    } else if n <= 0xffff {
        seq![0xfdu8] + little_endian(n, 2)
    } else if n <= 0xffff_ffff {
        seq![0xfeu8] + little_endian(n, 4)
    } else {
        seq![0xffu8] + little_endian(n, 8)
    }
}

/// A positive number as a script number: its bytes, the least significant first, with a zero
/// byte added where the top bit of the last one is taken.
pub open spec fn script_number(n: nat) -> Seq<u8>
    decreases n,
{
    if n < 0x80 {
        seq![n as u8]
    } else if n < 0x100 {
        seq![n as u8, 0u8]
    } else {
        seq![(n % 256) as u8] + script_number(n / 256)
    }
}

/// The script bytes that push `n`: the opcode of a number up to sixteen, else the length of
/// its script number and the script number.
pub open spec fn number_push(n: u32) -> Seq<u8> {
    if n == 0 {
        seq![0u8]
    } else if n <= 16 {
        seq![(0x50 + n) as u8]
    } else {
        seq![script_number(n as nat).len() as u8] + script_number(n as nat)
    }
}

/// Calls `bitcoin::script::Builder::push_int` on a script: it appends the push of the number.
#[verifier::external_body]
pub(crate) fn push_number(script: Vec<u8>, n: u32) -> (longer: Vec<u8>)
    ensures
        longer@ == script@ + number_push(n),
{
    bitcoin::script::Builder::from(script).push_int(n as i64).into_bytes()
}

/// Calls `bitcoin::script::Builder::push_slice` on a script: it appends the opcode that pushes
/// four bytes, which is their number, and the four bytes.
#[verifier::external_body]
pub(crate) fn push_four_bytes(script: Vec<u8>, data: &[u8; 4]) -> (longer: Vec<u8>)
    ensures
        longer@ == script@ + seq![4u8] + data@,
{
    bitcoin::script::Builder::from(script).push_slice(data).into_bytes()
}

/// Calls `bitcoin::script::Builder::push_opcode` on a script: it appends the opcode.
#[verifier::external_body]
pub(crate) fn push_opcode(script: Vec<u8>, opcode: u8) -> (longer: Vec<u8>)
    ensures
        longer@ == script@.push(opcode),
{
    let opcode = bitcoin::opcodes::Opcode::from(opcode);
    bitcoin::script::Builder::from(script).push_opcode(opcode).into_bytes()
}

/// A transaction with one input and one output and no witness.
pub struct SimpleTransaction {
    pub version: u32,
    /// The id of the transaction whose output is spent.
    pub previous_txid: [u8; 32],
    /// The index of that output.
    pub previous_index: u32,
    pub script_sig: Vec<u8>,
    pub sequence: u32,
    /// In satoshi.
    pub value: u64,
    pub script_pubkey: Vec<u8>,
    pub lock_time: u32,
}

impl SimpleTransaction {
    /// What is serialized before the script of the input.
    pub open spec fn head(self) -> Seq<u8> {
        little_endian(self.version as nat, 4) + seq![1u8] + self.previous_txid@ + little_endian(
            self.previous_index as nat,
            4,
        ) + compact_size(self.script_sig@.len())
    }

    /// What is serialized after the script of the input.
    pub open spec fn tail(self) -> Seq<u8> {
        little_endian(self.sequence as nat, 4) + seq![1u8] + little_endian(self.value as nat, 8)
            + compact_size(self.script_pubkey@.len()) + self.script_pubkey@ + little_endian(
            self.lock_time as nat,
            4,
        )
    }

    /// The serialized transaction.
    pub open spec fn bytes(self) -> Seq<u8> {
        self.head() + self.script_sig@ + self.tail()
    }
}

/// Calls `consensus_encode` of `bitcoin::Transaction`. The version, the one input (the output
/// that it spends, its script with a length prefix, its sequence), the one output (its value,
/// its script with a length prefix) and the lock time follow each other, integers with the
/// least significant byte first, the inputs and the outputs each after their number.
#[verifier::external_body]
pub(crate) fn encode_transaction(tx: &SimpleTransaction) -> (bytes: Vec<u8>)
    ensures
        bytes@ == tx.bytes(),
{
    let txid = <bitcoin::Txid as bitcoin_hashes::Hash>::from_byte_array(tx.previous_txid);
    let input = bitcoin::TxIn {
        previous_output: bitcoin::OutPoint { txid, vout: tx.previous_index },
        script_sig: bitcoin::ScriptBuf::from(tx.script_sig.clone()),
        sequence: bitcoin::Sequence(tx.sequence),
        witness: bitcoin::Witness::new(),
    };
    let script_pubkey = bitcoin::ScriptBuf::from(tx.script_pubkey.clone());
    let output = bitcoin::TxOut { value: bitcoin::Amount::from_sat(tx.value), script_pubkey };
    let version = bitcoin::transaction::Version(tx.version as i32);
    let lock_time = bitcoin::absolute::LockTime::from_consensus(tx.lock_time);
    let tx = bitcoin::Transaction { version, lock_time, input: vec![input], output: vec![output] };
    bitcoin::consensus::serialize(&tx)
}

/// Whether `raw` has the shape of one transaction with one input and one output, no witness,
/// and scripts of less than 253 bytes.
pub open spec fn is_simple_transaction(raw: Seq<u8>) -> bool {
    let sig = raw[41] as int;
    let key = raw[55 + sig] as int;
    &&& raw.len() >= 42
    &&& raw[4] == 1
    &&& sig < 0xfd
    &&& raw.len() >= 56 + sig
    &&& raw[46 + sig] == 1
    &&& key < 0xfd
    &&& raw.len() == 60 + sig + key
}

/// The id of the transaction that `raw` serializes, where `raw` does not have the shape of
/// [`is_simple_transaction`]: the double SHA-256 digest of the transaction without its witness.
/// `None` if `raw` is not exactly one transaction.
pub uninterp spec fn general_transaction_id(raw: Seq<u8>) -> Option<Seq<u8>>;

/// The id of the transaction that `raw` serializes; `None` if it is not exactly one.
pub open spec fn transaction_id(raw: Seq<u8>) -> Option<Seq<u8>> {
    if is_simple_transaction(raw) {
        Some(sha256d_digest(raw))
    } else {
        general_transaction_id(raw)
    }
}

/// Calls `bitcoin::consensus::deserialize` for a `Transaction`, which fails unless all of
/// `raw` is one transaction, and `compute_txid` on what it gives. Bytes with the shape of
/// [`is_simple_transaction`] are a transaction without witness, which is hashed as it is
/// serialized; what other bytes give is a function of them.
#[verifier::external_body]
pub(crate) fn compute_transaction_id(raw: &[u8]) -> (id: Option<[u8; 32]>)
    ensures
        is_simple_transaction(raw@) ==> id is Some && (id->0)@ == sha256d_digest(raw@),
        !is_simple_transaction(raw@) ==> {
            &&& id is Some == general_transaction_id(raw@) is Some
            &&& id is Some ==> (id->0)@ == general_transaction_id(raw@)->0
        },
{
    let tx: bitcoin::Transaction = bitcoin::consensus::deserialize(raw).ok()?;
    Some(bitcoin_hashes::Hash::to_byte_array(tx.compute_txid()))
}

/// A block header.
#[derive(Clone, Copy, Debug, PartialEq, Eq)]
pub struct BlockHeader {
    pub version: u32,
    /// In the order in which it is computed.
    pub prev_blockhash: [u8; 32],
    pub merkle_root: [u8; 32],
    pub time: u32,
    /// The compact target.
    pub bits: u32,
    pub nonce: u32,
}

/// What a block header says.
#[verifier::ext_equal]
pub struct HeaderModel {
    pub version: u32,
    pub prev_blockhash: Seq<u8>,
    pub merkle_root: Seq<u8>,
    pub time: u32,
    pub bits: u32,
    pub nonce: u32,
}

impl View for BlockHeader {
    type V = HeaderModel;

    open spec fn view(&self) -> HeaderModel {
        HeaderModel {
            version: self.version,
            prev_blockhash: self.prev_blockhash@,
            merkle_root: self.merkle_root@,
            time: self.time,
            bits: self.bits,
            nonce: self.nonce,
        }
    }
}

impl HeaderModel {
    /// Whether both hashes have the length of a hash.
    pub open spec fn is_valid(self) -> bool {
        self.prev_blockhash.len() == 32 && self.merkle_root.len() == 32
    }

    /// The serialized header.
    pub open spec fn bytes(self) -> Seq<u8> {
        little_endian(self.version as nat, 4) + self.prev_blockhash + self.merkle_root
            + little_endian(self.time as nat, 4) + little_endian(self.bits as nat, 4)
            + little_endian(self.nonce as nat, 4)
    }
}

/// Calls `consensus_encode` of `bitcoin::block::Header`: the six fields in order, integers
/// with the least significant byte first.
#[verifier::external_body]
pub(crate) fn encode_header(header: &BlockHeader) -> (bytes: Vec<u8>)
    ensures
        bytes@ == header@.bytes(),
{
    bitcoin::consensus::serialize(&bitcoin::block::Header {
        version: bitcoin::block::Version::from_consensus(header.version as i32),
        prev_blockhash: bitcoin_hashes::Hash::from_byte_array(header.prev_blockhash),
        merkle_root: bitcoin_hashes::Hash::from_byte_array(header.merkle_root),
        time: header.time,
        bits: bitcoin::CompactTarget::from_consensus(header.bits),
        nonce: header.nonce,
    })
}

/// Calls `bitcoin::consensus::deserialize` for a `block::Header`. Every field takes any
/// value, and nothing may be left over, so it succeeds exactly on eighty bytes.
#[verifier::external_body]
pub(crate) fn decodes_as_header(bytes: &[u8]) -> (decodes: bool)
    ensures
        decodes == (bytes@.len() == 80),
{
    bitcoin::consensus::deserialize::<bitcoin::block::Header>(bytes).is_ok()
}

/// A block hash as it is shown: hexadecimal, the last byte first.
pub open spec fn block_hash_text(hash: Seq<u8>) -> Seq<char> {
    hex_text(hash.reverse())
}

/// The block hash that `text` shows: sixty-four hexadecimal digits of either case, the last
/// byte first. `None` for any other text.
pub open spec fn block_hash_of(text: Seq<char>) -> Option<Seq<u8>> {
    if text.len() == 64 && is_hex(text) {
        Some((hex_bytes(text)->0).reverse())
    } else {
        None
    }
}

/// Calls `to_string` of `bitcoin::BlockHash`: lower-case hexadecimal, the last byte first.
#[verifier::external_body]
pub(crate) fn show_block_hash(hash: &[u8; 32]) -> (text: String)
    ensures
        text@ == block_hash_text(hash@),
{
    <bitcoin::BlockHash as bitcoin_hashes::Hash>::from_byte_array(*hash).to_string()
}

/// Calls `from_str` of `bitcoin::BlockHash`. It takes exactly sixty-four hexadecimal digits of
/// either case, the last byte first; the error it gives otherwise is dropped.
#[verifier::external_body]
pub(crate) fn parse_block_hash(text: &str) -> (hash: Option<[u8; 32]>)
    ensures
        hash is Some == block_hash_of(text@) is Some,
        hash is Some ==> (hash->0)@ == block_hash_of(text@)->0,
{
    let hash: bitcoin::BlockHash = text.parse().ok()?;
    Some(bitcoin_hashes::Hash::to_byte_array(hash))
}

/// The target that `bits` stand for: a three-byte mantissa, shifted by an exponent that counts
/// bytes and lies in the top byte. A mantissa with its top bit taken gives zero; the shift is
/// taken modulo 256, and what it moves past 256 bits is lost.
pub open spec fn compact_target(bits: u32) -> nat {
    let exponent = bits as nat / 0x100_0000;
    let low = bits as nat % 0x100_0000;
    let mantissa = if exponent <= 3 {
        low / pow2((8 * (3 - exponent)) as nat)
    } else {
        low
    };
    let shift = if exponent <= 3 {
        0
    } else {
        (8 * (exponent - 3)) as nat
    };
    if mantissa > 0x7f_ffff {
        0
    } else {
        (mantissa * pow2(shift % 256)) % pow2(256)
    }
}

/// Calls `bitcoin::Target::from_compact` and gives the target's bytes, the least significant
/// first.
#[verifier::external_body]
pub(crate) fn target_from_compact(bits: u32) -> (target: [u8; 32])
    ensures
        le_number(target@) == compact_target(bits),
{
    let bits = bitcoin::CompactTarget::from_consensus(bits);
    bitcoin::Target::from_compact(bits).to_le_bytes()
}

/// Calls `bitcoin::Target::is_met_by`: a hash, read with its least significant byte first,
/// meets a target that it does not exceed.
#[verifier::external_body]
pub(crate) fn target_is_met(target: &[u8; 32], hash: &[u8; 32]) -> (met: bool)
    ensures
        met == (le_number(hash@) <= le_number(target@)),
{
    let hash = bitcoin_hashes::Hash::from_byte_array(*hash);
    bitcoin::Target::from_le_bytes(*target).is_met_by(hash)
}

} // verus!

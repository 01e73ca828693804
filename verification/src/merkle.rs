//! The Merkle root over a block's transaction ids.
use vstd::prelude::*;

verus! {

/// The double SHA-256 digest of `data`.
pub uninterp spec fn sha256d_digest(data: Seq<u8>) -> Seq<u8>;

/// Calls `hash` of `bitcoin_hashes::sha256d::Hash` and gives the digest's bytes in the order
/// in which they are computed.
#[verifier::external_body]
pub(crate) fn sha256d(data: &[u8]) -> (digest: [u8; 32])
    ensures
        digest@ == sha256d_digest(data@),
{
    let digest = <bitcoin_hashes::sha256d::Hash as bitcoin_hashes::Hash>::hash(data);
    bitcoin_hashes::Hash::to_byte_array(digest)
}

/// The bytes of each digest.
pub open spec fn digest_views(digests: Seq<[u8; 32]>) -> Seq<Seq<u8>> {
    Seq::new(digests.len(), |i: int| digests[i]@)
}

/// The layer above `layer`: each pair of neighbours is hashed together, and a last one without
/// a neighbour with itself.
pub open spec fn parents(layer: Seq<Seq<u8>>) -> Seq<Seq<u8>> {
    Seq::new(
        (layer.len() + 1) / 2,
        |i: int|
            sha256d_digest(
                layer[2 * i] + layer[if 2 * i + 1 < layer.len() { 2 * i + 1 } else { 2 * i }],
            ),
    )
}

/// The Merkle root of `leaves`: thirty-two zero bytes for none, the leaf itself for one.
pub open spec fn merkle_root(leaves: Seq<Seq<u8>>) -> Seq<u8>
    decreases leaves.len(),
{
    if leaves.len() == 0 {
        Seq::new(32, |i: int| 0u8)
    } else if leaves.len() == 1 {
        leaves[0]
    } else {
        merkle_root(parents(leaves))
    }
}

/// Computes the Merkle root of transaction ids.
pub fn merkle_root_from_txids(leaves: &[[u8; 32]]) -> (root: [u8; 32])
    ensures
        root@ == merkle_root(digest_views(leaves@)),
{
    if leaves.len() == 0 {
        let root = [0u8; 32];
        assert(root@ =~= Seq::new(32, |i: int| 0u8));
        return root;
    }
    let mut layer: Vec<[u8; 32]> = Vec::new();
    let mut k: usize = 0;
    while k < leaves.len()
        invariant
            k <= leaves.len(),
            layer@ == leaves@.take(k as int),
        decreases leaves.len() - k,
    {
        layer.push(leaves[k]);
        assert(layer@ =~= leaves@.take(k + 1));
        k += 1;
    }
    assert(layer@ =~= leaves@);
    while layer.len() > 1
        invariant
            layer.len() >= 1,
            merkle_root(digest_views(layer@)) == merkle_root(digest_views(leaves@)),
        decreases layer.len(),
    {
        let ghost views = digest_views(layer@);
        let pairs: usize = layer.len() / 2 + layer.len() % 2;
        let mut next: Vec<[u8; 32]> = Vec::new();
        let mut p: usize = 0;
        while p < pairs
            invariant
                layer.len() > 1,
                p <= pairs,
                pairs == (layer.len() + 1) / 2,
                views == digest_views(layer@),
                digest_views(next@) == parents(views).take(p as int),
            decreases pairs - p,
        {
            let a = layer[2 * p];
            let b = if 2 * p < layer.len() - 1 {
                layer[2 * p + 1]
            } else {
                layer[2 * p]
            };
            let mut both: Vec<u8> = Vec::new();
            both.extend_from_slice(&a);
            both.extend_from_slice(&b);
            assert(both@ =~= a@ + b@);
            assert(digest_views(next@).len() == p);
            next.push(sha256d(&both));
            assert(digest_views(next@) =~= parents(views).take(p + 1));
            p += 1;
        }
        assert(parents(views).take(p as int) =~= parents(views));
        assert(digest_views(next@).len() == pairs);
        layer = next;
    }
    layer[0]
}

} // verus!

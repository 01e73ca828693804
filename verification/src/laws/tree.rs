//! The Merkle root as a binary tree: these laws determine it for every number of leaves.
use crate::merkle::{merkle_root, parents, sha256d_digest};
use vstd::arithmetic::power2::{lemma2_to64, lemma_pow2_pos, lemma_pow2_unfold, pow2};
use vstd::prelude::*;

verus! {

/// The layer above has an entry for each pair, and the last one counts as its own neighbour
/// where there is none.
pub proof fn every_pair_has_a_parent(layer: Seq<Seq<u8>>, i: int)
    requires
        0 <= i,
        2 * i < layer.len(),
    ensures
        2 * parents(layer).len() == layer.len() || 2 * parents(layer).len() == layer.len() + 1,
        2 * i + 1 < layer.len() ==> parents(layer)[i] == sha256d_digest(
            layer[2 * i] + layer[2 * i + 1],
        ),
        2 * i + 1 == layer.len() ==> parents(layer)[i] == sha256d_digest(layer[2 * i] + layer[2 * i]),
{
}

/// The layers above two even layers, one after the other, follow each other too.
proof fn even_layers_stay_apart(a: Seq<Seq<u8>>, b: Seq<Seq<u8>>)
    requires
        a.len() % 2 == 0,
    ensures
        parents(a + b) == parents(a) + parents(b),
{
    let whole = parents(a + b);
    let joined = parents(a) + parents(b);
    assert(whole.len() == joined.len());
    assert forall|i: int| 0 <= i < whole.len() implies #[trigger] whole[i] == joined[i] by {
        if 2 * i < a.len() {
            assert((a + b)[2 * i] == a[2 * i] && (a + b)[2 * i + 1] == a[2 * i + 1]);
        } else {
            let j = i - a.len() / 2;
            assert((a + b)[2 * i] == b[2 * j]);
            if 2 * j + 1 < b.len() {
                assert((a + b)[2 * i + 1] == b[2 * j + 1]);
            }
        }
    }
    assert(whole =~= joined);
}

/// A lone leaf is its own root, and no leaf has the root of thirty-two zero bytes.
pub proof fn the_smallest_trees(leaf: Seq<u8>)
    ensures
        merkle_root(seq![leaf]) == leaf,
        merkle_root(Seq::empty()).len() == 32,
        forall|i: int| 0 <= i < 32 ==> #[trigger] merkle_root(Seq::empty())[i] == 0,
{
}

/// Where both halves have the same number of leaves, and it is a power of two, the root is the
/// digest of the roots of the halves together.
pub proof fn the_root_joins_its_halves(a: Seq<Seq<u8>>, b: Seq<Seq<u8>>, k: nat)
    requires
        a.len() == pow2(k),
        b.len() == pow2(k),
    ensures
        merkle_root(a + b) == sha256d_digest(merkle_root(a) + merkle_root(b)),
    decreases k,
{
    lemma2_to64();
    if k == 0 {
        let layer = parents(a + b);
        assert((a + b)[0] == a[0] && (a + b)[1] == b[0]);
        assert(layer.len() == 1 && layer[0] == sha256d_digest(a[0] + b[0]));
        reveal_with_fuel(merkle_root, 2);
    } else {
        lemma_pow2_unfold(k);
        lemma_pow2_pos((k - 1) as nat);
        even_layers_stay_apart(a, b);
        the_root_joins_its_halves(parents(a), parents(b), (k - 1) as nat);
    }
}

/// Where so many groups of leaves, each of the same power of two, are an odd number of more than
/// one, the root is that of the same leaves with the last group repeated.
pub proof fn an_odd_group_is_repeated(leaves: Seq<Seq<u8>>, k: nat, groups: nat)
    requires
        leaves.len() == pow2(k) * groups,
        groups > 1,
        groups % 2 == 1,
    ensures
        merkle_root(leaves) == merkle_root(leaves + leaves.skip(leaves.len() - pow2(k))),
    decreases k,
{
    lemma2_to64();
    lemma_pow2_pos(k);
    let size = pow2(k);
    let n = leaves.len();
    assert(n >= size) by (nonlinear_arith)
        requires
            n == size * groups,
            groups > 1,
            size > 0,
    ;
    let last = leaves.skip(n - size);
    if k == 0 {
        assert(size == 1);
        assert(size * groups == groups) by (nonlinear_arith)
            requires
                size == 1,
        ;
        let more = leaves + last;
        assert(last =~= seq![leaves[n - 1]]);
        assert(parents(leaves).len() == parents(more).len());
        assert forall|i: int| 0 <= i < parents(leaves).len() implies #[trigger] parents(leaves)[i]
            == parents(more)[i] by {
            assert(more[2 * i] == leaves[2 * i]);
            if 2 * i + 1 < n {
                assert(more[2 * i + 1] == leaves[2 * i + 1]);
            } else {
                assert(more[2 * i + 1] == leaves[2 * i]);
            }
        }
        assert(parents(leaves) =~= parents(more));
    } else {
        let half = pow2((k - 1) as nat);
        lemma_pow2_unfold(k);
        lemma_pow2_pos((k - 1) as nat);
        assert(size == 2 * half);
        assert(n == 2 * (half * groups)) by (nonlinear_arith)
            requires
                n == size * groups,
                size == 2 * half,
        ;
        assert(n > size) by (nonlinear_arith)
            requires
                n == size * groups,
                groups > 1,
                size > 0,
        ;
        let above = parents(leaves);
        even_layers_stay_apart(leaves, last);
        assert(above.len() == half * groups);
        an_odd_group_is_repeated(above, (k - 1) as nat, groups);
        let tail = above.skip(above.len() - half);
        assert(parents(last).len() == half);
        assert forall|i: int| 0 <= i < half implies #[trigger] parents(last)[i] == tail[i] by {
            let j = above.len() - half + i;
            assert(2 * j == n - size + 2 * i);
            assert(last[2 * i] == leaves[2 * j] && last[2 * i + 1] == leaves[2 * j + 1]);
        }
        assert(parents(last) =~= tail);
    }
}

} // verus!

//! When a share solves the block.
use crate::chain::{compact_target, le_number};
use crate::merkle::sha256d_digest;
use crate::stratum::{verdict_of, AcceptedShareModel, SubmissionModel, VerdictModel};
use vstd::arithmetic::div_mod::{lemma_fundamental_div_mod, lemma_small_mod};
use vstd::arithmetic::power2::{lemma2_to64, lemma_pow2_pos, lemma_pow2_strictly_increases, pow2};
use vstd::prelude::*;

verus! {

/// A number is at most a quotient exactly if its product with the divisor is at most the
/// dividend.
proof fn at_most_a_quotient(n: int, dividend: int, divisor: int)
    requires
        divisor > 0,
    ensures
        n <= dividend / divisor <==> n * divisor <= dividend,
{
    lemma_fundamental_div_mod(dividend, divisor);
    let q = dividend / divisor;
    let r = dividend % divisor;
    assert(0 <= r < divisor) by (nonlinear_arith)
        requires
            divisor > 0,
            r == dividend % divisor,
    ;
    if n <= q {
        assert(n * divisor <= divisor * q) by (nonlinear_arith)
            requires
                n <= q,
                divisor > 0,
        ;
    } else {
        assert(n * divisor >= divisor * q + divisor) by (nonlinear_arith)
            requires
                n >= q + 1,
                divisor > 0,
        ;
    }
}

/// An accepted share solves the block exactly if the digest of its header, read with its least
/// significant byte first, is at most the target in the header. With `e` the top byte of the
/// header's target and `m` the other three, that target is `m` times 256 to the power `e - 3`;
/// for `e` up to three, so many bytes of `m` are cut off. A target with the top bit of `m` taken
/// is zero, and one that is too high for 256 bits loses what does not fit.
pub proof fn a_share_solves_by_the_target_of_its_header(
    submission: SubmissionModel,
    best: Option<Seq<u8>>,
    share: AcceptedShareModel,
)
    requires
        verdict_of(submission, best) == VerdictModel::Accepted(share),
    ensures
        ({
            let hash = le_number(sha256d_digest(share.header));
            let e = submission.header.bits as nat / 0x100_0000;
            let m = submission.header.bits as nat % 0x100_0000;
            &&& e >= 3 && m > 0x7f_ffff ==> (share.meets_block <==> hash == 0)
            &&& e < 3 ==> (share.meets_block <==> hash * pow2((8 * (3 - e)) as nat) <= m)
            &&& e >= 3 && m <= 0x7f_ffff && m * pow2((8 * (e - 3)) as nat) < pow2(256) && e <= 34
                ==> (share.meets_block <==> hash <= m * pow2((8 * (e - 3)) as nat))
            &&& e >= 3 && m <= 0x7f_ffff ==> (share.meets_block <==> hash <= (m * pow2(
                (8 * (e - 3)) as nat % 256,
            )) % pow2(256))
        }),
{
    let bits = submission.header.bits;
    let hash = le_number(sha256d_digest(share.header));
    let e = bits as nat / 0x100_0000;
    let m = bits as nat % 0x100_0000;
    lemma2_to64();
    assert(pow2(0) == 1);
    lemma_pow2_strictly_increases(24, 256);
    lemma_pow2_pos(256);
    assert(share.meets_block <==> hash <= compact_target(bits));
    if e < 3 {
        let cut = pow2((8 * (3 - e)) as nat);
        assert(cut == 0x100 || cut == 0x1_0000 || cut == 0x100_0000);
        assert(m / cut <= 0x7f_ffff);
        lemma_small_mod(m / cut, pow2(256));
        assert(e <= 3 && pow2(0nat % 256) == 1);
        let mantissa = m / pow2((8 * (3 - e)) as nat);
        assert(mantissa == m / cut);
        let one = pow2(0nat % 256);
        assert(mantissa * one == mantissa) by (nonlinear_arith)
            requires
                one == 1,
        ;
        assert(compact_target(bits) == (mantissa * pow2(0nat % 256)) % pow2(256));
        assert(compact_target(bits) == m / cut);
        at_most_a_quotient(hash as int, m as int, cut as int);
    } else if m <= 0x7f_ffff {
        if e == 3 {
            assert(m / pow2(0) == m);
            assert((8 * (e - 3)) as nat % 256 == 0);
        }
        let shift = (8 * (e - 3)) as nat;
        assert(compact_target(bits) == (m * pow2(shift % 256)) % pow2(256));
        if e <= 34 && m * pow2(shift) < pow2(256) {
            assert(shift % 256 == shift);
            lemma_small_mod(m * pow2(shift), pow2(256));
        }
    } else if e == 3 {
        assert(m / pow2(0) == m);
    }
}

} // verus!

//! The model of the exponent's binary decomposition: the value a sequence of
//! boolean witnesses stands for under the binary place-value sum, and the
//! facts that tie the decomposition to the exponent it reconstructs.

use vstd::prelude::*;
use vstd::arithmetic::power2::{pow2, lemma_pow2_pos, lemma_pow2_unfold, lemma2_to64};
use vstd::arithmetic::div_mod::{lemma_mod_breakdown, lemma_div_denominator};

verus! {

/// The value a sequence of bits stands for, least-significant bit first:
/// the binary place-value sum of the bits.
pub open spec fn bits_value(bits: Seq<nat>) -> nat
    decreases bits.len(),
{
    if bits.len() == 0 {
        0
    } else {
        bits[0] + 2 * bits_value(bits.drop_first())
    }
}

/// Every entry of the sequence is boolean-valued.
pub open spec fn is_bit_seq(bits: Seq<nat>) -> bool {
    forall|i: int| 0 <= i < bits.len() ==> bits[i] <= 1
}

/// Bit `i` of the value `v`, least-significant bit first.
pub open spec fn bit_of(v: nat, i: nat) -> nat {
    (v / pow2(i)) % 2
}

/// The `n` low bits of the value `v`, least-significant bit first.
pub open spec fn bits_of(v: nat, n: nat) -> Seq<nat> {
    Seq::new(n, |i: int| bit_of(v, i as nat))
}

/// The low bits of a value are boolean-valued.
pub proof fn lemma_bits_of_is_bit_seq(v: nat, n: nat)
    ensures
        is_bit_seq(bits_of(v, n)),
{
}

/// The place-value sum of the `n` low bits of `v` reconstructs `v` reduced
/// modulo `2^n`; when `v` fits in `n` bits it reconstructs `v` itself.
pub proof fn lemma_bits_of_value(v: nat, n: nat)
    ensures
        bits_value(bits_of(v, n)) == v % pow2(n),
    decreases n,
{
    lemma2_to64();
    if n == 0 {
        assert(bits_of(v, 0).len() == 0);
        assert(v % pow2(0) == 0);
    } else {
        lemma_bits_of_value(v / 2, (n - 1) as nat);
        lemma_pow2_unfold(n);
        assert forall|i: int| 0 <= i < n - 1 implies bits_of(v, n).drop_first()[i] == bits_of(
            v / 2,
            (n - 1) as nat,
        )[i] by {
            lemma_pow2_unfold((i + 1) as nat);
            lemma_pow2_pos(i as nat);
            lemma_div_denominator(v as int, 2, pow2(i as nat) as int);
            assert(bit_of(v, (i + 1) as nat) == bit_of(v / 2, i as nat));
        }
        assert(bits_of(v, n).drop_first() =~= bits_of(v / 2, (n - 1) as nat));
        assert(bits_of(v, n)[0] == v % 2);
        lemma_pow2_pos((n - 1) as nat);
        lemma_mod_breakdown(v as int, 2, pow2((n - 1) as nat) as int);
        assert(v % pow2(n) == 2 * ((v / 2) % pow2((n - 1) as nat)) + v % 2);
    }
}

/// A sequence of `n` boolean bits can only stand for values below `2^n`.
pub proof fn lemma_bits_value_bounded(bits: Seq<nat>)
    requires
        is_bit_seq(bits),
    ensures
        bits_value(bits) < pow2(bits.len()),
    decreases bits.len(),
{
    lemma2_to64();
    if bits.len() > 0 {
        lemma_bits_value_bounded(bits.drop_first());
        lemma_pow2_unfold(bits.len());
    }
}

/// The bit-width boundary: an exponent whose true value does not fit in the
/// width of the decomposition cannot be reconstructed by it — the
/// place-value sum of the bits always differs from it, so the constraint
/// tying the two together cannot hold, whatever the bits are.
pub proof fn lemma_exponent_too_wide(bits: Seq<nat>, exp: nat)
    requires
        is_bit_seq(bits),
        exp >= pow2(bits.len()),
    ensures
        bits_value(bits) != exp,
{
    lemma_bits_value_bounded(bits);
}

/// The bit-width boundary for the decomposition the gadget performs: the
/// low `n` bits of an exponent that does not fit in `n` bits never
/// reconstruct it, so the constraint forcing the reconstruction cannot be
/// satisfied.
pub proof fn lemma_low_bits_cannot_reconstruct(exp: nat, n: nat)
    requires
        exp >= pow2(n),
    ensures
        bits_value(bits_of(exp, n)) != exp,
{
    lemma_bits_of_is_bit_seq(exp, n);
    lemma_exponent_too_wide(bits_of(exp, n), exp);
}

/// A decomposition whose bits are all zero stands for the exponent zero.
pub proof fn lemma_all_zero_bits(bits: Seq<nat>)
    requires
        forall|i: int| 0 <= i < bits.len() ==> bits[i] == 0,
    ensures
        bits_value(bits) == 0,
    decreases bits.len(),
{
    if bits.len() > 0 {
        lemma_all_zero_bits(bits.drop_first());
    }
}

} // verus!

//! The mathematical model of the claim the gadget proves: exponentiation in
//! the scalar field, together with the facts about it that the
//! square-and-multiply schedule rests on.

use vstd::prelude::*;
use vstd::arithmetic::power::{pow, lemma_pow0, lemma_pow1, lemma_pow_adds};
use vstd::arithmetic::div_mod::{lemma_mul_mod_noop_general, lemma_small_mod};

verus! {

/// The order of the scalar field of the BN254 curve: every value the gadget
/// manipulates is a residue modulo this 254-bit prime.
pub open spec fn field_order() -> nat {
    21888242871839275222246405745257275088548364400416034343698204186575808495617nat
}

/// Exponentiation in the scalar field: `base` raised to `exp`, reduced
/// modulo the field order.
pub open spec fn field_pow(base: nat, exp: nat) -> nat {
    (pow(base as int, exp) % (field_order() as int)) as nat
}

/// Raising any base, zero included, to the exponent zero gives the
/// multiplicative identity: the schedule starts its accumulator there.
pub proof fn lemma_field_pow_zero(base: nat)
    ensures
        field_pow(base, 0) == 1,
{
    lemma_pow0(base as int);
    lemma_small_mod(1, field_order());
}

/// An exponent of one gives the base back, reduced into the field.
pub proof fn lemma_field_pow_one(base: nat)
    ensures
        field_pow(base, 1) == base % field_order(),
{
    lemma_pow1(base as int);
}

/// The squaring step of the schedule: squaring `base^e` in the field
/// doubles the exponent.
pub proof fn lemma_field_pow_square(base: nat, e: nat)
    ensures
        field_pow(base, 2 * e) == (field_pow(base, e) * field_pow(base, e)) % field_order(),
{
    lemma_pow_adds(base as int, e, e);
    lemma_mul_mod_noop_general(pow(base as int, e), pow(base as int, e), field_order() as int);
}

/// The multiply step of the schedule: multiplying `base^e` by the base in
/// the field advances the exponent by one.
pub proof fn lemma_field_pow_step(base: nat, e: nat)
    ensures
        field_pow(base, e + 1) == (field_pow(base, e) * base) % field_order(),
{
    lemma_pow1(base as int);
    lemma_pow_adds(base as int, e, 1);
    lemma_mul_mod_noop_general(pow(base as int, e), base as int, field_order() as int);
}

/// The closing equality decides the claim: once the accumulator carries the
/// field exponentiation of the base by the exponent, a claimed result is
/// equal to the accumulator exactly when the claim `res = base^exp` holds.
/// A matching claim satisfies the closing constraint, and any other claimed
/// result violates it, leaving the circuit unsatisfiable.
pub proof fn lemma_closing_equality_decides(acc: nat, base: nat, exp: nat, res: nat)
    requires
        acc == field_pow(base, exp),
    ensures
        res == acc <==> res == field_pow(base, exp),
{
}

} // verus!

//! The gadget itself: witness ingestion, exponent bit-decomposition, the
//! square-and-multiply schedule over constraint-system primitives, and the
//! closing equality that ties the accumulator to the claimed result.

use vstd::prelude::*;
use vstd::arithmetic::power2::pow2;
use vstd::arithmetic::div_mod::lemma_small_mod;
use halo2_base::halo2_proofs::halo2curves::bn256::Fr;
use crate::field_exp::{
    field_order,
    field_pow,
    lemma_field_pow_zero,
    lemma_field_pow_square,
    lemma_field_pow_step,
};
use crate::exponent_bits::{bits_value, bit_of, bits_of, lemma_bits_of_value};
use crate::gates::{
    Engine,
    Witness,
    fr_value,
    witness_value,
    evaluated,
    load_witness,
    load_one,
    mul_gate,
    select_gate,
    decompose_to_bits,
    constrain_equal,
};

verus! {

/// The claim handed to the gadget: three field values `base`, `exp` and
/// `res`, and the bit width `max_bits` that the exponent is decomposed to.
/// A `max_bits` too small for the true exponent does not raise an error: it
/// leaves the resulting constraint system unsatisfiable.
pub struct CircuitInput {
    /// The base of the exponentiation.
    pub base: Fr,
    /// The exponent; it must fit in `max_bits` bits for the circuit to be
    /// satisfiable.
    pub exp: Fr,
    /// The claimed result of the field exponentiation.
    pub res: Fr,
    /// The number of boolean witnesses the exponent is decomposed into.
    pub max_bits: usize,
}

/// The witnesses the gadget leaves in the session: the three ingested
/// values and the final accumulator, which the closing constraint forces
/// equal to the claimed result.
pub struct CircuitWitnesses {
    /// The witness bound to the base value.
    pub base: Witness,
    /// The witness bound to the exponent value.
    pub exp: Witness,
    /// The witness bound to the claimed result value.
    pub res: Witness,
    /// The final accumulator of the square-and-multiply schedule.
    pub acc: Witness,
}

/// The values assigned to a sequence of witness cells.
pub open spec fn witness_values(s: Seq<Witness>) -> Seq<nat> {
    s.map_values(|w: Witness| witness_value(w))
}

/// The square-and-multiply evaluator: consumes the bit sequence
/// most-significant bit first and keeps an accumulator witness, squaring it
/// for every bit after the first, always multiplying the squared
/// accumulator by the base, and selecting between product and squared
/// accumulator with the bit as the selector. The circuit's shape depends
/// only on the number of bits, never on their values. The returned
/// accumulator carries the base raised to the place-value sum of the bits,
/// in the field.
pub fn square_and_multiply(eng: &mut Engine, base: &Witness, bits: &Vec<Witness>) -> (acc: Witness)
    requires
        evaluated(*base),
        forall|i: int| 0 <= i < bits@.len() ==> evaluated(#[trigger] bits@[i]),
        forall|i: int| 0 <= i < bits@.len() ==> witness_value(#[trigger] bits@[i]) <= 1,
    ensures
        evaluated(acc),
        witness_value(acc) == field_pow(witness_value(*base), bits_value(witness_values(bits@))),
{
    let ghost base_v = witness_value(*base);
    let ghost wv = witness_values(bits@);
    let n = bits.len();
    let mut acc = load_one(eng);
    proof {
        assert(wv.subrange(n as int, n as int) =~= Seq::<nat>::empty());
        lemma_field_pow_zero(base_v);
    }
    let mut k: usize = 0;
    while k < n
        invariant
            k <= n,
            n == bits@.len(),
            wv == witness_values(bits@),
            base_v == witness_value(*base),
            evaluated(*base),
            forall|i: int| 0 <= i < n ==> evaluated(#[trigger] bits@[i]),
            forall|i: int| 0 <= i < n ==> witness_value(#[trigger] bits@[i]) <= 1,
            evaluated(acc),
            witness_value(acc) == field_pow(base_v, bits_value(wv.subrange(n - k, n as int))),
        decreases n - k,
    {
        let ghost prefix = bits_value(wv.subrange(n - k, n as int));
        if k != 0 {
            acc = mul_gate(eng, &acc, &acc);
        }
        proof {
            lemma_field_pow_square(base_v, prefix);
            assert(witness_value(acc) == field_pow(base_v, 2 * prefix));
        }
        let product = mul_gate(eng, &acc, base);
        proof {
            lemma_field_pow_step(base_v, 2 * prefix);
            assert(witness_value(product) == field_pow(base_v, 2 * prefix + 1));
        }
        let bit = &bits[n - 1 - k];
        let selected = select_gate(eng, &product, &acc, bit);
        proof {
            let extended = wv.subrange(n - k - 1, n as int);
            assert(extended.drop_first() =~= wv.subrange(n - k, n as int));
            assert(extended[0] == wv[n - 1 - k]);
            assert(bits_value(extended) == wv[n - 1 - k] + 2 * prefix);
            assert(witness_value(selected) == field_pow(base_v, bits_value(extended)));
        }
        acc = selected;
        k += 1;
    }
    proof {
        assert(wv.subrange(0, n as int) =~= wv);
    }
    acc
}

/// Builds the whole gadget in the session. The three values are bound as
/// witnesses, the exponent witness is decomposed into `max_bits` boolean
/// witnesses constrained to reconstruct it, the square-and-multiply
/// evaluator folds them into the accumulator, and one equality constraint
/// ties the accumulator to the claimed result witness.
///
/// The accumulator is assigned the base raised to the exponent's low
/// `max_bits` bits — the exponent itself whenever it fits in `max_bits`
/// bits. The closing constraint is therefore satisfied exactly when the
/// claimed result is that value; any other claim, and any exponent too wide
/// for `max_bits`, leaves the system unsatisfiable.
pub fn circuit(eng: &mut Engine, input: CircuitInput) -> (w: CircuitWitnesses)
    requires
        1 <= input.max_bits <= 254,
    ensures
        witness_value(w.base) == fr_value(input.base),
        witness_value(w.exp) == fr_value(input.exp),
        witness_value(w.res) == fr_value(input.res),
        witness_value(w.acc) == field_pow(
            fr_value(input.base),
            fr_value(input.exp) % pow2(input.max_bits as nat),
        ),
        fr_value(input.exp) < pow2(input.max_bits as nat) ==> witness_value(w.acc) == field_pow(
            fr_value(input.base),
            fr_value(input.exp),
        ),
{
    let base = load_witness(eng, input.base);
    let exp = load_witness(eng, input.exp);
    let res = load_witness(eng, input.res);
    let bits = decompose_to_bits(eng, &exp, input.max_bits);
    proof {
        let exp_v = witness_value(exp);
        lemma_bits_of_value(exp_v, input.max_bits as nat);
        assert(witness_values(bits@) =~= bits_of(exp_v, input.max_bits as nat));
        if exp_v < pow2(input.max_bits as nat) {
            lemma_small_mod(exp_v, pow2(input.max_bits as nat));
        }
    }
    let acc = square_and_multiply(eng, &base, &bits);
    constrain_equal(eng, &res, &acc);
    CircuitWitnesses { base, exp, res, acc }
}

} // verus!

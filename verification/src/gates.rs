//! The gadget's view of the constraint-system engine: the session and gate
//! chip of `halo2_base` behind an opaque handle, the witness cells behind
//! another, and one trusted wrapper per engine operation the gadget uses.
//!
//! A witness cell is opaque; two names describe what the engine keeps
//! behind it. `witness_value` is the field value assigned to the cell, as
//! an integer below the field order. `evaluated` says the cell holds its
//! assigned value in plain form, not as a deferred fraction, so gate
//! operations can read it; every cell the gadget makes is of this kind.

use vstd::prelude::*;
use halo2_base::AssignedValue;
use halo2_base::Context;
use halo2_base::gates::GateChip;
use halo2_base::gates::GateInstructions;
use halo2_base::halo2_proofs::halo2curves::ff::Field;
use halo2_base::halo2_proofs::halo2curves::bn256::Fr;
use crate::field_exp::field_order;
use crate::exponent_bits::bit_of;

verus! {

#[verifier::external_type_specification]
#[verifier::external_body]
pub struct ExFr(Fr);

/// The constraint-system session the gadget writes to: the engine's
/// context that takes the witnesses, and a gate chip whose operations
/// lay down the constraints. Opaque to the verifier; the trusted wrappers
/// below are the only doors to it.
#[verifier::external_body]
pub struct Engine<'a> {
    /// The engine's session that witnesses and constraints are added to.
    pub ctx: &'a mut Context<Fr>,
    /// The chip exposing the field-arithmetic gate operations.
    pub gate: &'a GateChip<Fr>,
}

/// A handle to one witness cell of the session: a field value bound into
/// the constraint system.
#[verifier::external_body]
pub struct Witness {
    /// The engine's assigned cell.
    pub cell: AssignedValue<Fr>,
}

/// The integer value of a scalar-field element: its canonical residue,
/// below the field order.
pub uninterp spec fn fr_value(v: Fr) -> nat;

/// The field value assigned to a witness cell, as an integer.
pub uninterp spec fn witness_value(w: Witness) -> nat;

/// Whether a witness cell carries its assigned value directly, so that the
/// gate operations can read it.
pub uninterp spec fn evaluated(w: Witness) -> bool;

/// Relies on `Context::load_witness`: the new cell is assigned exactly the
/// field value handed in, which is a canonical residue below the field
/// order.
#[verifier::external_body]
pub(crate) fn load_witness(eng: &mut Engine, v: Fr) -> (w: Witness)
    ensures
        witness_value(w) == fr_value(v),
        witness_value(w) < field_order(),
        evaluated(w),
{
    Witness { cell: eng.ctx.load_witness(v) }
}

/// Relies on `Context::load_constant` applied to the field's one: the new
/// cell is assigned the multiplicative identity and constrained to it.
#[verifier::external_body]
pub(crate) fn load_one(eng: &mut Engine) -> (w: Witness)
    ensures
        witness_value(w) == 1,
        evaluated(w),
{
    Witness { cell: eng.ctx.load_constant(Fr::ONE) }
}

/// Relies on `GateInstructions::mul`: the new cell is assigned the field
/// product of the two operands, and a gate constrains it to be that
/// product.
#[verifier::external_body]
pub(crate) fn mul_gate(eng: &mut Engine, a: &Witness, b: &Witness) -> (w: Witness)
    requires
        evaluated(*a),
        evaluated(*b),
    ensures
        witness_value(w) == (witness_value(*a) * witness_value(*b)) % field_order(),
        evaluated(w),
{
    Witness { cell: eng.gate.mul(eng.ctx, a.cell, b.cell) }
}

/// Relies on `GateChip::select`: the new cell is assigned the first operand
/// when the boolean selector is one and the second when it is zero, and a
/// gate constrains the selection `sel · a + (1 - sel) · b`.
#[verifier::external_body]
pub(crate) fn select_gate(eng: &mut Engine, a: &Witness, b: &Witness, sel: &Witness) -> (w: Witness)
    requires
        evaluated(*a),
        evaluated(*b),
        evaluated(*sel),
    ensures
        witness_value(*sel) == 1 ==> witness_value(w) == witness_value(*a),
        witness_value(*sel) == 0 ==> witness_value(w) == witness_value(*b),
        evaluated(w),
{
    Witness { cell: eng.gate.select(eng.ctx, a.cell, b.cell, sel.cell) }
}

/// Relies on `GateChip::num_to_bits`: the returned cells are assigned the
/// low little-endian bits of the operand's value, each is constrained to be
/// boolean, and their binary place-value sum is constrained to equal the
/// operand. The width may not exceed the field's bit length of 254.
#[verifier::external_body]
pub(crate) fn decompose_to_bits(eng: &mut Engine, a: &Witness, range_bits: usize) -> (bits: Vec<
    Witness,
>)
    requires
        evaluated(*a),
        1 <= range_bits <= 254,
    ensures
        bits@.len() == range_bits,
        forall|i: int|
            0 <= i < range_bits ==> witness_value(bits@[i]) == bit_of(witness_value(*a), i as nat),
        forall|i: int| 0 <= i < range_bits ==> evaluated(bits@[i]),
{
    let cells = eng.gate.num_to_bits(eng.ctx, a.cell, range_bits);
    cells.into_iter().map(|cell| Witness { cell }).collect()
}

/// Relies on `Context::constrain_equal`: records one equality constraint
/// forcing the two cells to hold the same value; nothing is returned, and
/// a violating assignment shows up only as unsatisfiability.
#[verifier::external_body]
pub(crate) fn constrain_equal(eng: &mut Engine, a: &Witness, b: &Witness) {
    eng.ctx.constrain_equal(&a.cell, &b.cell);
}

} // verus!

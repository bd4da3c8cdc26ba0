//! An arithmetic-circuit gadget that proves the relation `res = base^exp`
//! over the scalar field of the BN254 curve. The exponent is decomposed into
//! a fixed number of boolean witnesses, and a square-and-multiply schedule
//! evaluates the exponentiation entirely with constraint-system primitives:
//! field multiplication, boolean selection and a closing equality.

pub mod circuit;
pub mod exponent_bits;
pub mod field_exp;
pub mod gates;

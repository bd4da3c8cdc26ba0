use halo2_base::gates::RangeInstructions;
use halo2_base::halo2_proofs::halo2curves::bn256::Fr;
use halo2_base::utils::testing::base_test;
use halo2_base::utils::ScalarField;
use num_bigint::{BigUint, RandomBits};
use num_traits::Num;
use rand::{thread_rng, Rng};

use pow_circuit::circuit::{circuit, CircuitInput};
use pow_circuit::gates::Engine;

#[test]
fn test_circuit() {
    let mut rng = thread_rng();

    // BN254 scalar field modulus
    let modulus = BigUint::from_str_radix(
        "30644e72e131a029b85045b68181585d2833e84879b9709143e1f593f0000001",
        16,
    )
    .unwrap();

    let base: BigUint = rng.sample(RandomBits::new(253));
    let exp: BigUint = rng.sample(RandomBits::new(253));
    let res: BigUint = base.modpow(&exp, &modulus);

    base_test()
        .k(15)
        .expect_satisfied(true)
        .run(|ctx, range| {
            let input = CircuitInput {
                base: Fr::from_bytes_le(base.to_bytes_le().as_slice()),
                exp: Fr::from_bytes_le(exp.to_bytes_le().as_slice()),
                res: Fr::from_bytes_le(res.to_bytes_le().as_slice()),
                max_bits: 253,
            };
            let mut eng = Engine { ctx, gate: range.gate() };
            circuit(&mut eng, input);
        });
}

#[test]
fn end_to_end_flipped_result_bit_is_unsatisfiable() {
    let mut rng = thread_rng();

    let modulus = BigUint::from_str_radix(
        "30644e72e131a029b85045b68181585d2833e84879b9709143e1f593f0000001",
        16,
    )
    .unwrap();

    let base: BigUint = rng.sample(RandomBits::new(253));
    let exp: BigUint = rng.sample(RandomBits::new(253));
    let res: BigUint = base.modpow(&exp, &modulus);
    let mut bad_res: BigUint = res.clone() ^ BigUint::from(1u8);
    if bad_res >= modulus {
        bad_res = res.clone() - 1u8;
    }
    assert_ne!(bad_res, res);

    base_test()
        .k(15)
        .expect_satisfied(false)
        .run(|ctx, range| {
            let input = CircuitInput {
                base: Fr::from_bytes_le(base.to_bytes_le().as_slice()),
                exp: Fr::from_bytes_le(exp.to_bytes_le().as_slice()),
                res: Fr::from_bytes_le(bad_res.to_bytes_le().as_slice()),
                max_bits: 253,
            };
            let mut eng = Engine { ctx, gate: range.gate() };
            circuit(&mut eng, input);
        });
}

#[test]
fn exact_power_is_satisfiable() {
    base_test()
        .expect_satisfied(true)
        .run(|ctx, range| {
            let input = CircuitInput {
                base: Fr::from(2u64),
                exp: Fr::from(10u64),
                res: Fr::from(1024u64),
                max_bits: 8,
            };
            let mut eng = Engine { ctx, gate: range.gate() };
            circuit(&mut eng, input);
        });
}

#[test]
fn wrong_result_is_unsatisfiable() {
    base_test()
        .expect_satisfied(false)
        .run(|ctx, range| {
            let input = CircuitInput {
                base: Fr::from(2u64),
                exp: Fr::from(10u64),
                res: Fr::from(1023u64),
                max_bits: 8,
            };
            let mut eng = Engine { ctx, gate: range.gate() };
            circuit(&mut eng, input);
        });
}

#[test]
fn exponent_wider_than_bit_width_is_unsatisfiable() {
    // 16 needs five bits, one more than the decomposition is given; even the
    // correct power is rejected.
    base_test()
        .expect_satisfied(false)
        .run(|ctx, range| {
            let input = CircuitInput {
                base: Fr::from(2u64),
                exp: Fr::from(16u64),
                res: Fr::from(65536u64),
                max_bits: 4,
            };
            let mut eng = Engine { ctx, gate: range.gate() };
            circuit(&mut eng, input);
        });
}

#[test]
fn full_field_width_decomposition_is_satisfiable() {
    base_test()
        .k(15)
        .expect_satisfied(true)
        .run(|ctx, range| {
            let input = CircuitInput {
                base: Fr::from(2u64),
                exp: Fr::from(3u64),
                res: Fr::from(8u64),
                max_bits: 254,
            };
            let mut eng = Engine { ctx, gate: range.gate() };
            circuit(&mut eng, input);
        });
}

#[test]
fn zero_exponent_yields_one_for_any_base() {
    let acc_value = base_test()
        .expect_satisfied(true)
        .run(|ctx, range| {
            let input = CircuitInput {
                base: Fr::from(7u64),
                exp: Fr::from(0u64),
                res: Fr::from(1u64),
                max_bits: 8,
            };
            let mut eng = Engine { ctx, gate: range.gate() };
            let w = circuit(&mut eng, input);
            *w.acc.cell.value()
        });
    assert_eq!(acc_value, Fr::from(1u64));
}

#[test]
fn zero_exponent_with_zero_base_yields_one() {
    let acc_value = base_test()
        .expect_satisfied(true)
        .run(|ctx, range| {
            let input = CircuitInput {
                base: Fr::from(0u64),
                exp: Fr::from(0u64),
                res: Fr::from(1u64),
                max_bits: 8,
            };
            let mut eng = Engine { ctx, gate: range.gate() };
            let w = circuit(&mut eng, input);
            *w.acc.cell.value()
        });
    assert_eq!(acc_value, Fr::from(1u64));
}

#[test]
fn single_bit_exponent_one_gives_base() {
    base_test()
        .expect_satisfied(true)
        .run(|ctx, range| {
            let input = CircuitInput {
                base: Fr::from(5u64),
                exp: Fr::from(1u64),
                res: Fr::from(5u64),
                max_bits: 1,
            };
            let mut eng = Engine { ctx, gate: range.gate() };
            circuit(&mut eng, input);
        });
}

#[test]
fn single_bit_exponent_zero_gives_one() {
    base_test()
        .expect_satisfied(true)
        .run(|ctx, range| {
            let input = CircuitInput {
                base: Fr::from(5u64),
                exp: Fr::from(0u64),
                res: Fr::from(1u64),
                max_bits: 1,
            };
            let mut eng = Engine { ctx, gate: range.gate() };
            circuit(&mut eng, input);
        });
}

#[test]
fn accumulator_carries_the_exact_power() {
    let values = base_test()
        .expect_satisfied(true)
        .run(|ctx, range| {
            let input = CircuitInput {
                base: Fr::from(3u64),
                exp: Fr::from(5u64),
                res: Fr::from(243u64),
                max_bits: 4,
            };
            let mut eng = Engine { ctx, gate: range.gate() };
            let w = circuit(&mut eng, input);
            (*w.base.cell.value(), *w.exp.cell.value(), *w.res.cell.value(), *w.acc.cell.value())
        });
    assert_eq!(values.0, Fr::from(3u64));
    assert_eq!(values.1, Fr::from(5u64));
    assert_eq!(values.2, Fr::from(243u64));
    assert_eq!(values.3, Fr::from(243u64));
}

use zkshield::commitment::generate_commitment;
use zkshield::error::ZkError;
use halo2_proofs::pasta::group::ff::PrimeField;
use halo2_proofs::pasta::Fp;

#[test]
fn commitment_is_deterministic() {
    let a = generate_commitment("1234").unwrap();
    let b = generate_commitment("1234").unwrap();
    assert_eq!(a, b);
}

#[test]
fn commitment_separates_distinct_secrets() {
    let a = generate_commitment("1").unwrap();
    let b = generate_commitment("2").unwrap();
    assert_ne!(a, b);
}

#[test]
fn commitment_rejects_non_numeric() {
    match generate_commitment("abc") {
        Err(ZkError::InputError(m)) => {
            assert_eq!(m, "Invalid secret - must be numeric");
        }
        other => panic!("expected an input error, got {:?}", other.is_ok()),
    }
}

#[test]
fn commitment_accepts_zero_and_rejects_padded_zero() {
    assert!(generate_commitment("0").is_ok());
    assert!(generate_commitment("").is_err());
    assert!(generate_commitment("0123").is_err());
    assert!(generate_commitment("12a4").is_err());
}

#[test]
fn commitment_matches_direct_poseidon_evaluation() {
    let m = Fp::from_str_vartime("1234").unwrap();
    let h = halo2_poseidon::Hash::<
        Fp,
        halo2_poseidon::P128Pow5T3,
        halo2_poseidon::ConstantLength<2>,
        3,
        2,
    >::init()
    .hash([m, m]);
    let expected = format!("{:?}", h);
    assert_eq!(generate_commitment("1234").unwrap(), expected);
}

#[test]
fn commitment_reduces_large_numerals() {
    // A numeral far above the field order still parses (reduced modulo the
    // order), so the call succeeds.
    let big = "115792089237316195423570985008687907853269984665640564039457584007913129639935";
    assert!(generate_commitment(big).is_ok());
}

use zkshield::field::fe_from_decimal;
use zkshield::keys::generate_keys;
use zkshield::params::load_params;
use zkshield::poseidon::poseidon_hash2;
use zkshield::prover::{generate_proof, generate_proof2};

use halo2_proofs::circuit::{Layouter, SimpleFloorPlanner, Value};
use halo2_proofs::pasta::group::ff::PrimeField;
use halo2_proofs::pasta::{EqAffine, Fp};
use halo2_proofs::plonk::{
    keygen_vk, verify_proof, Advice, Circuit, Column, ConstraintSystem, Error, Instance,
    SingleVerifier, VerifyingKey,
};
use halo2_proofs::poly::commitment::Params;
use halo2_proofs::transcript::{Blake2bRead, Challenge255};

const K: u32 = 7;

#[derive(Clone, Copy)]
struct HashCircuit {
    message: Value<[Fp; 2]>,
}

#[derive(Clone, Debug)]
struct HashConfig {
    input: [Column<Advice>; 2],
    expected: Column<Instance>,
    poseidon_config: halo2_gadgets::poseidon::Pow5Config<Fp, 3, 2>,
}

impl Circuit<Fp> for HashCircuit {
    type Config = HashConfig;
    type FloorPlanner = SimpleFloorPlanner;

    fn without_witnesses(&self) -> Self {
        HashCircuit { message: Value::unknown() }
    }

    fn configure(meta: &mut ConstraintSystem<Fp>) -> HashConfig {
        let state = [meta.advice_column(), meta.advice_column(), meta.advice_column()];
        let expected = meta.instance_column();
        meta.enable_equality(expected);
        let partial_sbox = meta.advice_column();
        let rc_a = [meta.fixed_column(), meta.fixed_column(), meta.fixed_column()];
        let rc_b = [meta.fixed_column(), meta.fixed_column(), meta.fixed_column()];
        meta.enable_constant(rc_b[0]);
        HashConfig {
            input: [state[0], state[1]],
            expected,
            poseidon_config: halo2_gadgets::poseidon::Pow5Chip::configure::<
                halo2_poseidon::P128Pow5T3,
            >(meta, state, partial_sbox, rc_a, rc_b),
        }
    }

    fn synthesize(
        &self,
        config: HashConfig,
        mut layouter: impl Layouter<Fp>,
    ) -> Result<(), Error> {
        let chip = halo2_gadgets::poseidon::Pow5Chip::construct(config.poseidon_config.clone());
        let message = layouter.assign_region(
            || "load message",
            |mut region| {
                let m0 = region.assign_advice(
                    || "load message_0",
                    config.input[0],
                    0,
                    || self.message.map(|v| v[0]),
                )?;
                let m1 = region.assign_advice(
                    || "load message_1",
                    config.input[1],
                    0,
                    || self.message.map(|v| v[1]),
                )?;
                Ok([m0, m1])
            },
        )?;
        let hasher = halo2_gadgets::poseidon::Hash::<
            _,
            _,
            halo2_poseidon::P128Pow5T3,
            halo2_poseidon::ConstantLength<2>,
            3,
            2,
        >::init(chip, layouter.namespace(|| "init"))?;
        let output = hasher.hash(layouter.namespace(|| "hash"), message)?;
        layouter.constrain_instance(output.cell(), config.expected, 0)
    }
}

fn params_bytes(k: u32) -> Vec<u8> {
    let p = Params::<EqAffine>::new(k);
    let mut v: Vec<u8> = Vec::new();
    p.write(&mut v).unwrap();
    v
}

fn direct_hash(m: Fp) -> Fp {
    halo2_poseidon::Hash::<Fp, halo2_poseidon::P128Pow5T3, halo2_poseidon::ConstantLength<2>, 3, 2>::init()
        .hash([m, m])
}

fn check(params: &Params<EqAffine>, vk: &VerifyingKey<EqAffine>, instance: Fp, proof: &[u8]) -> bool {
    let strategy = SingleVerifier::new(params);
    let mut transcript = Blake2bRead::<_, _, Challenge255<EqAffine>>::init(proof);
    verify_proof(params, vk, strategy, &[&[&[instance]]], &mut transcript).is_ok()
}

#[test]
fn end_to_end_proof_verifies_and_tampering_fails() {
    let srs = params_bytes(K);
    let params = load_params(K, Some(&srs)).unwrap();
    let m = Fp::from_str_vartime("1234").unwrap();
    let circuit = HashCircuit { message: Value::known([m, m]) };
    let keys = generate_keys(&params, &circuit).unwrap();
    let fe = fe_from_decimal("1234").unwrap();
    let h = poseidon_hash2(&fe, &fe);
    let proof = generate_proof(&params, &keys, circuit, vec![vec![h]]).unwrap();

    let raw = Params::<EqAffine>::new(K);
    let blank = HashCircuit { message: Value::unknown() };
    let vk = keygen_vk(&raw, &blank).unwrap();
    let instance = direct_hash(m);
    assert!(check(&raw, &vk, instance, &proof));

    let mut tampered = proof.clone();
    tampered[10] ^= 1;
    assert!(!check(&raw, &vk, instance, &tampered));

    assert!(!check(&raw, &vk, instance + Fp::from(1), &proof));
}

#[test]
fn one_key_pair_serves_two_secrets() {
    let srs = params_bytes(K);
    let params = load_params(K, Some(&srs)).unwrap();
    let blank = HashCircuit { message: Value::unknown() };
    let keys = generate_keys(&params, &blank).unwrap();

    let m1 = Fp::from_str_vartime("1234").unwrap();
    let m2 = Fp::from_str_vartime("5678").unwrap();
    let fe1 = fe_from_decimal("1234").unwrap();
    let fe2 = fe_from_decimal("5678").unwrap();
    let proof1 = generate_proof(
        &params,
        &keys,
        HashCircuit { message: Value::known([m1, m1]) },
        vec![vec![poseidon_hash2(&fe1, &fe1)]],
    )
    .unwrap();
    let proof2 = generate_proof(
        &params,
        &keys,
        HashCircuit { message: Value::known([m2, m2]) },
        vec![vec![poseidon_hash2(&fe2, &fe2)]],
    )
    .unwrap();

    let raw = Params::<EqAffine>::new(K);
    let vk = keygen_vk(&raw, &blank).unwrap();
    let h1 = direct_hash(m1);
    let h2 = direct_hash(m2);
    assert!(check(&raw, &vk, h1, &proof1));
    assert!(check(&raw, &vk, h2, &proof2));
    assert!(!check(&raw, &vk, h2, &proof1));
    assert!(!check(&raw, &vk, h1, &proof2));
}

#[test]
fn trimmed_and_direct_parameters_verify_the_same_proofs() {
    let srs_large = params_bytes(K + 1);
    let trimmed = load_params(K, Some(&srs_large)).unwrap();
    assert_eq!(trimmed.degree(), K);

    let m = Fp::from_str_vartime("1234").unwrap();
    let circuit = HashCircuit { message: Value::known([m, m]) };
    let keys = generate_keys(&trimmed, &circuit).unwrap();
    let fe = fe_from_decimal("1234").unwrap();
    let hexproof = generate_proof2(&trimmed, &keys, circuit, vec![vec![poseidon_hash2(&fe, &fe)]])
        .unwrap();
    let proof = hex::decode(&hexproof).unwrap();

    let direct = Params::<EqAffine>::new(K);
    let blank = HashCircuit { message: Value::unknown() };
    let vk = keygen_vk(&direct, &blank).unwrap();
    assert!(check(&direct, &vk, direct_hash(m), &proof));
}

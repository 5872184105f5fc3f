//! Non-interactive proof construction.
//!
//! The commit / challenge / open protocol runs inside the proof-system
//! crate: advice commitments first, then transcript-derived challenges,
//! then the batched opening, finalized into a self-contained byte string
//! bound to the public instance used at creation.  Blinding randomness
//! makes the bytes differ between calls, so nothing is assumed of their
//! value; the hexadecimal rendering of whatever came back is proved
//! exact.

use vstd::prelude::*;
use vstd::string::StringExecFns;
use halo2_proofs::pasta::{EqAffine, Fp};
use halo2_proofs::plonk::{create_proof, Circuit};
use halo2_proofs::transcript::{Blake2bWrite, Challenge255};

use crate::encoding::{hex_of_bytes, hex_string};
use crate::error::ZkError;
use crate::field::{fe_from_decimal, fe_to_fp, fp_of, valid_decimal, FieldElement};
use crate::keys::{generate_keys, KeyPair};
use crate::params::{read_params, readable_params, ParamSet};
use crate::poseidon::poseidon_hash2;

verus! {

/// Well-formedness of a public-instance matrix: every element carries a
/// canonical field-element representation.
pub open spec fn instances_wf(instances: Seq<Vec<FieldElement>>) -> bool {
    forall|i: int, j: int|
        0 <= i < instances.len() && 0 <= j < instances[i]@.len() ==> (#[trigger] instances[i]@[j]).wf()
}

/// Relies on `create_proof` over a Blake2b transcript: runs the
/// commit / challenge / open protocol for one circuit and one instance
/// matrix and finalizes the transcript into the proof bytes.  Blinding
/// randomness is drawn from the thread's cryptographic generator, so
/// nothing is assumed of the returned bytes.  The crate aborts when the
/// proving key's domain differs from the parameter set's, so the
/// precondition demands the pair match, which `KeyPair`'s construction
/// establishes; a circuit value whose type differs from the one the keys
/// were derived for is excluded by the shared type parameter.
#[verifier::external_body]
fn create_proof_call<ConcreteCircuit: Circuit<Fp>>(
    params: &ParamSet,
    keys: &KeyPair<ConcreteCircuit>,
    circuit: ConcreteCircuit,
    instances: &Vec<Vec<Fp>>,
) -> (r: Result<Vec<u8>, String>)
    requires
        keys.degree_spec() == params.degree_spec(),
        params.degree_spec() < 32,
{
    let refs: Vec<&[Fp]> = instances.iter().map(|c| c.as_slice()).collect();
    let mut t = Blake2bWrite::<Vec<u8>, EqAffine, Challenge255<EqAffine>>::init(vec![]);
    let run = create_proof(&params.raw.inner, &keys.pk.inner, &[circuit], &[refs.as_slice()], rand::rng(), &mut t);
    match run {
        Ok(()) => Ok(t.finalize()),
        Err(e) => Err(format!("{}", e)),
    }
}

/// Constructs a proof and returns the raw proof bytes.
///
/// The key pair must have been derived at the parameter set's degree,
/// which its construction guarantees; a proof-system failure is caught
/// here and reported as a recoverable proof error.
pub fn generate_proof<ConcreteCircuit: Circuit<Fp>>(
    params: &ParamSet,
    keys: &KeyPair<ConcreteCircuit>,
    circuit: ConcreteCircuit,
    public_inputs: Vec<Vec<FieldElement>>,
) -> (r: Result<Vec<u8>, ZkError>)
    requires
        keys.degree_spec() == params.degree_spec(),
        params.degree_spec() < 32,
        instances_wf(public_inputs@),
    ensures
        r matches Err(e) ==> e.is_proof_error(),
{
    let mut cols: Vec<Vec<Fp>> = Vec::new();
    let mut i: usize = 0;
    while i < public_inputs.len()
        invariant
            instances_wf(public_inputs@),
            i <= public_inputs@.len(),
            cols@.len() == i,
            forall|a: int| 0 <= a < i ==> (#[trigger] cols@[a])@.len() == public_inputs@[a]@.len(),
            forall|a: int, b: int|
                0 <= a < i && 0 <= b < public_inputs@[a]@.len() ==> #[trigger] cols@[a]@[b]
                    == fp_of(public_inputs@[a]@[b].repr_spec()),
        decreases public_inputs@.len() - i,
    {
        let row = &public_inputs[i];
        let mut col: Vec<Fp> = Vec::new();
        let mut j: usize = 0;
        while j < row.len()
            invariant
                instances_wf(public_inputs@),
                0 <= i < public_inputs@.len(),
                row@ == public_inputs@[i as int]@,
                j <= row@.len(),
                col@.len() == j,
                forall|b: int|
                    0 <= b < j ==> #[trigger] col@[b] == fp_of(
                        public_inputs@[i as int]@[b].repr_spec(),
                    ),
            decreases row@.len() - j,
        {
            col.push(fe_to_fp(&row[j]));
            j = j + 1;
        }
        proof {
            assert(col@.len() == public_inputs@[i as int]@.len());
        }
        cols.push(col);
        proof {
            assert(cols@[i as int]@.len() == public_inputs@[i as int]@.len());
            assert forall|a: int, b: int|
                0 <= a < i + 1 && 0 <= b < public_inputs@[a]@.len() implies #[trigger] cols@[a]@[b]
                == fp_of(public_inputs@[a]@[b].repr_spec()) by {
                if a < i {
                    assert(cols@[a]@[b] == fp_of(public_inputs@[a]@[b].repr_spec()));
                }
            }
        }
        i = i + 1;
    }
    // The instance matrix handed on is exactly the conversion, element
    // by element, of the caller's public inputs.
    match create_proof_call(params, keys, circuit, &cols) {
        Ok(bytes) => Ok(bytes),
        Err(m) => Err(ZkError::ProofError(m)),
    }
}

/// Constructs a proof and returns it hexadecimal-encoded.
///
/// The returned string is exactly the hexadecimal rendering of some
/// proof byte string produced by the protocol.
pub fn generate_proof2<ConcreteCircuit: Circuit<Fp>>(
    params: &ParamSet,
    keys: &KeyPair<ConcreteCircuit>,
    circuit: ConcreteCircuit,
    public_inputs: Vec<Vec<FieldElement>>,
) -> (r: Result<String, ZkError>)
    requires
        keys.degree_spec() == params.degree_spec(),
        params.degree_spec() < 32,
        instances_wf(public_inputs@),
    ensures
        r matches Err(e) ==> e.is_proof_error(),
        r matches Ok(s) ==> exists|b: Seq<u8>| s@ == hex_of_bytes(b),
{
    match generate_proof(params, keys, circuit, public_inputs) {
        Ok(bytes) => {
            let s = hex_string(bytes.as_slice());
            proof {
                assert(s@ == hex_of_bytes(bytes@));
            }
            Ok(s)
        },
        Err(e) => Err(e),
    }
}

/// Parses a secret, evaluates its commitment instance, loads the
/// parameter set from a pre-resident buffer, derives keys for the
/// supplied circuit, and constructs the hexadecimal-encoded proof over
/// the instance `[hash(secret, secret)]`.  The caller supplies the
/// circuit whose witness is the same duplicated secret.
pub fn generate_proof_data<ConcreteCircuit: Circuit<Fp>>(
    secret: &str,
    parambytes: &[u8],
    circuit: ConcreteCircuit,
) -> (r: Result<String, ZkError>)
    ensures
        !valid_decimal(secret@) <==> (r matches Err(e) && e.is_input_error()),
        r matches Err(e) ==> (e.is_input_error() ==> e.message_spec() == (
        "Invalid secret - must be numeric")@),
        (valid_decimal(secret@) && !readable_params(parambytes@)) ==> (r matches Err(e)
            && e.is_params_error()),
        r matches Err(e) ==> e.is_input_error() || e.is_params_error() || e.is_setup_error()
            || e.is_proof_error(),
        r matches Ok(s) ==> valid_decimal(secret@) && readable_params(parambytes@) && exists|b:
            Seq<u8>| s@ == hex_of_bytes(b),
{
    let fe = match fe_from_decimal(secret) {
        Some(fe) => fe,
        None => {
            return Err(ZkError::InputError(String::from_str("Invalid secret - must be numeric")));
        },
    };
    let output = poseidon_hash2(&fe, &fe);
    let params = match read_params(parambytes) {
        Ok(p) => p,
        Err(e) => {
            return Err(e);
        },
    };
    let keys = match generate_keys(&params, &circuit) {
        Ok(kp) => kp,
        Err(e) => {
            return Err(e);
        },
    };
    let mut column: Vec<FieldElement> = Vec::new();
    column.push(output);
    let mut instance: Vec<Vec<FieldElement>> = Vec::new();
    instance.push(column);
    proof {
        assert forall|i: int, j: int|
            0 <= i < instance@.len() && 0 <= j < instance@[i]@.len() implies (
        #[trigger] instance@[i]@[j]).wf() by {
            assert(i == 0 && j == 0);
        }
    }
    generate_proof2(&params, &keys, circuit, instance)
}

} // verus!

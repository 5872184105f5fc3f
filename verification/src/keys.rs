//! Derivation of proving and verifying keys.
//!
//! A key pair is valid only for the constraint system and parameter set
//! it was derived from; using mismatched material is undefined behaviour
//! in the underlying proof system.  The library prevents that by
//! construction: a `KeyPair` is built only here, from one circuit and one
//! parameter set.  It carries the circuit type as a phantom parameter —
//! the constraint system is a function of the type alone, since the
//! configuration phase never sees a witness — and records the parameter
//! set's degree exponent, on which the prover insists.  What this does
//! not prevent: two values of the same circuit type are interchangeable
//! (harmless, they share one shape), and two parameter sets of one degree
//! are told apart only by that degree, which canonical generation makes
//! sufficient in practice but not in principle.

use core::marker::PhantomData;

use vstd::prelude::*;
use vstd::string::StringExecFns;
use halo2_proofs::pasta::{EqAffine, Fp};
use halo2_proofs::plonk::{keygen_pk, keygen_vk, Circuit, ProvingKey, VerifyingKey};

use crate::encoding::dec_chars_of;
use crate::error::ZkError;
use crate::params::{
    header_k, load_params, params_input_ok, readable_params, srs_view, ParamSet, MAX_DEGREE,
};

verus! {

/// Opaque carrier for a proving key; Verus sees nothing inside it.
#[verifier::external_body]
pub struct RawProvingKey {
    pub(crate) inner: ProvingKey<EqAffine>,
}

/// Opaque carrier for a verifying key; Verus sees nothing inside it.
#[verifier::external_body]
pub struct RawVerifyingKey {
    pub(crate) inner: VerifyingKey<EqAffine>,
}

/// The degree exponent of the evaluation domain a verifying key was
/// derived at; names what `keygen_vk` embeds from the parameter set it
/// was handed, a function of the key value alone.
pub uninterp spec fn vk_degree_of(vk: RawVerifyingKey) -> u32;

/// A proving/verifying key pair, bound by construction to the circuit
/// type it was derived for and to its parameter set's degree exponent.
#[verifier::reject_recursive_types(ConcreteCircuit)]
pub struct KeyPair<ConcreteCircuit> {
    pub(crate) pk: RawProvingKey,
    pub(crate) vk: RawVerifyingKey,
    pub(crate) k: u32,
    pub(crate) shape: PhantomData<ConcreteCircuit>,
}

impl<ConcreteCircuit> KeyPair<ConcreteCircuit> {
    /// The degree exponent of the parameter set the keys were derived
    /// from.
    pub closed spec fn degree_spec(&self) -> u32 {
        self.k
    }

    /// Reports the degree exponent the keys were derived at.
    pub fn degree(&self) -> (r: u32)
        ensures
            r == self.degree_spec(),
    {
        self.k
    }
}

/// Relies on `keygen_vk`: derives the verifying key from the circuit's
/// configuration over a blank witness, reporting inconsistent wiring or
/// a parameter set smaller than the circuit's row count as an error; the
/// key's domain degree is the parameter set's.  Key derivation extends
/// the `2^k` domain by up to three doublings for gates of degree at most
/// 9 — which covers this library's circuit family, whose gates stop at
/// degree 6 — and the crate aborts past `2^32`, so the precondition caps
/// the degree at `MAX_DEGREE` (29).  A caller-supplied circuit of higher
/// gate degree can still abort inside the crate, and no contract over an
/// opaque circuit type can exclude that.
#[verifier::external_body]
fn keygen_vk_call<ConcreteCircuit: Circuit<Fp>>(params: &ParamSet, circuit: &ConcreteCircuit) -> (r:
    Result<RawVerifyingKey, String>)
    requires
        params.degree_spec() <= MAX_DEGREE,
    ensures
        r matches Ok(vk) ==> vk_degree_of(vk) == params.degree_spec(),
{
    match keygen_vk(&params.raw.inner, circuit) {
        Ok(vk) => Ok(RawVerifyingKey { inner: vk }),
        Err(e) => Err(format!("{}", e)),
    }
}

/// Relies on `keygen_pk`: derives the proving key for an already-derived
/// verifying key.  The verifying key must have been derived at this
/// parameter set's degree — the crate commits the fixed columns with
/// these parameters against the key's domain and aborts on a length
/// mismatch — which the precondition demands.  Nothing is assumed of the
/// key value itself.
#[verifier::external_body]
fn keygen_pk_call<ConcreteCircuit: Circuit<Fp>>(
    params: &ParamSet,
    vk: &RawVerifyingKey,
    circuit: &ConcreteCircuit,
) -> (r: Result<RawProvingKey, String>)
    requires
        params.degree_spec() <= MAX_DEGREE,
        vk_degree_of(*vk) == params.degree_spec(),
{
    match keygen_pk(&params.raw.inner, vk.inner.clone(), circuit) {
        Ok(pk) => Ok(RawProvingKey { inner: pk }),
        Err(e) => Err(format!("{}", e)),
    }
}

/// Prefixes a message with a static tag.
fn tag_message(tag: &str, m: String) -> (r: String)
    ensures
        r@ == tag@ + m@,
{
    let mut s = String::from_str(tag);
    s.append(m.as_str());
    s
}

/// Derives the proving and verifying keys for a circuit shape under a
/// parameter set.  Key material depends only on the circuit's shape (the
/// derivation runs over a blank witness), never on witness values; a
/// failure is fatal and reported as a setup error.  The degree cap is
/// `MAX_DEGREE` (29): derivation extends the evaluation domain by three
/// doublings for this circuit family and the backend's field stops at
/// `2^32`; every set the loading functions hand out satisfies the cap.
pub fn generate_keys<ConcreteCircuit: Circuit<Fp>>(
    params: &ParamSet,
    circuit: &ConcreteCircuit,
) -> (r: Result<KeyPair<ConcreteCircuit>, ZkError>)
    requires
        params.degree_spec() <= MAX_DEGREE,
    ensures
        r matches Ok(kp) ==> kp.degree_spec() == params.degree_spec(),
        r matches Err(e) ==> e.is_setup_error(),
{
    let vk = match keygen_vk_call(params, circuit) {
        Ok(vk) => vk,
        Err(m) => {
            return Err(ZkError::SetupError(tag_message("VK error: ", m)));
        },
    };
    let pk = match keygen_pk_call(params, &vk, circuit) {
        Ok(pk) => pk,
        Err(m) => {
            return Err(ZkError::SetupError(tag_message("PK error: ", m)));
        },
    };
    Ok(KeyPair { pk, vk, k: params.degree(), shape: PhantomData })
}

/// Loads (or synthesizes) a parameter set at degree exponent `k` and
/// derives the keys for the circuit under it, handing back both.
pub fn generate_params<ConcreteCircuit: Circuit<Fp>>(
    k: u32,
    circuit: &ConcreteCircuit,
    srs_bytes: Option<&[u8]>,
) -> (r: Result<(ParamSet, KeyPair<ConcreteCircuit>), ZkError>)
    ensures
        r matches Ok(pair) ==> pair.0.degree_spec() == k && pair.1.degree_spec() == k,
        !params_input_ok(k, srs_view(srs_bytes)) ==> (r matches Err(e) && e.is_params_error()),
        r matches Err(e) ==> e.is_params_error() || e.is_setup_error(),
        params_input_ok(k, srs_view(srs_bytes)) ==> (r matches Err(e) ==> e.is_setup_error()),
        match srs_bytes {
            Some(b) => (readable_params(b@) && header_k(b@) < k) ==> (r matches Err(e)
                && e.message_spec() == ("ptau error: k is too large. max k: ")@ + dec_chars_of(
                header_k(b@) as nat,
            )),
            None => true,
        },
        r matches Ok(pair) ==> match srs_view(srs_bytes) {
            None => pair.0.from_canonical(k),
            Some(b) => header_k(b) > k ==> pair.0.from_canonical(k),
        },
{
    let params = match load_params(k, srs_bytes) {
        Ok(p) => p,
        Err(e) => {
            return Err(e);
        },
    };
    let keys = match generate_keys(&params, circuit) {
        Ok(kp) => kp,
        Err(e) => {
            return Err(e);
        },
    };
    Ok((params, keys))
}

} // verus!

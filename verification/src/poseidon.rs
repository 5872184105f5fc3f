//! The Poseidon permutation parameterization and hash evaluation.
//!
//! The permutation runs over a state of width 3 (rate 2, capacity 1) with
//! 8 full rounds, 56 partial rounds, the S-box `x ^ 5`, and round
//! constants and MDS matrix fixed by the deterministic grain generation
//! procedure at selector index 0.  Changing any of these values changes
//! every downstream commitment and is a breaking parameter change.

use vstd::prelude::*;
use halo2_proofs::pasta::Fp;
use halo2_proofs::pasta::group::ff::{Field, PrimeField};
use halo2_poseidon::{ConstantLength, P128Pow5T3};

use crate::field::FieldElement;

verus! {

/// The Poseidon hash of a two-element message, as canonical
/// representation bytes; names the result of halo2_poseidon's `Hash`
/// with this library's parameterization, a pure function of the two
/// message elements.
pub uninterp spec fn poseidon2_of(a: Seq<u8>, b: Seq<u8>) -> Seq<u8>;

/// The fifth power of a field element, as canonical representation
/// bytes; names the result of ff's `pow_vartime` at exponent 5.
pub uninterp spec fn fe_pow5_of(a: Seq<u8>) -> Seq<u8>;

/// The permutation parameterization used throughout the library.  The
/// name records the parameter family (width 3, rate 2, 8 full and 56
/// partial rounds, `x ^ 5`); on this backend the permutation runs over
/// the Pasta base field, the proof system's scalar field.
pub struct Posbn254<const WIDTH: usize, const RATE: usize>;

impl<const WIDTH: usize, const RATE: usize> Posbn254<WIDTH, RATE> {
    /// Number of full rounds, in which the S-box applies to every state
    /// element.
    pub fn full_rounds() -> (r: usize)
        ensures
            r == 8,
    {
        8
    }

    /// Number of partial rounds, in which the S-box applies to a single
    /// designated state element.
    pub fn partial_rounds() -> (r: usize)
        ensures
            r == 56,
    {
        56
    }

    /// Selector index among the candidate MDS matrices of the generation
    /// procedure; pinned for reproducibility.
    pub fn secure_mds() -> (r: usize)
        ensures
            r == 0,
    {
        0
    }

    /// The S-box: raises a field element to the fifth power.
    ///
    /// Relies on ff's `pow_vartime` at the fixed exponent 5; the result
    /// is repacked as its canonical representation bytes.
    #[verifier::external_body]
    pub fn sbox(val: &FieldElement) -> (r: FieldElement)
        requires
            val.wf(),
        ensures
            r.wf(),
            r.repr_spec() == fe_pow5_of(val.repr_spec()),
    {
        let v = Fp::from_repr(val.bytes.as_slice().try_into().unwrap()).unwrap();
        FieldElement { bytes: v.pow_vartime([5u64]).to_repr().to_vec() }
    }
}

/// Hashes a two-element message with the Poseidon permutation.
///
/// Relies on halo2_poseidon's `Hash` with the `P128Pow5T3`
/// parameterization (width 3, rate 2, 8 full and 56 partial rounds,
/// S-box `x ^ 5`, grain-generated constants at selector 0), a pure,
/// deterministic function of the two message elements; the result is
/// repacked as its canonical representation bytes.
#[verifier::external_body]
pub fn poseidon_hash2(a: &FieldElement, b: &FieldElement) -> (r: FieldElement)
    requires
        a.wf(),
        b.wf(),
    ensures
        r.wf(),
        r.repr_spec() == poseidon2_of(a.repr_spec(), b.repr_spec()),
{
    let x = Fp::from_repr(a.bytes.as_slice().try_into().unwrap()).unwrap();
    let y = Fp::from_repr(b.bytes.as_slice().try_into().unwrap()).unwrap();
    let h = halo2_poseidon::Hash::<Fp, P128Pow5T3, ConstantLength<2>, 3, 2>::init().hash([x, y]);
    FieldElement { bytes: h.to_repr().to_vec() }
}

} // verus!

//! Stand-alone commitment evaluation.
//!
//! A commitment is the Poseidon hash of a two-element message built by
//! duplicating the secret, returned as the canonical text form of a field
//! element: `0x` followed by the big-endian hexadecimal digits of its
//! canonical representation.  No proof is involved and there are no side
//! effects.

use vstd::prelude::*;
use vstd::string::StringExecFns;

use crate::encoding::{hex_of_bytes, hex_string};
use crate::error::ZkError;
use crate::field::{fe_from_decimal, fe_of_decimal, valid_decimal, FieldElement};
use crate::poseidon::{poseidon2_of, poseidon_hash2};

verus! {

/// The canonical text form of a field element given by its representation
/// bytes: `0x` then the bytes in reverse (big-endian) order, two
/// lower-case hexadecimal digits each.
pub open spec fn fe_repr_chars(repr: Seq<u8>) -> Seq<char> {
    seq!['0', 'x'] + hex_of_bytes(repr.reverse())
}

/// The commitment text owed for a valid decimal secret: the secret's
/// field element, duplicated into both message halves, hashed, and
/// rendered in canonical text form.
pub open spec fn commitment_chars(secret: Seq<char>) -> Seq<char> {
    fe_repr_chars(poseidon2_of(fe_of_decimal(secret), fe_of_decimal(secret)))
}

/// Copies a byte vector in reverse order.
fn reversed(v: &Vec<u8>) -> (r: Vec<u8>)
    ensures
        r@ == v@.reverse(),
{
    let mut r: Vec<u8> = Vec::new();
    let n = v.len();
    let mut i: usize = 0;
    while i < n
        invariant
            i <= n == v@.len(),
            r@.len() == i,
            forall|j: int| 0 <= j < i ==> r@[j] == v@[v@.len() - 1 - j],
        decreases n - i,
    {
        r.push(v[n - 1 - i]);
        i = i + 1;
    }
    proof {
        assert(r@ =~= v@.reverse());
    }
    r
}

/// Renders a field element in its canonical text form.
pub fn fe_repr_string(fe: &FieldElement) -> (r: String)
    ensures
        r@ == fe_repr_chars(fe.repr_spec()),
{
    let rev = reversed(fe.repr());
    let hex = hex_string(rev.as_slice());
    let mut s = String::from_str("0x");
    proof {
        reveal_strlit("0x");
        assert(("0x")@ =~= seq!['0', 'x']);
    }
    s.append(hex.as_str());
    s
}

/// Evaluates the commitment for a decimal secret.
///
/// Succeeds exactly on the decimal numerals the field accepts, returning
/// the canonical text form of the Poseidon hash of the duplicated secret;
/// a malformed secret is reported as an input error.
pub fn generate_commitment(secret: &str) -> (r: Result<String, ZkError>)
    ensures
        r is Ok <==> valid_decimal(secret@),
        r matches Ok(s) ==> s@ == commitment_chars(secret@),
        r matches Err(e) ==> e.is_input_error() && e.message_spec() == (
        "Invalid secret - must be numeric")@,
{
    match fe_from_decimal(secret) {
        Some(fe) => {
            let h = poseidon_hash2(&fe, &fe);
            Ok(fe_repr_string(&h))
        },
        None => Err(
            ZkError::InputError(String::from_str("Invalid secret - must be numeric")),
        ),
    }
}

/// Determinism of the commitment: any two results obtained for the same
/// secret are the same string.  The commitment text is a function of the
/// secret alone, so repeated calls of `generate_commitment` agree.
pub proof fn lemma_commitment_deterministic(secret: Seq<char>, r1: Seq<char>, r2: Seq<char>)
    requires
        r1 == commitment_chars(secret),
        r2 == commitment_chars(secret),
    ensures
        r1 == r2,
{
}

} // verus!

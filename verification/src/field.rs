//! Field elements as the library holds them.
//!
//! All arithmetic takes place in the fixed prime scalar field of the
//! polynomial-commitment curve.  The library never opens a field element:
//! it holds the canonical 32-byte little-endian representation as plain
//! bytes, and the arithmetic crate's operations stand behind trusted
//! items whose contracts speak of those bytes.

use vstd::prelude::*;
use vstd::arithmetic::power2::pow2;
use halo2_proofs::pasta::Fp;
use halo2_proofs::pasta::group::ff::PrimeField;

verus! {

#[verifier::external_type_specification]
#[verifier::external_body]
pub struct ExFp(Fp);

/// True of a byte sequence that is the canonical representation of some
/// field element; names what the arithmetic crate's `from_repr` accepts.
pub uninterp spec fn canonical_repr(b: Seq<u8>) -> bool;

/// The canonical representation of the field element a decimal numeral
/// denotes (the numeral reduced modulo the field order); names the result
/// of ff's `from_str_vartime`.
pub uninterp spec fn fe_of_decimal(s: Seq<char>) -> Seq<u8>;

/// The result of applying the field's `from_repr` to canonical
/// representation bytes; names the opaque field value those bytes denote.
pub uninterp spec fn fp_of(b: Seq<u8>) -> Fp;

/// Byte `i` of a 64-bit integer's little-endian encoding.
pub open spec fn u64_byte(v: u64, i: int) -> u8 {
    (((v as nat) / pow2((8 * i) as nat)) % 256) as u8
}

/// The canonical representation of the field element congruent to a
/// 64-bit integer: the field order exceeds `2^64`, so the embedding is
/// exact and its canonical bytes are the integer's little-endian bytes
/// padded with zeros to 32.
pub open spec fn fe_of_u64(v: u64) -> Seq<u8> {
    Seq::new(32, |i: int| if i < 8 { u64_byte(v, i) } else { 0u8 })
}

/// True of a decimal-digit character.
pub open spec fn is_dec_digit(c: char) -> bool {
    '0' <= c && c <= '9'
}

/// The decimal numerals the field accepts: nonempty, all digits, and no
/// redundant leading zero.
pub open spec fn valid_decimal(s: Seq<char>) -> bool {
    &&& s.len() > 0
    &&& forall|i: int| 0 <= i < s.len() ==> is_dec_digit(#[trigger] s[i])
    &&& (s[0] != '0' || s.len() == 1)
}

/// A field element, held by its canonical 32-byte representation.
pub struct FieldElement {
    pub(crate) bytes: Vec<u8>,
}

impl FieldElement {
    /// The canonical representation bytes, as the contracts see them.
    pub closed spec fn repr_spec(&self) -> Seq<u8> {
        self.bytes@
    }

    /// Well-formed: exactly 32 bytes, and canonical for the field.
    pub closed spec fn wf(&self) -> bool {
        self.bytes@.len() == 32 && canonical_repr(self.bytes@)
    }

    /// The canonical representation bytes of this element.
    pub fn repr(&self) -> (r: &Vec<u8>)
        ensures
            r@ == self.repr_spec(),
    {
        &self.bytes
    }
}

/// Relies on ff's `PrimeField::from_str_vartime` for the pasta base field:
/// it returns `Some` exactly on nonempty all-digit strings without a
/// redundant leading zero, reducing the numeral modulo the field order;
/// the result is repacked as its canonical representation bytes.
#[verifier::external_body]
pub fn fe_from_decimal(s: &str) -> (r: Option<FieldElement>)
    ensures
        r is Some <==> valid_decimal(s@),
        r matches Some(fe) ==> fe.wf() && canonical_repr(fe.repr_spec()) && fe.repr_spec()
            == fe_of_decimal(s@),
{
    Fp::from_str_vartime(s).map(|v| FieldElement { bytes: v.to_repr().to_vec() })
}

/// Relies on ff's `from_repr`: unpacks canonical representation bytes
/// into the arithmetic crate's field type.  Well-formedness of the
/// element excludes the inputs `from_repr` rejects, so the call cannot
/// fail, and the result is the field value the bytes denote — a function
/// of the bytes alone, which the contract pins under that name.
#[verifier::external_body]
pub(crate) fn fe_to_fp(fe: &FieldElement) -> (r: Fp)
    requires
        fe.wf(),
    ensures
        r == fp_of(fe.repr_spec()),
{
    Fp::from_repr(fe.bytes.as_slice().try_into().unwrap()).unwrap()
}

/// Relies on the field's `From<u64>`: embeds the integer and repacks the
/// result as its canonical representation bytes, which for a value below
/// the field order are its little-endian bytes zero-padded to 32.
#[verifier::external_body]
pub fn fe_from_u64(v: u64) -> (r: FieldElement)
    ensures
        r.wf(),
        r.repr_spec() == fe_of_u64(v),
{
    FieldElement { bytes: Fp::from(v).to_repr().to_vec() }
}

} // verus!

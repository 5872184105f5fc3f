//! Parameter-set (SRS) loading, generation and trimming.
//!
//! A parameter set supports circuits of up to `2^k` witness rows.  A
//! pre-resident byte buffer (degree-bound header followed by serialized
//! group elements) can be deserialized and, when its embedded degree
//! exponent exceeds the requested `k`, trimmed to exactly `k`; a buffer
//! whose degree is too small is rejected with an error naming the
//! maximum supported `k`.  Without a buffer a parameter set is
//! synthesized locally; for this commitment scheme that synthesis is
//! deterministic in `k`, so trimming is performed by regenerating the
//! canonical set at the requested degree.  For a buffer that was itself
//! canonically generated this is the same set the buffer's elements
//! would trim to; a non-canonical buffer's group elements are replaced,
//! not truncated — the underlying crate offers no truncation, and the
//! contracts below say exactly which sets come out canonical.
//!
//! The degree exponent is capped at `MAX_DEGREE` (29).  The backend's
//! field supports evaluation domains only up to `2^32`, and key
//! derivation for this library's circuit family (gate degree at most 9)
//! extends the domain by three doublings, so a set of degree 30 or 31
//! would deserialize but abort later inside key derivation.  Every
//! loading path therefore rejects a header above the cap before any
//! group element is touched, and every set handed out is usable for key
//! derivation.

use vstd::prelude::*;
use vstd::string::StringExecFns;
use halo2_proofs::pasta::EqAffine;
use halo2_proofs::poly::commitment::Params;

use crate::encoding::{append_decimal, dec_chars_of};
use crate::error::ZkError;

verus! {

/// The largest degree exponent the library supports.  The backend's
/// field stops its root-of-unity tower at `2^32`, and key derivation
/// extends a `2^k` domain to `2^(k+3)` for this circuit family, so
/// `k + 3 <= 32`.
pub const MAX_DEGREE: u32 = 29;

/// Opaque carrier for the commitment scheme's group-element set; Verus
/// sees nothing inside it, and only the trusted items of this module and
/// of key derivation and proving touch it.
#[verifier::external_body]
pub struct RawParams {
    pub(crate) inner: Params<EqAffine>,
}

/// True of byte strings from which a parameter set deserializes; names
/// success of `Params::read`, a function of the bytes alone.
pub uninterp spec fn parseable_params(b: Seq<u8>) -> bool;

/// The canonical parameter set at degree exponent `k`; names the result
/// of `Params::new`, which draws from a fixed hash-to-curve oracle and
/// is a pure function of `k`.
pub uninterp spec fn canonical_params_of(k: u32) -> RawParams;

/// The degree exponent embedded in a parameter buffer's 4-byte
/// little-endian header.
pub open spec fn header_k(b: Seq<u8>) -> u32 {
    (b[0] + b[1] * 0x100 + b[2] * 0x10000 + b[3] * 0x1000000) as u32
}

/// The buffers the deserializer may be handed: long enough to carry a
/// header, a degree the library supports, and contents that
/// deserialize.
pub open spec fn readable_params(b: Seq<u8>) -> bool {
    b.len() >= 4 && header_k(b) <= MAX_DEGREE && parseable_params(b)
}

/// Reads the degree exponent from a buffer's 4-byte little-endian
/// header; `None` exactly when the buffer cannot carry one.
fn read_header(bytes: &[u8]) -> (r: Option<u32>)
    ensures
        r is Some <==> bytes@.len() >= 4,
        r matches Some(h) ==> h == header_k(bytes@),
{
    if bytes.len() < 4 {
        return None;
    }
    let h: u32 = bytes[0] as u32 + bytes[1] as u32 * 0x100 + bytes[2] as u32 * 0x10000 + bytes[3]
        as u32 * 0x1000000;
    Some(h)
}

/// A parameter set together with the degree exponent it was built or
/// trimmed to.  Constructed only by the loading functions below, which
/// keep the recorded exponent equal to the set's actual degree bound.
pub struct ParamSet {
    pub(crate) raw: RawParams,
    pub(crate) k: u32,
}

impl ParamSet {
    /// The degree exponent: the set supports up to `2^k` witness rows.
    pub closed spec fn degree_spec(&self) -> u32 {
        self.k
    }

    /// The group-element set this parameter set carries.
    pub closed spec fn raw_spec(&self) -> RawParams {
        self.raw
    }

    /// True of a set that is the canonical one at degree exponent `k`.
    pub open spec fn from_canonical(&self, k: u32) -> bool {
        self.raw_spec() == canonical_params_of(k) && self.degree_spec() == k
    }

    /// Reports the degree exponent of this parameter set.
    pub fn degree(&self) -> (r: u32)
        ensures
            r == self.degree_spec(),
    {
        self.k
    }
}

/// Relies on `Params::new`: synthesizes the parameter set for degree
/// exponent `k`.  For this commitment scheme the construction draws its
/// group elements from a fixed hash-to-curve oracle, so it is a pure
/// function of `k`; it asserts `k < 32`, which the precondition excludes.
#[verifier::external_body]
fn params_new_canonical(k: u32) -> (r: ParamSet)
    requires
        k < 32,
    ensures
        r.degree_spec() == k,
        r.raw_spec() == canonical_params_of(k),
{
    ParamSet { raw: RawParams { inner: Params::new(k) }, k }
}

/// Relies on `Params::read`: deserializes a parameter set, taking the
/// degree exponent from the buffer's 4-byte little-endian header and the
/// group elements after it; fails exactly on buffers that do not carry a
/// well-formed set.  The deserializer shifts `1 << k` with the header's
/// `k` before any validation, so headers at 64 and above abort instead
/// of failing; the precondition keeps them out (callers check the
/// header first, which is plain byte logic).
#[verifier::external_body]
fn params_read_bytes(bytes: &[u8]) -> (r: Result<ParamSet, String>)
    requires
        bytes@.len() >= 4,
        header_k(bytes@) < 32,
    ensures
        r is Ok <==> parseable_params(bytes@),
        r matches Ok(p) ==> p.degree_spec() == header_k(bytes@),
{
    let mut rd = bytes;
    match Params::<EqAffine>::read(&mut rd) {
        Ok(p) => {
            let k = p.k();
            Ok(ParamSet { raw: RawParams { inner: p }, k })
        },
        Err(e) => Err(format!("{}", e)),
    }
}

/// Deserializes a parameter set at whatever degree its header embeds,
/// reporting a malformed, truncated or unsupported buffer as a
/// parameter error.
pub fn read_params(bytes: &[u8]) -> (r: Result<ParamSet, ZkError>)
    ensures
        r is Ok <==> readable_params(bytes@),
        r matches Ok(p) ==> p.degree_spec() == header_k(bytes@) && p.degree_spec() <= MAX_DEGREE,
        r matches Err(e) ==> e.is_params_error(),
{
    let h = match read_header(bytes) {
        Some(h) => h,
        None => {
            return Err(ZkError::ParamsError("Params error: buffer too short".to_string()));
        },
    };
    if h > MAX_DEGREE {
        return Err(ZkError::ParamsError("ptau error: unsupported degree exponent".to_string()));
    }
    match params_read_bytes(bytes) {
        Ok(p) => Ok(p),
        Err(m) => {
            let mut msg = String::from_str("Params error: ");
            msg.append(m.as_str());
            Err(ZkError::ParamsError(msg))
        },
    }
}

/// The spec-level view of an optional byte buffer argument.
pub open spec fn srs_view(srs: Option<&[u8]>) -> Option<Seq<u8>> {
    match srs {
        Some(b) => Some(b@),
        None => None,
    }
}

/// The inputs on which parameter loading is owed success: a buffer must
/// deserialize, carry a degree the library supports, and cover at least
/// the requested degree; local synthesis needs a supported `k`.
pub open spec fn params_input_ok(k: u32, srs: Option<Seq<u8>>) -> bool {
    match srs {
        Some(b) => readable_params(b) && header_k(b) >= k,
        None => k <= MAX_DEGREE,
    }
}

/// Loads, validates and, where needed, trims a parameter set to degree
/// exponent `k`; with no buffer supplied, synthesizes the canonical set
/// locally (test-only: no trusted multi-party ceremony stands behind it).
/// Trimming regenerates the canonical set at `k`, so a non-canonical
/// buffer's group elements do not survive the trim; the final clause
/// says precisely which results are canonical.
pub fn load_params(k: u32, srs_bytes: Option<&[u8]>) -> (r: Result<ParamSet, ZkError>)
    ensures
        r is Ok <==> params_input_ok(k, srs_view(srs_bytes)),
        r matches Ok(p) ==> p.degree_spec() == k && k <= MAX_DEGREE,
        r matches Err(e) ==> e.is_params_error(),
        match srs_bytes {
            Some(b) => (readable_params(b@) && header_k(b@) < k) ==> (r matches Err(e)
                && e.message_spec() == ("ptau error: k is too large. max k: ")@ + dec_chars_of(
                header_k(b@) as nat,
            )),
            None => true,
        },
        match srs_bytes {
            Some(b) => (readable_params(b@) && header_k(b@) > k) ==> (r matches Ok(p)
                && p.from_canonical(k)),
            None => k <= MAX_DEGREE ==> (r matches Ok(p) && p.from_canonical(k)),
        },
{
    match srs_bytes {
        None => {
            if k <= MAX_DEGREE {
                Ok(params_new_canonical(k))
            } else {
                Err(ZkError::ParamsError("ptau error: unsupported degree exponent".to_string()))
            }
        },
        Some(bytes) => {
            let h = match read_header(bytes) {
                Some(h) => h,
                None => {
                    return Err(
                        ZkError::ParamsError("Params error: buffer too short".to_string()),
                    );
                },
            };
            if h > MAX_DEGREE {
                return Err(
                    ZkError::ParamsError("ptau error: unsupported degree exponent".to_string()),
                );
            }
            match params_read_bytes(bytes) {
                Err(m) => {
                    let mut msg = String::from_str("Params error: ");
                    msg.append(m.as_str());
                    Err(ZkError::ParamsError(msg))
                },
                Ok(p) => {
                    let k0 = p.degree();
                    if k0 < k {
                        let mut msg = String::from_str("ptau error: k is too large. max k: ");
                        append_decimal(&mut msg, k0);
                        Err(ZkError::ParamsError(msg))
                    } else if k0 > k {
                        Ok(params_new_canonical(k))
                    } else {
                        Ok(p)
                    }
                },
            }
        },
    }
}

/// Trim equivalence: a parameter set synthesized directly at degree
/// exponent `k` and one obtained by trimming a larger set to `k` are the
/// same parameter set, so proofs built under either verify the same way.
pub proof fn lemma_trim_equivalence(direct: ParamSet, trimmed: ParamSet, k: u32)
    requires
        direct.from_canonical(k),
        trimmed.from_canonical(k),
    ensures
        direct == trimmed,
{
    assert(direct.raw_spec() == trimmed.raw_spec());
    assert(direct.degree_spec() == trimmed.degree_spec());
}

} // verus!

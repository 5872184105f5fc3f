//! Pre-flight memory capacity check.
//!
//! Memory demand of key derivation and proving scales with the parameter
//! set's degree bound `2^k`.  The deployment host allocates memory in fixed
//! increments that cannot always grow on demand, so a caller states its
//! budget up front and the check fails fast with a capacity error before
//! any irrecoverable work starts.

use vstd::prelude::*;
use vstd::arithmetic::power2::{
    pow2, lemma_pow2_strictly_increases, lemma_pow2_unfold, lemma2_to64, lemma2_to64_rest,
};

use crate::error::ZkError;

verus! {

/// Bytes demanded by a computation over `2^k` rows at `bytes_per_row`
/// bytes each.
pub open spec fn required_bytes(k: nat, bytes_per_row: nat) -> nat {
    pow2(k) * bytes_per_row
}

/// Decides, before any work starts, whether a computation over `2^k`
/// witness rows fits in the caller's memory budget.  Returns a capacity
/// error exactly when it does not.
pub fn preflight_capacity(k: u32, bytes_per_row: u64, budget_bytes: u64) -> (r: Result<
    (),
    ZkError,
>)
    ensures
        r is Ok <==> required_bytes(k as nat, bytes_per_row as nat) <= budget_bytes,
        r matches Err(e) ==> e.is_capacity_error(),
{
    if bytes_per_row == 0 {
        assert(pow2(k as nat) * 0 == 0);
        return Ok(());
    }
    if k >= 64 {
        proof {
            lemma2_to64();
            lemma2_to64_rest();
            if k > 64 {
                lemma_pow2_strictly_increases(64, k as nat);
            }
            assert(pow2(k as nat) >= 0x10000000000000000);
            assert(pow2(k as nat) * (bytes_per_row as nat) >= pow2(k as nat) * 1)
                by (nonlinear_arith)
                requires
                    bytes_per_row >= 1,
            ;
        }
        return Err(ZkError::CapacityError("capacity: row count overflows the budget".to_string()));
    }
    let mut rows: u128 = 1;
    let mut i: u32 = 0;
    proof {
        lemma2_to64();
        lemma2_to64_rest();
    }
    while i < k
        invariant
            i <= k < 64,
            rows == pow2(i as nat),
            pow2(63) == 0x8000000000000000,
        decreases k - i,
    {
        proof {
            lemma_pow2_strictly_increases(i as nat, 63);
            lemma_pow2_unfold((i + 1) as nat);
        }
        rows = rows * 2;
        i = i + 1;
    }
    proof {
        if k < 63 {
            lemma_pow2_strictly_increases(k as nat, 63);
        }
        assert(rows * (bytes_per_row as u128) <= pow2(63) * (u64::MAX as nat))
            by (nonlinear_arith)
            requires
                rows <= pow2(63),
                bytes_per_row <= u64::MAX,
        ;
        assert(pow2(63) * (u64::MAX as nat) < u128::MAX) by (nonlinear_arith)
            requires
                pow2(63) == 0x8000000000000000,
        ;
    }
    let required: u128 = rows * (bytes_per_row as u128);
    if required <= budget_bytes as u128 {
        Ok(())
    } else {
        Err(ZkError::CapacityError("capacity: memory budget is too small".to_string()))
    }
}

} // verus!

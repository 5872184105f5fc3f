//! The error surface of the library.
//!
//! Every public operation returns either a success value or exactly one
//! classified error; no internal failure crosses the boundary untranslated.

use vstd::prelude::*;

verus! {

/// A tagged error: a kind together with a human-readable message.
#[derive(Debug)]
pub enum ZkError {
    /// The secret input was malformed (not a decimal numeral).
    InputError(String),
    /// The parameter bytes were incompatible or malformed, including a
    /// degree-bound mismatch.
    ParamsError(String),
    /// Constraint-system or key-derivation failure.
    SetupError(String),
    /// Proof-construction failure.
    ProofError(String),
    /// Insufficient memory detected by the pre-flight check.
    CapacityError(String),
}

impl ZkError {
    /// The message carried by the error, whichever kind it is.
    pub open spec fn message_spec(&self) -> Seq<char> {
        match self {
            ZkError::InputError(m) => m@,
            ZkError::ParamsError(m) => m@,
            ZkError::SetupError(m) => m@,
            ZkError::ProofError(m) => m@,
            ZkError::CapacityError(m) => m@,
        }
    }

    /// Returns the human-readable message of this error.
    pub fn message(&self) -> (r: &String)
        ensures
            r@ == self.message_spec(),
    {
        match self {
            ZkError::InputError(m) => m,
            ZkError::ParamsError(m) => m,
            ZkError::SetupError(m) => m,
            ZkError::ProofError(m) => m,
            ZkError::CapacityError(m) => m,
        }
    }

    /// True of the kind that reports a malformed secret.
    pub open spec fn is_input_error(&self) -> bool {
        self matches ZkError::InputError(_)
    }

    /// True of the kind that reports incompatible or malformed parameters.
    pub open spec fn is_params_error(&self) -> bool {
        self matches ZkError::ParamsError(_)
    }

    /// True of the kind that reports a setup (key-derivation) failure.
    pub open spec fn is_setup_error(&self) -> bool {
        self matches ZkError::SetupError(_)
    }

    /// True of the kind that reports a proof-construction failure.
    pub open spec fn is_proof_error(&self) -> bool {
        self matches ZkError::ProofError(_)
    }

    /// True of the kind that reports an insufficient memory budget.
    pub open spec fn is_capacity_error(&self) -> bool {
        self matches ZkError::CapacityError(_)
    }
}

} // verus!

//! Typed results of the host's verification calls. The host answers a
//! signature check with a small integer; predicates case on the decoded
//! variant, since "the check ran and rejected" is distinct from "the
//! check could not be evaluated".

use vstd::prelude::*;

verus! {

/// Result of the host's "transaction signed by public-key-hash" check.
/// `True` and `False` are the check's own verdict; every other variant
/// says why it could not be evaluated.
#[derive(Debug, PartialEq, Eq, Structural, Clone, Copy)]
pub enum SignedByResult {
    True,
    False,
    P2PKHError,
    InvalidHandleTxO,
    InvalidHandlePKH,
    InvalidHandleProof,
    NilPKH,
    NilProof,
}

impl SignedByResult {
    /// The wire code of this variant, in the order the host assigns them.
    pub open spec fn spec_code(&self) -> u64 {
        match self {
            SignedByResult::True => 0,
            SignedByResult::False => 1,
            SignedByResult::P2PKHError => 2,
            SignedByResult::InvalidHandleTxO => 3,
            SignedByResult::InvalidHandlePKH => 4,
            SignedByResult::InvalidHandleProof => 5,
            SignedByResult::NilPKH => 6,
            SignedByResult::NilProof => 7,
        }
    }

    /// The wire code of this variant.
    pub fn code(&self) -> (c: u64)
        ensures
            c == self.spec_code(),
            c < 8,
    {
        match self {
            SignedByResult::True => 0,
            SignedByResult::False => 1,
            SignedByResult::P2PKHError => 2,
            SignedByResult::InvalidHandleTxO => 3,
            SignedByResult::InvalidHandlePKH => 4,
            SignedByResult::InvalidHandleProof => 5,
            SignedByResult::NilPKH => 6,
            SignedByResult::NilProof => 7,
        }
    }

    /// The variant a host answer code names. The host promises a code
    /// below 8; anything else is a host contract violation.
    pub fn from_code(code: u32) -> (r: SignedByResult)
        requires
            code < 8,
        ensures
            r.spec_code() == code as u64,
    {
        if code == 0 {
            SignedByResult::True
        } else if code == 1 {
            SignedByResult::False
        } else if code == 2 {
            SignedByResult::P2PKHError
        } else if code == 3 {
            SignedByResult::InvalidHandleTxO
        } else if code == 4 {
            SignedByResult::InvalidHandlePKH
        } else if code == 5 {
            SignedByResult::InvalidHandleProof
        } else if code == 6 {
            SignedByResult::NilPKH
        } else {
            SignedByResult::NilProof
        }
    }
}

} // verus!

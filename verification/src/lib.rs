//! Guest-side runtime support for predicates that exchange structured data
//! with a host over a narrow foreign-call boundary: a packed-pointer memory
//! protocol, a tag-value binary decoder, a chainable error-code type and the
//! encoding of a predicate's outcome into a single 64-bit return value.

use vstd::prelude::*;

pub mod api;
pub mod decoder;
pub mod error;
pub mod evaluation_ctx;
pub mod memory;
pub mod predicates;
pub mod txsystem;

use crate::error::Error;

verus! {

/// Outcome of one predicate evaluation, before it is packed into the
/// single 64-bit value handed back to the host.
#[derive(Debug)]
pub enum PredicateResult {
    /// The predicate's condition holds.
    True,
    /// The condition does not hold; an optional reason code may be
    /// attached, of which at most the low 56 bits survive the encoding.
    False(Option<u64>),
    /// The evaluation itself failed with a chained error code.
    Error(Error),
}

impl PredicateResult {
    /// The single 64-bit value this outcome is encoded as: 0 for `True`;
    /// 1, or the reason shifted one byte up over a low byte of 1, for
    /// `False`; and for `Error` the chained code itself, disambiguated so
    /// that it can never read as `True` (a zero code becomes all bits
    /// set) nor as `False` (a code with low byte 1 is shifted one byte
    /// up).
    pub open spec fn spec_encode(&self) -> u64 {
        match self {
            PredicateResult::True => 0,
            PredicateResult::False(None) => 1,
            PredicateResult::False(Some(reason)) => (reason << 8) | 1,
            PredicateResult::Error(e) => if e@ == 0 {
                u64::MAX
            } else if e@ & 0xFF == 1 {
                e@ << 8
            } else {
                e@
            },
        }
    }

    /// Encode this outcome into the value returned to the host, per
    /// [`PredicateResult::spec_encode`]. The three outcomes stay
    /// mutually distinguishable: the result is 0 exactly for `True`, has
    /// low byte 1 exactly for `False`, and anything else is an error.
    pub fn encode(&self) -> (r: u64)
        ensures
            r == self.spec_encode(),
            self is True <==> r == 0,
            self is False <==> r & 0xFF == 1,
            self is Error <==> (r != 0 && r & 0xFF != 1),
    {
        proof {
            assert(0u64 & 0xFF == 0) by (bit_vector);
            assert(1u64 & 0xFF == 1) by (bit_vector);
        }
        match self {
            PredicateResult::True => 0,
            PredicateResult::False(None) => 1,
            PredicateResult::False(Some(reason)) => {
                let r = (*reason << 8) | 1;
                proof {
                    assert(((reason << 8) | 1) & 0xFF == 1) by (bit_vector);
                }
                r
            },
            PredicateResult::Error(e) => {
                let c = e.code();
                if c == 0 {
                    proof {
                        assert(u64::MAX & 0xFF != 1) by (bit_vector);
                    }
                    u64::MAX
                } else if c & 0xFF == 1 {
                    proof {
                        assert((c << 8) & 0xFF != 1) by (bit_vector);
                        assert(c & 0xFF == 1 ==> (c << 8) != 0) by (bit_vector);
                    }
                    c << 8
                } else {
                    c
                }
            },
        }
    }
}

} // verus!

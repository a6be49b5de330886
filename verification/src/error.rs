//! A minimalist error type for predicates: an unsigned 64-bit accumulator
//! treated as a stack of up to eight one-byte error codes, the most recent
//! in the low byte. Pushing a ninth code drops the oldest one.

use vstd::prelude::*;

verus! {

/// What chaining `code` onto the accumulated value `c` yields: the identity
/// for code zero, otherwise the old value shifted one byte up with the new
/// code in the low byte; bits shifted past bit 63 are lost.
pub open spec fn spec_chain(c: u64, code: u8) -> u64 {
    if code == 0 {
        c
    } else {
        (c << 8) | (code as u64)
    }
}

/// An error built from one-byte codes; keeps track of the last eight
/// "chained" codes, the earliest codes are lost first.
#[derive(Debug)]
pub struct Error(u64);

impl View for Error {
    type V = u64;

    closed spec fn view(&self) -> u64 {
        self.0
    }
}

impl Error {
    /// An error holding the single code `code`.
    pub fn new(code: u8) -> (r: Self)
        ensures
            r@ == code as u64,
    {
        Self(code as u64)
    }

    /// Chain a new `code` onto the existing codes and return the result as
    /// a new error; chaining code zero changes nothing.
    pub fn chain(&self, code: u8) -> (r: Self)
        ensures
            r@ == spec_chain(self@, code),
    {
        if code == 0 {
            return Self(self.0);
        }
        Self((self.0 << 8) | (code as u64))
    }

    /// The chained codes as a single u64.
    pub fn code(&self) -> (c: u64)
        ensures
            c == self@,
    {
        self.0
    }
}

/// Chain `code` onto the error of a failed result, leaving a success
/// untouched: the helper used to add one byte of context at each layer a
/// decode error propagates through.
pub fn error_code<T>(code: u8, r: Result<T, Error>) -> (res: Result<T, Error>)
    ensures
        match r {
            Ok(_) => res == r,
            Err(e) => res is Err && res->Err_0@ == spec_chain(e@, code),
        },
{
    match r {
        Ok(v) => Ok(v),
        Err(e) => Err(e.chain(code)),
    }
}

} // verus!

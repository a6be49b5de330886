//! Money transaction system data structures.

use vstd::prelude::*;

use crate::decoder::TagValueIter;
use crate::decoder::ValueModel;
use crate::decoder::fold_fields;
use crate::decoder::known_fields;
use crate::decoder::lemma_fold_fields_skips_unknown;
use crate::decoder::lemma_fold_fields_unfold;
use crate::decoder::spec_as_u64;
use crate::decoder::spec_fields;
use crate::decoder::spec_rest;
use crate::error::Error;
use crate::error::spec_chain;
use crate::txsystem::TxOrder;

verus! {

/// Transaction system identifier of the money partition.
pub const SYSTEM_ID: u32 = 1;

pub const PAYLOAD_TYPE_TRANSFER: u32 = 1;

pub const PAYLOAD_TYPE_SPLIT: u32 = 2;

/// The different money transaction attributes.
#[derive(Debug, PartialEq)]
pub enum TxKind {
    Transfer(Transfer),
    Split(Split),
}

/// Which attribute record the payload type of `typ` dispatches to, and
/// what decoding `data` as that record yields; an unrecognised payload
/// type is a decode error.
pub open spec fn spec_tx_attributes(typ: u32, data: Seq<u8>) -> Result<TxKind, u64> {
    if typ == PAYLOAD_TYPE_TRANSFER {
        match Transfer::spec_from(data) {
            Ok(t) => Ok(TxKind::Transfer(t)),
            Err(e) => Err(e),
        }
    } else if typ == PAYLOAD_TYPE_SPLIT {
        match Split::spec_from(data) {
            Ok(s) => Ok(TxKind::Split(s)),
            Err(e) => Err(e),
        }
    } else {
        Err(1)
    }
}

/// Decode the attributes of a money transaction order: the payload type
/// of the order picks the record type, per [`spec_tx_attributes`]; `data`
/// is the raw attribute bytes the host exported for the order.
pub fn tx_attributes(txo: &TxOrder, data: Vec<u8>) -> (r: Result<TxKind, Error>)
    ensures
        match (r, spec_tx_attributes(txo.typ, data@)) {
            (Ok(k), Ok(m)) => k == m,
            (Err(e), Err(c)) => e@ == c,
            _ => false,
        },
{
    if txo.typ == PAYLOAD_TYPE_TRANSFER {
        match Transfer::from(data) {
            Ok(t) => Ok(TxKind::Transfer(t)),
            Err(e) => Err(e),
        }
    } else if txo.typ == PAYLOAD_TYPE_SPLIT {
        match Split::from(data) {
            Ok(s) => Ok(TxKind::Split(s)),
            Err(e) => Err(e),
        }
    } else {
        Err(Error::new(1))
    }
}

/// Attributes of a money transfer transaction.
#[derive(Debug, PartialEq)]
pub struct Transfer {
    pub value: u64,
    pub counter: u64,
}

impl Transfer {
    /// The empty record every decode starts from.
    pub open spec fn spec_default() -> Transfer {
        Transfer { value: 0, counter: 0 }
    }

    /// How one (tag, value) field updates the record: tag 1 is the value,
    /// 2 the counter; any other tag is ignored. A failed coercion chains
    /// the field's tag onto its error.
    pub open spec fn step() -> spec_fn(Transfer, u8, ValueModel) -> Result<Transfer, u64> {
        |acc: Transfer, t: u8, v: ValueModel|
            {
                if t == 1 {
                    match spec_as_u64(v) {
                        Ok(n) => Ok(Transfer { value: n, ..acc }),
                        Err(e) => Err(spec_chain(e, 1)),
                    }
                } else if t == 2 {
                    match spec_as_u64(v) {
                        Ok(n) => Ok(Transfer { counter: n, ..acc }),
                        Err(e) => Err(spec_chain(e, 2)),
                    }
                } else {
                    Ok(acc)
                }
            }
    }

    /// What decoding a transfer record from `data` yields.
    pub open spec fn spec_from(data: Seq<u8>) -> Result<Transfer, u64> {
        fold_fields(spec_fields(data, 0), Self::spec_default(), Self::step())
    }

    /// The field tags the record recognises.
    pub open spec fn known_tags() -> spec_fn(u8) -> bool {
        |t: u8| 1 <= t <= 2
    }

    /// Forward compatibility: fields with unrecognised tags may stand
    /// anywhere in the buffer without changing what the record decodes
    /// to.
    pub proof fn lemma_ignores_unknown_fields(fields: Seq<(u8, ValueModel)>)
        ensures
            fold_fields(fields, Self::spec_default(), Self::step()) == fold_fields(
                known_fields(fields, Self::known_tags()),
                Self::spec_default(),
                Self::step(),
            ),
    {
        lemma_fold_fields_skips_unknown(
            fields,
            Self::spec_default(),
            Self::step(),
            Self::known_tags(),
        );
    }

    /// Decode a transfer record from its tag-value representation, per
    /// [`Transfer::spec_from`]: unknown fields are ignored.
    #[verifier::loop_isolation(false)]
    pub fn from(input: Vec<u8>) -> (r: Result<Self, Error>)
        ensures
            match (r, Self::spec_from(input@)) {
                (Ok(rec), Ok(m)) => rec == m,
                (Err(e), Err(c)) => e@ == c,
                _ => false,
            },
    {
        let ghost all_fields = spec_fields(input@, 0);
        let mut rec = Transfer { value: 0, counter: 0 };
        let mut it = TagValueIter::new(input.as_slice());
        loop
            invariant
                it.dec.wf(),
                it.dec.data@ == input@,
                fold_fields(all_fields, Self::spec_default(), Self::step()) == fold_fields(
                    spec_fields(input@, it.dec.pos as int),
                    rec,
                    Self::step(),
                ),
            decreases spec_rest(input@, it.dec.pos as int),
        {
            match it.next() {
                None => {
                    return Ok(rec);
                },
                Some((tag, v)) => {
                    proof {
                        lemma_fold_fields_unfold(
                            (tag, v.model()),
                            spec_fields(input@, it.dec.pos as int),
                            rec,
                            Self::step(),
                        );
                    }
                    if tag == 1 {
                        match v.into_u64() {
                            Ok(n) => {
                                rec.value = n;
                            },
                            Err(e) => {
                                return Err(e.chain(1));
                            },
                        }
                    } else if tag == 2 {
                        match v.into_u64() {
                            Ok(n) => {
                                rec.counter = n;
                            },
                            Err(e) => {
                                return Err(e.chain(2));
                            },
                        }
                    }
                },
            }
        }
    }
}

/// Attributes of a money split transaction.
#[derive(Debug, PartialEq)]
pub struct Split {
    pub remaining_value: u64,
    pub counter: u64,
}

impl Split {
    /// The empty record every decode starts from.
    pub open spec fn spec_default() -> Split {
        Split { remaining_value: 0, counter: 0 }
    }

    /// How one (tag, value) field updates the record: tag 1 is the
    /// remaining value, 2 the counter; any other tag is ignored. A failed
    /// coercion chains the field's tag onto its error.
    pub open spec fn step() -> spec_fn(Split, u8, ValueModel) -> Result<Split, u64> {
        |acc: Split, t: u8, v: ValueModel|
            {
                if t == 1 {
                    match spec_as_u64(v) {
                        Ok(n) => Ok(Split { remaining_value: n, ..acc }),
                        Err(e) => Err(spec_chain(e, 1)),
                    }
                } else if t == 2 {
                    match spec_as_u64(v) {
                        Ok(n) => Ok(Split { counter: n, ..acc }),
                        Err(e) => Err(spec_chain(e, 2)),
                    }
                } else {
                    Ok(acc)
                }
            }
    }

    /// What decoding a split record from `data` yields.
    pub open spec fn spec_from(data: Seq<u8>) -> Result<Split, u64> {
        fold_fields(spec_fields(data, 0), Self::spec_default(), Self::step())
    }

    /// The field tags the record recognises.
    pub open spec fn known_tags() -> spec_fn(u8) -> bool {
        |t: u8| 1 <= t <= 2
    }

    /// Forward compatibility: fields with unrecognised tags may stand
    /// anywhere in the buffer without changing what the record decodes
    /// to.
    pub proof fn lemma_ignores_unknown_fields(fields: Seq<(u8, ValueModel)>)
        ensures
            fold_fields(fields, Self::spec_default(), Self::step()) == fold_fields(
                known_fields(fields, Self::known_tags()),
                Self::spec_default(),
                Self::step(),
            ),
    {
        lemma_fold_fields_skips_unknown(
            fields,
            Self::spec_default(),
            Self::step(),
            Self::known_tags(),
        );
    }

    /// Decode a split record from its tag-value representation, per
    /// [`Split::spec_from`]: unknown fields are ignored.
    #[verifier::loop_isolation(false)]
    pub fn from(input: Vec<u8>) -> (r: Result<Self, Error>)
        ensures
            match (r, Self::spec_from(input@)) {
                (Ok(rec), Ok(m)) => rec == m,
                (Err(e), Err(c)) => e@ == c,
                _ => false,
            },
    {
        let ghost all_fields = spec_fields(input@, 0);
        let mut rec = Split { remaining_value: 0, counter: 0 };
        let mut it = TagValueIter::new(input.as_slice());
        loop
            invariant
                it.dec.wf(),
                it.dec.data@ == input@,
                fold_fields(all_fields, Self::spec_default(), Self::step()) == fold_fields(
                    spec_fields(input@, it.dec.pos as int),
                    rec,
                    Self::step(),
                ),
            decreases spec_rest(input@, it.dec.pos as int),
        {
            match it.next() {
                None => {
                    return Ok(rec);
                },
                Some((tag, v)) => {
                    proof {
                        lemma_fold_fields_unfold(
                            (tag, v.model()),
                            spec_fields(input@, it.dec.pos as int),
                            rec,
                            Self::step(),
                        );
                    }
                    if tag == 1 {
                        match v.into_u64() {
                            Ok(n) => {
                                rec.remaining_value = n;
                            },
                            Err(e) => {
                                return Err(e.chain(1));
                            },
                        }
                    } else if tag == 2 {
                        match v.into_u64() {
                            Ok(n) => {
                                rec.counter = n;
                            },
                            Err(e) => {
                                return Err(e.chain(2));
                            },
                        }
                    }
                },
            }
        }
    }
}

} // verus!

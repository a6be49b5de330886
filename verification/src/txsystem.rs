//! Generic transaction system support: the transaction order, decoded
//! from its tag-value representation.

use vstd::prelude::*;

use crate::decoder::TagValueIter;
use crate::decoder::ValueModel;
use crate::decoder::fold_fields;
use crate::decoder::known_fields;
use crate::decoder::lemma_fold_fields_skips_unknown;
use crate::decoder::lemma_fold_fields_unfold;
use crate::decoder::spec_as_bytes;
use crate::decoder::spec_as_opt_bytes;
use crate::decoder::spec_as_u32;
use crate::decoder::spec_fields;
use crate::decoder::spec_rest;
use crate::error::Error;
use crate::error::spec_chain;

pub mod money;
pub mod token;

verus! {

/// The transaction order which triggered the predicate evaluation. The
/// partition, unit id and transaction type are fundamental — a zero value
/// marks one the buffer did not carry.
#[derive(Debug)]
pub struct TxOrder {
    pub partition: u32,
    pub typ: u32,
    pub unit_id: Vec<u8>,
    /// Reference number from the transaction client metadata.
    pub ref_number: Option<Vec<u8>>,
    /// The host variable this order was decoded from.
    pub handle: u32,
}

/// The mathematical shape of a [`TxOrder`].
pub struct TxOrderModel {
    pub partition: u32,
    pub typ: u32,
    pub unit_id: Seq<u8>,
    pub ref_number: Option<Seq<u8>>,
    pub handle: u32,
}

impl TxOrderModel {
    /// The same record, named by the given host handle.
    pub open spec fn with_handle(self, h: u32) -> TxOrderModel {
        TxOrderModel { handle: h, ..self }
    }
}

impl TxOrder {
    /// Version tag of the serialized transaction-order representation.
    pub const TAG_VER: u8 = 1;

    /// The mathematical value of this record.
    pub open spec fn model(&self) -> TxOrderModel {
        TxOrderModel {
            partition: self.partition,
            typ: self.typ,
            unit_id: self.unit_id@,
            ref_number: match self.ref_number {
                Some(ref b) => Some(b@),
                None => None,
            },
            handle: self.handle,
        }
    }

    /// The empty record every decode starts from.
    pub open spec fn spec_default() -> TxOrderModel {
        TxOrderModel {
            partition: 0,
            typ: 0,
            unit_id: Seq::empty(),
            ref_number: None,
            handle: 0,
        }
    }

    /// How one (tag, value) field updates the record: tag 1 is the
    /// partition, 2 the unit id, 3 the transaction type, 4 the reference
    /// number; any other tag is ignored. A failed coercion chains the
    /// field's tag onto its error.
    pub open spec fn step() -> spec_fn(TxOrderModel, u8, ValueModel) -> Result<TxOrderModel, u64> {
        |acc: TxOrderModel, t: u8, v: ValueModel|
            {
                if t == 1 {
                    match spec_as_u32(v) {
                        Ok(n) => Ok(TxOrderModel { partition: n, ..acc }),
                        Err(e) => Err(spec_chain(e, t)),
                    }
                } else if t == 2 {
                    match spec_as_bytes(v) {
                        Ok(b) => Ok(TxOrderModel { unit_id: b, ..acc }),
                        Err(e) => Err(spec_chain(e, t)),
                    }
                } else if t == 3 {
                    match spec_as_u32(v) {
                        Ok(n) => Ok(TxOrderModel { typ: n, ..acc }),
                        Err(e) => Err(spec_chain(e, t)),
                    }
                } else if t == 4 {
                    match spec_as_opt_bytes(v) {
                        Ok(b) => Ok(TxOrderModel { ref_number: b, ..acc }),
                        Err(e) => Err(spec_chain(e, t)),
                    }
                } else {
                    Ok(acc)
                }
            }
    }

    /// What decoding a transaction order from `data` yields.
    pub open spec fn spec_from(data: Seq<u8>) -> Result<TxOrderModel, u64> {
        fold_fields(spec_fields(data, 0), Self::spec_default(), Self::step())
    }

    /// The field tags the record recognises.
    pub open spec fn known_tags() -> spec_fn(u8) -> bool {
        |t: u8| 1 <= t <= 4
    }

    /// Forward compatibility: fields with unrecognised tags may stand
    /// anywhere in the buffer without changing what the record decodes
    /// to.
    pub proof fn lemma_ignores_unknown_fields(fields: Seq<(u8, ValueModel)>)
        ensures
            fold_fields(fields, Self::spec_default(), Self::step()) == fold_fields(
                known_fields(fields, Self::known_tags()),
                Self::spec_default(),
                Self::step(),
            ),
    {
        lemma_fold_fields_skips_unknown(
            fields,
            Self::spec_default(),
            Self::step(),
            Self::known_tags(),
        );
    }

    /// Decode a transaction order from the exported bytes for the given
    /// handle, and remember that handle in the record. A decode failure
    /// chains context code 12.
    pub fn from_handle(handle: u32, input: &[u8]) -> (r: Result<TxOrder, Error>)
        ensures
            match (r, Self::spec_from(input@)) {
                (Ok(txo), Ok(m)) => txo.model() == m.with_handle(handle),
                (Err(e), Err(c)) => e@ == spec_chain(c, 12),
                _ => false,
            },
    {
        match Self::from(input) {
            Ok(mut txo) => {
                txo.handle = handle;
                Ok(txo)
            },
            Err(e) => Err(e.chain(12)),
        }
    }

    /// Decode a transaction order from its tag-value representation, per
    /// [`TxOrder::spec_from`]: unknown fields are ignored.
    #[verifier::loop_isolation(false)]
    pub fn from(input: &[u8]) -> (r: Result<TxOrder, Error>)
        ensures
            match (r, Self::spec_from(input@)) {
                (Ok(txo), Ok(m)) => txo.model() == m,
                (Err(e), Err(c)) => e@ == c,
                _ => false,
            },
    {
        let ghost all_fields = spec_fields(input@, 0);
        let mut txo = TxOrder {
            partition: 0,
            typ: 0,
            unit_id: Vec::new(),
            ref_number: None,
            handle: 0,
        };
        let mut it = TagValueIter::new(input);
        loop
            invariant
                it.dec.wf(),
                it.dec.data@ == input@,
                fold_fields(all_fields, Self::spec_default(), Self::step()) == fold_fields(
                    spec_fields(input@, it.dec.pos as int),
                    txo.model(),
                    Self::step(),
                ),
            decreases spec_rest(input@, it.dec.pos as int),
        {
            match it.next() {
                None => {
                    return Ok(txo);
                },
                Some((tag, v)) => {
                    proof {
                        lemma_fold_fields_unfold(
                            (tag, v.model()),
                            spec_fields(input@, it.dec.pos as int),
                            txo.model(),
                            Self::step(),
                        );
                    }
                    if tag == 1 {
                        match v.into_u32() {
                            Ok(n) => {
                                txo.partition = n;
                            },
                            Err(e) => {
                                return Err(e.chain(tag));
                            },
                        }
                    } else if tag == 2 {
                        match v.into_bytes() {
                            Ok(b) => {
                                txo.unit_id = b;
                            },
                            Err(e) => {
                                return Err(e.chain(tag));
                            },
                        }
                    } else if tag == 3 {
                        match v.into_u32() {
                            Ok(n) => {
                                txo.typ = n;
                            },
                            Err(e) => {
                                return Err(e.chain(tag));
                            },
                        }
                    } else if tag == 4 {
                        match v.into_opt_bytes() {
                            Ok(b) => {
                                txo.ref_number = b;
                            },
                            Err(e) => {
                                return Err(e.chain(tag));
                            },
                        }
                    }
                },
            }
        }
    }
}

} // verus!

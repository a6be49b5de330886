//! Non-fungible token data structures: transaction attribute records and
//! unit data, decoded from their tag-value representation. Every field is
//! optional on the wire; a field the buffer does not carry stays `None`.

use vstd::prelude::*;

use crate::decoder::TagValueIter;
use crate::decoder::ValueModel;
use crate::decoder::fold_fields;
use crate::decoder::known_fields;
use crate::decoder::lemma_fold_fields_skips_unknown;
use crate::decoder::lemma_fold_fields_unfold;
use crate::decoder::spec_as_opt_bytes;
use crate::decoder::spec_as_opt_string;
use crate::decoder::spec_as_opt_u64;
use crate::decoder::spec_fields;
use crate::decoder::spec_rest;
use crate::error::Error;
use crate::error::spec_chain;
use crate::txsystem::TxOrder;

verus! {

pub const PAYLOAD_TYPE_NFT_CREATE_TYPE: u32 = 2;

pub const PAYLOAD_TYPE_NFT_MINT: u32 = 4;

pub const PAYLOAD_TYPE_NFT_TRANSFER: u32 = 6;

pub const PAYLOAD_TYPE_NFT_UPDATE: u32 = 12;

/// The different non-fungible token transaction attributes.
#[derive(Debug, PartialEq)]
pub enum TxKind {
    CreateType(CreateType),
    Mint(Mint),
    Transfer(Transfer),
    Update(Update),
}

/// The mathematical shape of a [`TxKind`].
pub enum TxKindModel {
    CreateType(CreateTypeModel),
    Mint(MintModel),
    Transfer(TransferModel),
    Update(UpdateModel),
}

impl TxKind {
    /// The mathematical value of this record.
    pub open spec fn model(&self) -> TxKindModel {
        match self {
            TxKind::CreateType(r) => TxKindModel::CreateType(r.model()),
            TxKind::Mint(r) => TxKindModel::Mint(r.model()),
            TxKind::Transfer(r) => TxKindModel::Transfer(r.model()),
            TxKind::Update(r) => TxKindModel::Update(r.model()),
        }
    }
}

/// Which attribute record the payload type of `typ` dispatches to, and
/// what decoding `data` as that record yields; an unrecognised payload
/// type is a decode error with code 0xFF.
pub open spec fn spec_tx_attributes(typ: u32, data: Seq<u8>) -> Result<TxKindModel, u64> {
    if typ == PAYLOAD_TYPE_NFT_CREATE_TYPE {
        match CreateType::spec_from(data) {
            Ok(r) => Ok(TxKindModel::CreateType(r)),
            Err(e) => Err(e),
        }
    } else if typ == PAYLOAD_TYPE_NFT_MINT {
        match Mint::spec_from(data) {
            Ok(r) => Ok(TxKindModel::Mint(r)),
            Err(e) => Err(e),
        }
    } else if typ == PAYLOAD_TYPE_NFT_TRANSFER {
        match Transfer::spec_from(data) {
            Ok(r) => Ok(TxKindModel::Transfer(r)),
            Err(e) => Err(e),
        }
    } else if typ == PAYLOAD_TYPE_NFT_UPDATE {
        match Update::spec_from(data) {
            Ok(r) => Ok(TxKindModel::Update(r)),
            Err(e) => Err(e),
        }
    } else {
        Err(0xFF)
    }
}

/// Decode the attributes of a non-fungible token transaction order: the
/// payload type of the order picks the record type, per
/// [`spec_tx_attributes`]; `data` is the raw attribute bytes the host
/// exported for the order.
pub fn tx_attributes(txo: &TxOrder, data: Vec<u8>) -> (r: Result<TxKind, Error>)
    ensures
        match (r, spec_tx_attributes(txo.typ, data@)) {
            (Ok(k), Ok(m)) => k.model() == m,
            (Err(e), Err(c)) => e@ == c,
            _ => false,
        },
{
    if txo.typ == PAYLOAD_TYPE_NFT_CREATE_TYPE {
        match CreateType::from(data) {
            Ok(r) => Ok(TxKind::CreateType(r)),
            Err(e) => Err(e),
        }
    } else if txo.typ == PAYLOAD_TYPE_NFT_MINT {
        match Mint::from(data) {
            Ok(r) => Ok(TxKind::Mint(r)),
            Err(e) => Err(e),
        }
    } else if txo.typ == PAYLOAD_TYPE_NFT_TRANSFER {
        match Transfer::from(data) {
            Ok(r) => Ok(TxKind::Transfer(r)),
            Err(e) => Err(e),
        }
    } else if txo.typ == PAYLOAD_TYPE_NFT_UPDATE {
        match Update::from(data) {
            Ok(r) => Ok(TxKind::Update(r)),
            Err(e) => Err(e),
        }
    } else {
        Err(Error::new(0xFF))
    }
}

/// The model of an optional string field.
pub open spec fn opt_str_model(o: Option<String>) -> Option<Seq<char>> {
    match o {
        Some(s) => Some(s@),
        None => None,
    }
}

/// The model of an optional byte-buffer field.
pub open spec fn opt_bytes_model(o: Option<Vec<u8>>) -> Option<Seq<u8>> {
    match o {
        Some(b) => Some(b@),
        None => None,
    }
}

/// Attributes of a "define non-fungible token type" transaction.
#[derive(Debug, PartialEq)]
pub struct CreateType {
    pub symbol: Option<String>,
    pub name: Option<String>,
    /// Parent type of the type, `None` for a root type. An empty buffer
    /// on the wire decodes to `Some` of an empty id, so a missing value
    /// and an empty value stay distinguishable.
    pub type_id: Option<Vec<u8>>,
}

/// The mathematical shape of a [`CreateType`].
pub struct CreateTypeModel {
    pub symbol: Option<Seq<char>>,
    pub name: Option<Seq<char>>,
    pub type_id: Option<Seq<u8>>,
}

impl CreateType {
    /// The mathematical value of this record.
    pub open spec fn model(&self) -> CreateTypeModel {
        CreateTypeModel {
            symbol: opt_str_model(self.symbol),
            name: opt_str_model(self.name),
            type_id: opt_bytes_model(self.type_id),
        }
    }

    /// The empty record every decode starts from.
    pub open spec fn spec_default() -> CreateTypeModel {
        CreateTypeModel { symbol: None, name: None, type_id: None }
    }

    /// How one (tag, value) field updates the record: tag 1 is the
    /// symbol, 2 the name, 3 the parent type id; any other tag is
    /// ignored. A failed coercion chains the field's tag onto its error.
    pub open spec fn step() -> spec_fn(CreateTypeModel, u8, ValueModel) -> Result<
        CreateTypeModel,
        u64,
    > {
        |acc: CreateTypeModel, t: u8, v: ValueModel|
            {
                if t == 1 {
                    match spec_as_opt_string(v) {
                        Ok(s) => Ok(CreateTypeModel { symbol: s, ..acc }),
                        Err(e) => Err(spec_chain(e, 1)),
                    }
                } else if t == 2 {
                    match spec_as_opt_string(v) {
                        Ok(s) => Ok(CreateTypeModel { name: s, ..acc }),
                        Err(e) => Err(spec_chain(e, 2)),
                    }
                } else if t == 3 {
                    match spec_as_opt_bytes(v) {
                        Ok(b) => Ok(CreateTypeModel { type_id: b, ..acc }),
                        Err(e) => Err(spec_chain(e, 3)),
                    }
                } else {
                    Ok(acc)
                }
            }
    }

    /// What decoding a type-definition record from `data` yields.
    pub open spec fn spec_from(data: Seq<u8>) -> Result<CreateTypeModel, u64> {
        fold_fields(spec_fields(data, 0), Self::spec_default(), Self::step())
    }

    /// The field tags the record recognises.
    pub open spec fn known_tags() -> spec_fn(u8) -> bool {
        |t: u8| 1 <= t <= 3
    }

    /// Forward compatibility: fields with unrecognised tags may stand
    /// anywhere in the buffer without changing what the record decodes
    /// to.
    pub proof fn lemma_ignores_unknown_fields(fields: Seq<(u8, ValueModel)>)
        ensures
            fold_fields(fields, Self::spec_default(), Self::step()) == fold_fields(
                known_fields(fields, Self::known_tags()),
                Self::spec_default(),
                Self::step(),
            ),
    {
        lemma_fold_fields_skips_unknown(
            fields,
            Self::spec_default(),
            Self::step(),
            Self::known_tags(),
        );
    }

    /// Decode a type-definition record from its tag-value representation,
    /// per [`CreateType::spec_from`]: unknown fields are ignored.
    #[verifier::loop_isolation(false)]
    pub fn from(input: Vec<u8>) -> (r: Result<Self, Error>)
        ensures
            match (r, Self::spec_from(input@)) {
                (Ok(rec), Ok(m)) => rec.model() == m,
                (Err(e), Err(c)) => e@ == c,
                _ => false,
            },
    {
        let ghost all_fields = spec_fields(input@, 0);
        let mut rec = CreateType { symbol: None, name: None, type_id: None };
        let mut it = TagValueIter::new(input.as_slice());
        loop
            invariant
                it.dec.wf(),
                it.dec.data@ == input@,
                fold_fields(all_fields, Self::spec_default(), Self::step()) == fold_fields(
                    spec_fields(input@, it.dec.pos as int),
                    rec.model(),
                    Self::step(),
                ),
            decreases spec_rest(input@, it.dec.pos as int),
        {
            match it.next() {
                None => {
                    return Ok(rec);
                },
                Some((tag, v)) => {
                    proof {
                        lemma_fold_fields_unfold(
                            (tag, v.model()),
                            spec_fields(input@, it.dec.pos as int),
                            rec.model(),
                            Self::step(),
                        );
                    }
                    if tag == 1 {
                        match v.into_opt_string() {
                            Ok(s) => {
                                rec.symbol = s;
                            },
                            Err(e) => {
                                return Err(e.chain(1));
                            },
                        }
                    } else if tag == 2 {
                        match v.into_opt_string() {
                            Ok(s) => {
                                rec.name = s;
                            },
                            Err(e) => {
                                return Err(e.chain(2));
                            },
                        }
                    } else if tag == 3 {
                        match v.into_opt_bytes() {
                            Ok(b) => {
                                rec.type_id = b;
                            },
                            Err(e) => {
                                return Err(e.chain(3));
                            },
                        }
                    }
                },
            }
        }
    }
}

/// Attributes of a "mint non-fungible token" transaction.
#[derive(Debug, PartialEq)]
pub struct Mint {
    pub type_id: Option<Vec<u8>>,
    pub name: Option<String>,
    pub uri: Option<String>,
    pub data: Option<Vec<u8>>,
    pub nonce: Option<u64>,
}

/// The mathematical shape of a [`Mint`].
pub struct MintModel {
    pub type_id: Option<Seq<u8>>,
    pub name: Option<Seq<char>>,
    pub uri: Option<Seq<char>>,
    pub data: Option<Seq<u8>>,
    pub nonce: Option<u64>,
}

impl Mint {
    /// The mathematical value of this record.
    pub open spec fn model(&self) -> MintModel {
        MintModel {
            type_id: opt_bytes_model(self.type_id),
            name: opt_str_model(self.name),
            uri: opt_str_model(self.uri),
            data: opt_bytes_model(self.data),
            nonce: self.nonce,
        }
    }

    /// The empty record every decode starts from.
    pub open spec fn spec_default() -> MintModel {
        MintModel { type_id: None, name: None, uri: None, data: None, nonce: None }
    }

    /// How one (tag, value) field updates the record: tag 1 is the name,
    /// 2 the URI, 3 the data, 4 the nonce, 5 the type id; any other tag
    /// is ignored. A failed coercion chains the field's tag onto its
    /// error.
    pub open spec fn step() -> spec_fn(MintModel, u8, ValueModel) -> Result<MintModel, u64> {
        |acc: MintModel, t: u8, v: ValueModel|
            {
                if t == 1 {
                    match spec_as_opt_string(v) {
                        Ok(s) => Ok(MintModel { name: s, ..acc }),
                        Err(e) => Err(spec_chain(e, 1)),
                    }
                } else if t == 2 {
                    match spec_as_opt_string(v) {
                        Ok(s) => Ok(MintModel { uri: s, ..acc }),
                        Err(e) => Err(spec_chain(e, 2)),
                    }
                } else if t == 3 {
                    match spec_as_opt_bytes(v) {
                        Ok(b) => Ok(MintModel { data: b, ..acc }),
                        Err(e) => Err(spec_chain(e, 3)),
                    }
                } else if t == 4 {
                    match spec_as_opt_u64(v) {
                        Ok(n) => Ok(MintModel { nonce: n, ..acc }),
                        Err(e) => Err(spec_chain(e, 4)),
                    }
                } else if t == 5 {
                    match spec_as_opt_bytes(v) {
                        Ok(b) => Ok(MintModel { type_id: b, ..acc }),
                        Err(e) => Err(spec_chain(e, 5)),
                    }
                } else {
                    Ok(acc)
                }
            }
    }

    /// What decoding a mint record from `data` yields.
    pub open spec fn spec_from(data: Seq<u8>) -> Result<MintModel, u64> {
        fold_fields(spec_fields(data, 0), Self::spec_default(), Self::step())
    }

    /// The field tags the record recognises.
    pub open spec fn known_tags() -> spec_fn(u8) -> bool {
        |t: u8| 1 <= t <= 5
    }

    /// Forward compatibility: fields with unrecognised tags may stand
    /// anywhere in the buffer without changing what the record decodes
    /// to.
    pub proof fn lemma_ignores_unknown_fields(fields: Seq<(u8, ValueModel)>)
        ensures
            fold_fields(fields, Self::spec_default(), Self::step()) == fold_fields(
                known_fields(fields, Self::known_tags()),
                Self::spec_default(),
                Self::step(),
            ),
    {
        lemma_fold_fields_skips_unknown(
            fields,
            Self::spec_default(),
            Self::step(),
            Self::known_tags(),
        );
    }

    /// Decode a mint record from its tag-value representation, per
    /// [`Mint::spec_from`]: unknown fields are ignored.
    #[verifier::loop_isolation(false)]
    pub fn from(input: Vec<u8>) -> (r: Result<Self, Error>)
        ensures
            match (r, Self::spec_from(input@)) {
                (Ok(rec), Ok(m)) => rec.model() == m,
                (Err(e), Err(c)) => e@ == c,
                _ => false,
            },
    {
        let ghost all_fields = spec_fields(input@, 0);
        let mut rec = Mint { type_id: None, name: None, uri: None, data: None, nonce: None };
        let mut it = TagValueIter::new(input.as_slice());
        loop
            invariant
                it.dec.wf(),
                it.dec.data@ == input@,
                fold_fields(all_fields, Self::spec_default(), Self::step()) == fold_fields(
                    spec_fields(input@, it.dec.pos as int),
                    rec.model(),
                    Self::step(),
                ),
            decreases spec_rest(input@, it.dec.pos as int),
        {
            match it.next() {
                None => {
                    return Ok(rec);
                },
                Some((tag, v)) => {
                    proof {
                        lemma_fold_fields_unfold(
                            (tag, v.model()),
                            spec_fields(input@, it.dec.pos as int),
                            rec.model(),
                            Self::step(),
                        );
                    }
                    if tag == 1 {
                        match v.into_opt_string() {
                            Ok(s) => {
                                rec.name = s;
                            },
                            Err(e) => {
                                return Err(e.chain(1));
                            },
                        }
                    } else if tag == 2 {
                        match v.into_opt_string() {
                            Ok(s) => {
                                rec.uri = s;
                            },
                            Err(e) => {
                                return Err(e.chain(2));
                            },
                        }
                    } else if tag == 3 {
                        match v.into_opt_bytes() {
                            Ok(b) => {
                                rec.data = b;
                            },
                            Err(e) => {
                                return Err(e.chain(3));
                            },
                        }
                    } else if tag == 4 {
                        match v.into_opt_u64() {
                            Ok(n) => {
                                rec.nonce = n;
                            },
                            Err(e) => {
                                return Err(e.chain(4));
                            },
                        }
                    } else if tag == 5 {
                        match v.into_opt_bytes() {
                            Ok(b) => {
                                rec.type_id = b;
                            },
                            Err(e) => {
                                return Err(e.chain(5));
                            },
                        }
                    }
                },
            }
        }
    }
}

/// Attributes of a "transfer non-fungible token" transaction.
#[derive(Debug, PartialEq)]
pub struct Transfer {
    pub type_id: Option<Vec<u8>>,
    pub counter: Option<u64>,
}

/// The mathematical shape of a [`Transfer`].
pub struct TransferModel {
    pub type_id: Option<Seq<u8>>,
    pub counter: Option<u64>,
}

impl Transfer {
    /// The mathematical value of this record.
    pub open spec fn model(&self) -> TransferModel {
        TransferModel { type_id: opt_bytes_model(self.type_id), counter: self.counter }
    }

    /// The empty record every decode starts from.
    pub open spec fn spec_default() -> TransferModel {
        TransferModel { type_id: None, counter: None }
    }

    /// How one (tag, value) field updates the record: tag 1 is the type
    /// id, 2 the counter; any other tag is ignored. A failed coercion
    /// chains the field's tag onto its error.
    pub open spec fn step() -> spec_fn(TransferModel, u8, ValueModel) -> Result<
        TransferModel,
        u64,
    > {
        |acc: TransferModel, t: u8, v: ValueModel|
            {
                if t == 1 {
                    match spec_as_opt_bytes(v) {
                        Ok(b) => Ok(TransferModel { type_id: b, ..acc }),
                        Err(e) => Err(spec_chain(e, 1)),
                    }
                } else if t == 2 {
                    match spec_as_opt_u64(v) {
                        Ok(n) => Ok(TransferModel { counter: n, ..acc }),
                        Err(e) => Err(spec_chain(e, 2)),
                    }
                } else {
                    Ok(acc)
                }
            }
    }

    /// What decoding a transfer record from `data` yields.
    pub open spec fn spec_from(data: Seq<u8>) -> Result<TransferModel, u64> {
        fold_fields(spec_fields(data, 0), Self::spec_default(), Self::step())
    }

    /// The field tags the record recognises.
    pub open spec fn known_tags() -> spec_fn(u8) -> bool {
        |t: u8| 1 <= t <= 2
    }

    /// Forward compatibility: fields with unrecognised tags may stand
    /// anywhere in the buffer without changing what the record decodes
    /// to.
    pub proof fn lemma_ignores_unknown_fields(fields: Seq<(u8, ValueModel)>)
        ensures
            fold_fields(fields, Self::spec_default(), Self::step()) == fold_fields(
                known_fields(fields, Self::known_tags()),
                Self::spec_default(),
                Self::step(),
            ),
    {
        lemma_fold_fields_skips_unknown(
            fields,
            Self::spec_default(),
            Self::step(),
            Self::known_tags(),
        );
    }

    /// Decode a transfer record from its tag-value representation, per
    /// [`Transfer::spec_from`]: unknown fields are ignored.
    #[verifier::loop_isolation(false)]
    pub fn from(input: Vec<u8>) -> (r: Result<Self, Error>)
        ensures
            match (r, Self::spec_from(input@)) {
                (Ok(rec), Ok(m)) => rec.model() == m,
                (Err(e), Err(c)) => e@ == c,
                _ => false,
            },
    {
        let ghost all_fields = spec_fields(input@, 0);
        let mut rec = Transfer { type_id: None, counter: None };
        let mut it = TagValueIter::new(input.as_slice());
        loop
            invariant
                it.dec.wf(),
                it.dec.data@ == input@,
                fold_fields(all_fields, Self::spec_default(), Self::step()) == fold_fields(
                    spec_fields(input@, it.dec.pos as int),
                    rec.model(),
                    Self::step(),
                ),
            decreases spec_rest(input@, it.dec.pos as int),
        {
            match it.next() {
                None => {
                    return Ok(rec);
                },
                Some((tag, v)) => {
                    proof {
                        lemma_fold_fields_unfold(
                            (tag, v.model()),
                            spec_fields(input@, it.dec.pos as int),
                            rec.model(),
                            Self::step(),
                        );
                    }
                    if tag == 1 {
                        match v.into_opt_bytes() {
                            Ok(b) => {
                                rec.type_id = b;
                            },
                            Err(e) => {
                                return Err(e.chain(1));
                            },
                        }
                    } else if tag == 2 {
                        match v.into_opt_u64() {
                            Ok(n) => {
                                rec.counter = n;
                            },
                            Err(e) => {
                                return Err(e.chain(2));
                            },
                        }
                    }
                },
            }
        }
    }
}

/// Attributes of an "update non-fungible token" transaction.
#[derive(Debug, PartialEq)]
pub struct Update {
    pub data: Option<Vec<u8>>,
    pub counter: Option<u64>,
}

/// The mathematical shape of an [`Update`].
pub struct UpdateModel {
    pub data: Option<Seq<u8>>,
    pub counter: Option<u64>,
}

impl Update {
    /// The mathematical value of this record.
    pub open spec fn model(&self) -> UpdateModel {
        UpdateModel { data: opt_bytes_model(self.data), counter: self.counter }
    }

    /// The empty record every decode starts from.
    pub open spec fn spec_default() -> UpdateModel {
        UpdateModel { data: None, counter: None }
    }

    /// How one (tag, value) field updates the record: tag 1 is the data,
    /// 2 the counter; any other tag is ignored. A failed coercion chains
    /// the field's tag onto its error.
    pub open spec fn step() -> spec_fn(UpdateModel, u8, ValueModel) -> Result<UpdateModel, u64> {
        |acc: UpdateModel, t: u8, v: ValueModel|
            {
                if t == 1 {
                    match spec_as_opt_bytes(v) {
                        Ok(b) => Ok(UpdateModel { data: b, ..acc }),
                        Err(e) => Err(spec_chain(e, 1)),
                    }
                } else if t == 2 {
                    match spec_as_opt_u64(v) {
                        Ok(n) => Ok(UpdateModel { counter: n, ..acc }),
                        Err(e) => Err(spec_chain(e, 2)),
                    }
                } else {
                    Ok(acc)
                }
            }
    }

    /// What decoding an update record from `data` yields.
    pub open spec fn spec_from(data: Seq<u8>) -> Result<UpdateModel, u64> {
        fold_fields(spec_fields(data, 0), Self::spec_default(), Self::step())
    }

    /// The field tags the record recognises.
    pub open spec fn known_tags() -> spec_fn(u8) -> bool {
        |t: u8| 1 <= t <= 2
    }

    /// Forward compatibility: fields with unrecognised tags may stand
    /// anywhere in the buffer without changing what the record decodes
    /// to.
    pub proof fn lemma_ignores_unknown_fields(fields: Seq<(u8, ValueModel)>)
        ensures
            fold_fields(fields, Self::spec_default(), Self::step()) == fold_fields(
                known_fields(fields, Self::known_tags()),
                Self::spec_default(),
                Self::step(),
            ),
    {
        lemma_fold_fields_skips_unknown(
            fields,
            Self::spec_default(),
            Self::step(),
            Self::known_tags(),
        );
    }

    /// Decode an update record from its tag-value representation, per
    /// [`Update::spec_from`]: unknown fields are ignored.
    #[verifier::loop_isolation(false)]
    pub fn from(input: Vec<u8>) -> (r: Result<Self, Error>)
        ensures
            match (r, Self::spec_from(input@)) {
                (Ok(rec), Ok(m)) => rec.model() == m,
                (Err(e), Err(c)) => e@ == c,
                _ => false,
            },
    {
        let ghost all_fields = spec_fields(input@, 0);
        let mut rec = Update { data: None, counter: None };
        let mut it = TagValueIter::new(input.as_slice());
        loop
            invariant
                it.dec.wf(),
                it.dec.data@ == input@,
                fold_fields(all_fields, Self::spec_default(), Self::step()) == fold_fields(
                    spec_fields(input@, it.dec.pos as int),
                    rec.model(),
                    Self::step(),
                ),
            decreases spec_rest(input@, it.dec.pos as int),
        {
            match it.next() {
                None => {
                    return Ok(rec);
                },
                Some((tag, v)) => {
                    proof {
                        lemma_fold_fields_unfold(
                            (tag, v.model()),
                            spec_fields(input@, it.dec.pos as int),
                            rec.model(),
                            Self::step(),
                        );
                    }
                    if tag == 1 {
                        match v.into_opt_bytes() {
                            Ok(b) => {
                                rec.data = b;
                            },
                            Err(e) => {
                                return Err(e.chain(1));
                            },
                        }
                    } else if tag == 2 {
                        match v.into_opt_u64() {
                            Ok(n) => {
                                rec.counter = n;
                            },
                            Err(e) => {
                                return Err(e.chain(2));
                            },
                        }
                    }
                },
            }
        }
    }
}

/// Data of a non-fungible token unit.
#[derive(Debug, PartialEq)]
pub struct TokenData {
    pub type_id: Option<Vec<u8>>,
    pub name: Option<String>,
    pub uri: Option<String>,
    pub data: Option<Vec<u8>>,
    pub counter: Option<u64>,
    /// Locked status of the token; a non-zero value means locked.
    pub locked: Option<u64>,
}

/// The mathematical shape of a [`TokenData`].
pub struct TokenDataModel {
    pub type_id: Option<Seq<u8>>,
    pub name: Option<Seq<char>>,
    pub uri: Option<Seq<char>>,
    pub data: Option<Seq<u8>>,
    pub counter: Option<u64>,
    pub locked: Option<u64>,
}

impl TokenData {
    /// Version tag of the serialized token unit data.
    pub const TAG_VER: u8 = 1;

    /// The mathematical value of this record.
    pub open spec fn model(&self) -> TokenDataModel {
        TokenDataModel {
            type_id: opt_bytes_model(self.type_id),
            name: opt_str_model(self.name),
            uri: opt_str_model(self.uri),
            data: opt_bytes_model(self.data),
            counter: self.counter,
            locked: self.locked,
        }
    }

    /// The empty record every decode starts from.
    pub open spec fn spec_default() -> TokenDataModel {
        TokenDataModel {
            type_id: None,
            name: None,
            uri: None,
            data: None,
            counter: None,
            locked: None,
        }
    }

    /// How one (tag, value) field updates the record: tag 1 is the type
    /// id, 2 the name, 3 the URI, 4 the data, 5 the counter, 6 the locked
    /// status; any other tag is ignored. A failed coercion chains the
    /// field's tag onto its error.
    pub open spec fn step() -> spec_fn(TokenDataModel, u8, ValueModel) -> Result<
        TokenDataModel,
        u64,
    > {
        |acc: TokenDataModel, t: u8, v: ValueModel|
            {
                if t == 1 {
                    match spec_as_opt_bytes(v) {
                        Ok(b) => Ok(TokenDataModel { type_id: b, ..acc }),
                        Err(e) => Err(spec_chain(e, 1)),
                    }
                } else if t == 2 {
                    match spec_as_opt_string(v) {
                        Ok(s) => Ok(TokenDataModel { name: s, ..acc }),
                        Err(e) => Err(spec_chain(e, 2)),
                    }
                } else if t == 3 {
                    match spec_as_opt_string(v) {
                        Ok(s) => Ok(TokenDataModel { uri: s, ..acc }),
                        Err(e) => Err(spec_chain(e, 3)),
                    }
                } else if t == 4 {
                    match spec_as_opt_bytes(v) {
                        Ok(b) => Ok(TokenDataModel { data: b, ..acc }),
                        Err(e) => Err(spec_chain(e, 4)),
                    }
                } else if t == 5 {
                    match spec_as_opt_u64(v) {
                        Ok(n) => Ok(TokenDataModel { counter: n, ..acc }),
                        Err(e) => Err(spec_chain(e, 5)),
                    }
                } else if t == 6 {
                    match spec_as_opt_u64(v) {
                        Ok(n) => Ok(TokenDataModel { locked: n, ..acc }),
                        Err(e) => Err(spec_chain(e, 6)),
                    }
                } else {
                    Ok(acc)
                }
            }
    }

    /// What decoding a token-data record from `data` yields.
    pub open spec fn spec_from(data: Seq<u8>) -> Result<TokenDataModel, u64> {
        fold_fields(spec_fields(data, 0), Self::spec_default(), Self::step())
    }

    /// The field tags the record recognises.
    pub open spec fn known_tags() -> spec_fn(u8) -> bool {
        |t: u8| 1 <= t <= 6
    }

    /// Forward compatibility: fields with unrecognised tags may stand
    /// anywhere in the buffer without changing what the record decodes
    /// to.
    pub proof fn lemma_ignores_unknown_fields(fields: Seq<(u8, ValueModel)>)
        ensures
            fold_fields(fields, Self::spec_default(), Self::step()) == fold_fields(
                known_fields(fields, Self::known_tags()),
                Self::spec_default(),
                Self::step(),
            ),
    {
        lemma_fold_fields_skips_unknown(
            fields,
            Self::spec_default(),
            Self::step(),
            Self::known_tags(),
        );
    }

    /// Decode a token-data record from its tag-value representation, per
    /// [`TokenData::spec_from`]: unknown fields are ignored.
    #[verifier::loop_isolation(false)]
    pub fn from(input: Vec<u8>) -> (r: Result<Self, Error>)
        ensures
            match (r, Self::spec_from(input@)) {
                (Ok(rec), Ok(m)) => rec.model() == m,
                (Err(e), Err(c)) => e@ == c,
                _ => false,
            },
    {
        let ghost all_fields = spec_fields(input@, 0);
        let mut rec = TokenData {
            type_id: None,
            name: None,
            uri: None,
            data: None,
            counter: None,
            locked: None,
        };
        let mut it = TagValueIter::new(input.as_slice());
        loop
            invariant
                it.dec.wf(),
                it.dec.data@ == input@,
                fold_fields(all_fields, Self::spec_default(), Self::step()) == fold_fields(
                    spec_fields(input@, it.dec.pos as int),
                    rec.model(),
                    Self::step(),
                ),
            decreases spec_rest(input@, it.dec.pos as int),
        {
            match it.next() {
                None => {
                    return Ok(rec);
                },
                Some((tag, v)) => {
                    proof {
                        lemma_fold_fields_unfold(
                            (tag, v.model()),
                            spec_fields(input@, it.dec.pos as int),
                            rec.model(),
                            Self::step(),
                        );
                    }
                    if tag == 1 {
                        match v.into_opt_bytes() {
                            Ok(b) => {
                                rec.type_id = b;
                            },
                            Err(e) => {
                                return Err(e.chain(1));
                            },
                        }
                    } else if tag == 2 {
                        match v.into_opt_string() {
                            Ok(s) => {
                                rec.name = s;
                            },
                            Err(e) => {
                                return Err(e.chain(2));
                            },
                        }
                    } else if tag == 3 {
                        match v.into_opt_string() {
                            Ok(s) => {
                                rec.uri = s;
                            },
                            Err(e) => {
                                return Err(e.chain(3));
                            },
                        }
                    } else if tag == 4 {
                        match v.into_opt_bytes() {
                            Ok(b) => {
                                rec.data = b;
                            },
                            Err(e) => {
                                return Err(e.chain(4));
                            },
                        }
                    } else if tag == 5 {
                        match v.into_opt_u64() {
                            Ok(n) => {
                                rec.counter = n;
                            },
                            Err(e) => {
                                return Err(e.chain(5));
                            },
                        }
                    } else if tag == 6 {
                        match v.into_opt_u64() {
                            Ok(n) => {
                                rec.locked = n;
                            },
                            Err(e) => {
                                return Err(e.chain(6));
                            },
                        }
                    }
                },
            }
        }
    }
}

/// Data of a non-fungible token type unit.
#[derive(Debug, PartialEq)]
pub struct TypeData {
    /// Parent type of the type, `None` (or empty) for a root type.
    pub parent_id: Option<Vec<u8>>,
    pub symbol: Option<String>,
    pub name: Option<String>,
}

/// The mathematical shape of a [`TypeData`].
pub struct TypeDataModel {
    pub parent_id: Option<Seq<u8>>,
    pub symbol: Option<Seq<char>>,
    pub name: Option<Seq<char>>,
}

impl TypeData {
    /// Version tag of the serialized token type unit data.
    pub const TAG_VER: u8 = 1;

    /// The mathematical value of this record.
    pub open spec fn model(&self) -> TypeDataModel {
        TypeDataModel {
            parent_id: opt_bytes_model(self.parent_id),
            symbol: opt_str_model(self.symbol),
            name: opt_str_model(self.name),
        }
    }

    /// The empty record every decode starts from.
    pub open spec fn spec_default() -> TypeDataModel {
        TypeDataModel { parent_id: None, symbol: None, name: None }
    }

    /// How one (tag, value) field updates the record: tag 1 is the parent
    /// type id, 2 the symbol, 3 the name; any other tag is ignored. A
    /// failed coercion chains the field's tag onto its error.
    pub open spec fn step() -> spec_fn(TypeDataModel, u8, ValueModel) -> Result<
        TypeDataModel,
        u64,
    > {
        |acc: TypeDataModel, t: u8, v: ValueModel|
            {
                if t == 1 {
                    match spec_as_opt_bytes(v) {
                        Ok(b) => Ok(TypeDataModel { parent_id: b, ..acc }),
                        Err(e) => Err(spec_chain(e, 1)),
                    }
                } else if t == 2 {
                    match spec_as_opt_string(v) {
                        Ok(s) => Ok(TypeDataModel { symbol: s, ..acc }),
                        Err(e) => Err(spec_chain(e, 2)),
                    }
                } else if t == 3 {
                    match spec_as_opt_string(v) {
                        Ok(s) => Ok(TypeDataModel { name: s, ..acc }),
                        Err(e) => Err(spec_chain(e, 3)),
                    }
                } else {
                    Ok(acc)
                }
            }
    }

    /// What decoding a type-data record from `data` yields.
    pub open spec fn spec_from(data: Seq<u8>) -> Result<TypeDataModel, u64> {
        fold_fields(spec_fields(data, 0), Self::spec_default(), Self::step())
    }

    /// The field tags the record recognises.
    pub open spec fn known_tags() -> spec_fn(u8) -> bool {
        |t: u8| 1 <= t <= 3
    }

    /// Forward compatibility: fields with unrecognised tags may stand
    /// anywhere in the buffer without changing what the record decodes
    /// to.
    pub proof fn lemma_ignores_unknown_fields(fields: Seq<(u8, ValueModel)>)
        ensures
            fold_fields(fields, Self::spec_default(), Self::step()) == fold_fields(
                known_fields(fields, Self::known_tags()),
                Self::spec_default(),
                Self::step(),
            ),
    {
        lemma_fold_fields_skips_unknown(
            fields,
            Self::spec_default(),
            Self::step(),
            Self::known_tags(),
        );
    }

    /// Decode a type-data record from its tag-value representation, per
    /// [`TypeData::spec_from`]: unknown fields are ignored.
    #[verifier::loop_isolation(false)]
    pub fn from(input: Vec<u8>) -> (r: Result<Self, Error>)
        ensures
            match (r, Self::spec_from(input@)) {
                (Ok(rec), Ok(m)) => rec.model() == m,
                (Err(e), Err(c)) => e@ == c,
                _ => false,
            },
    {
        let ghost all_fields = spec_fields(input@, 0);
        let mut rec = TypeData { parent_id: None, symbol: None, name: None };
        let mut it = TagValueIter::new(input.as_slice());
        loop
            invariant
                it.dec.wf(),
                it.dec.data@ == input@,
                fold_fields(all_fields, Self::spec_default(), Self::step()) == fold_fields(
                    spec_fields(input@, it.dec.pos as int),
                    rec.model(),
                    Self::step(),
                ),
            decreases spec_rest(input@, it.dec.pos as int),
        {
            match it.next() {
                None => {
                    return Ok(rec);
                },
                Some((tag, v)) => {
                    proof {
                        lemma_fold_fields_unfold(
                            (tag, v.model()),
                            spec_fields(input@, it.dec.pos as int),
                            rec.model(),
                            Self::step(),
                        );
                    }
                    if tag == 1 {
                        match v.into_opt_bytes() {
                            Ok(b) => {
                                rec.parent_id = b;
                            },
                            Err(e) => {
                                return Err(e.chain(1));
                            },
                        }
                    } else if tag == 2 {
                        match v.into_opt_string() {
                            Ok(s) => {
                                rec.symbol = s;
                            },
                            Err(e) => {
                                return Err(e.chain(2));
                            },
                        }
                    } else if tag == 3 {
                        match v.into_opt_string() {
                            Ok(s) => {
                                rec.name = s;
                            },
                            Err(e) => {
                                return Err(e.chain(3));
                            },
                        }
                    }
                },
            }
        }
    }
}

} // verus!

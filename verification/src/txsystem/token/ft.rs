//! Fungible token data structures: transaction attribute records decoded
//! positionally — a fixed run of values with no field tags.

use vstd::prelude::*;

use crate::decoder::Decoder;
use crate::decoder::spec_read_bytes;
use crate::decoder::spec_read_string;
use crate::decoder::spec_read_u32;
use crate::decoder::spec_read_u64;
use crate::error::Error;
use crate::txsystem::TxOrder;

verus! {

pub const PAYLOAD_TYPE_FT_CREATE_TYPE: u32 = 1;

pub const PAYLOAD_TYPE_FT_MINT: u32 = 3;

pub const PAYLOAD_TYPE_FT_TRANSFER: u32 = 5;

/// The different fungible token transaction attributes.
#[derive(Debug, PartialEq)]
pub enum TxKind {
    CreateType(CreateType),
    Mint(Mint),
    Transfer(Transfer),
}

/// The mathematical shape of a [`TxKind`].
pub enum TxKindModel {
    CreateType(CreateTypeModel),
    Mint(MintModel),
    Transfer(TransferModel),
}

impl TxKind {
    /// The mathematical value of this record.
    pub open spec fn model(&self) -> TxKindModel {
        match self {
            TxKind::CreateType(r) => TxKindModel::CreateType(r.model()),
            TxKind::Mint(r) => TxKindModel::Mint(r.model()),
            TxKind::Transfer(r) => TxKindModel::Transfer(r.model()),
        }
    }
}

/// Which attribute record the payload type of `typ` dispatches to, and
/// what decoding `data` as that record yields; an unrecognised payload
/// type is a decode error.
pub open spec fn spec_tx_attributes(typ: u32, data: Seq<u8>) -> Result<TxKindModel, u64> {
    if typ == PAYLOAD_TYPE_FT_CREATE_TYPE {
        match CreateType::spec_from(data) {
            Ok(r) => Ok(TxKindModel::CreateType(r)),
            Err(e) => Err(e as u64),
        }
    } else if typ == PAYLOAD_TYPE_FT_MINT {
        match Mint::spec_from(data) {
            Ok(r) => Ok(TxKindModel::Mint(r)),
            Err(e) => Err(e as u64),
        }
    } else if typ == PAYLOAD_TYPE_FT_TRANSFER {
        match Transfer::spec_from(data) {
            Ok(r) => Ok(TxKindModel::Transfer(r)),
            Err(e) => Err(e as u64),
        }
    } else {
        Err(1)
    }
}

/// Decode the attributes of a fungible token transaction order: the
/// payload type of the order picks the record type, per
/// [`spec_tx_attributes`]; `data` is the raw attribute bytes the host
/// exported for the order.
pub fn tx_attributes(txo: &TxOrder, data: Vec<u8>) -> (r: Result<TxKind, Error>)
    ensures
        match (r, spec_tx_attributes(txo.typ, data@)) {
            (Ok(k), Ok(m)) => k.model() == m,
            (Err(e), Err(c)) => e@ == c,
            _ => false,
        },
{
    if txo.typ == PAYLOAD_TYPE_FT_CREATE_TYPE {
        match CreateType::from(data) {
            Ok(r) => Ok(TxKind::CreateType(r)),
            Err(e) => Err(e),
        }
    } else if txo.typ == PAYLOAD_TYPE_FT_MINT {
        match Mint::from(data) {
            Ok(r) => Ok(TxKind::Mint(r)),
            Err(e) => Err(e),
        }
    } else if txo.typ == PAYLOAD_TYPE_FT_TRANSFER {
        match Transfer::from(data) {
            Ok(r) => Ok(TxKind::Transfer(r)),
            Err(e) => Err(e),
        }
    } else {
        Err(Error::new(1))
    }
}

/// Attributes of a "define fungible token type" transaction.
#[derive(Debug, PartialEq)]
pub struct CreateType {
    pub symbol: String,
    pub name: String,
    /// Parent type of the type, empty for a root type.
    pub type_id: Vec<u8>,
    pub decimals: u32,
}

/// The mathematical shape of a [`CreateType`].
pub struct CreateTypeModel {
    pub symbol: Seq<char>,
    pub name: Seq<char>,
    pub type_id: Seq<u8>,
    pub decimals: u32,
}

impl CreateType {
    /// The mathematical value of this record.
    pub open spec fn model(&self) -> CreateTypeModel {
        CreateTypeModel {
            symbol: self.symbol@,
            name: self.name@,
            type_id: self.type_id@,
            decimals: self.decimals,
        }
    }

    /// What decoding a type-definition record from `data` yields: the
    /// symbol, the name, the parent type id and the decimals, read one
    /// after the other from the front of the buffer.
    pub open spec fn spec_from(data: Seq<u8>) -> Result<CreateTypeModel, u8> {
        let (r1, c1) = spec_read_string(data, 0);
        match r1 {
            Err(e) => Err(e),
            Ok(symbol) => {
                let (r2, c2) = spec_read_string(data, c1 as int);
                match r2 {
                    Err(e) => Err(e),
                    Ok(name) => {
                        let (r3, c3) = spec_read_bytes(data, (c1 + c2) as int);
                        match r3 {
                            Err(e) => Err(e),
                            Ok(type_id) => {
                                let (r4, c4) = spec_read_u32(data, (c1 + c2 + c3) as int);
                                match r4 {
                                    Err(e) => Err(e),
                                    Ok(decimals) => Ok(
                                        CreateTypeModel { symbol, name, type_id, decimals },
                                    ),
                                }
                            },
                        }
                    },
                }
            },
        }
    }

    /// Decode a type-definition record, per [`CreateType::spec_from`].
    pub fn from(input: Vec<u8>) -> (r: Result<Self, Error>)
        ensures
            match (r, Self::spec_from(input@)) {
                (Ok(rec), Ok(m)) => rec.model() == m,
                (Err(e), Err(c)) => e@ == c as u64,
                _ => false,
            },
    {
        let mut p = Decoder::new(input.as_slice());
        let symbol = match p.string() {
            Ok(s) => s,
            Err(e) => {
                return Err(e);
            },
        };
        let name = match p.string() {
            Ok(s) => s,
            Err(e) => {
                return Err(e);
            },
        };
        let type_id = match p.bytes() {
            Ok(b) => b,
            Err(e) => {
                return Err(e);
            },
        };
        let decimals = match p.uint32() {
            Ok(n) => n,
            Err(e) => {
                return Err(e);
            },
        };
        Ok(CreateType { symbol, name, type_id, decimals })
    }
}

/// Attributes of a "mint fungible token" transaction.
#[derive(Debug, PartialEq)]
pub struct Mint {
    pub type_id: Vec<u8>,
    pub value: u64,
    pub nonce: Vec<u8>,
}

/// The mathematical shape of a [`Mint`].
pub struct MintModel {
    pub type_id: Seq<u8>,
    pub value: u64,
    pub nonce: Seq<u8>,
}

impl Mint {
    /// The mathematical value of this record.
    pub open spec fn model(&self) -> MintModel {
        MintModel { type_id: self.type_id@, value: self.value, nonce: self.nonce@ }
    }

    /// What decoding a mint record from `data` yields: the type id, the
    /// value and the nonce, read one after the other from the front of
    /// the buffer.
    pub open spec fn spec_from(data: Seq<u8>) -> Result<MintModel, u8> {
        let (r1, c1) = spec_read_bytes(data, 0);
        match r1 {
            Err(e) => Err(e),
            Ok(type_id) => {
                let (r2, c2) = spec_read_u64(data, c1 as int);
                match r2 {
                    Err(e) => Err(e),
                    Ok(value) => {
                        let (r3, c3) = spec_read_bytes(data, (c1 + c2) as int);
                        match r3 {
                            Err(e) => Err(e),
                            Ok(nonce) => Ok(MintModel { type_id, value, nonce }),
                        }
                    },
                }
            },
        }
    }

    /// Decode a mint record, per [`Mint::spec_from`].
    pub fn from(input: Vec<u8>) -> (r: Result<Self, Error>)
        ensures
            match (r, Self::spec_from(input@)) {
                (Ok(rec), Ok(m)) => rec.model() == m,
                (Err(e), Err(c)) => e@ == c as u64,
                _ => false,
            },
    {
        let mut p = Decoder::new(input.as_slice());
        let type_id = match p.bytes() {
            Ok(b) => b,
            Err(e) => {
                return Err(e);
            },
        };
        let value = match p.uint64() {
            Ok(n) => n,
            Err(e) => {
                return Err(e);
            },
        };
        let nonce = match p.bytes() {
            Ok(b) => b,
            Err(e) => {
                return Err(e);
            },
        };
        Ok(Mint { type_id, value, nonce })
    }
}

/// Attributes of a "transfer fungible token" transaction.
#[derive(Debug, PartialEq)]
pub struct Transfer {
    pub value: u64,
    pub type_id: Vec<u8>,
    pub counter: u64,
}

/// The mathematical shape of a [`Transfer`].
pub struct TransferModel {
    pub value: u64,
    pub type_id: Seq<u8>,
    pub counter: u64,
}

impl Transfer {
    /// The mathematical value of this record.
    pub open spec fn model(&self) -> TransferModel {
        TransferModel { value: self.value, type_id: self.type_id@, counter: self.counter }
    }

    /// What decoding a transfer record from `data` yields: the value, the
    /// type id and the counter, read one after the other from the front
    /// of the buffer.
    pub open spec fn spec_from(data: Seq<u8>) -> Result<TransferModel, u8> {
        let (r1, c1) = spec_read_u64(data, 0);
        match r1 {
            Err(e) => Err(e),
            Ok(value) => {
                let (r2, c2) = spec_read_bytes(data, c1 as int);
                match r2 {
                    Err(e) => Err(e),
                    Ok(type_id) => {
                        let (r3, c3) = spec_read_u64(data, (c1 + c2) as int);
                        match r3 {
                            Err(e) => Err(e),
                            Ok(counter) => Ok(TransferModel { value, type_id, counter }),
                        }
                    },
                }
            },
        }
    }

    /// Decode a transfer record, per [`Transfer::spec_from`].
    pub fn from(input: Vec<u8>) -> (r: Result<Self, Error>)
        ensures
            match (r, Self::spec_from(input@)) {
                (Ok(rec), Ok(m)) => rec.model() == m,
                (Err(e), Err(c)) => e@ == c as u64,
                _ => false,
            },
    {
        let mut p = Decoder::new(input.as_slice());
        let value = match p.uint64() {
            Ok(n) => n,
            Err(e) => {
                return Err(e);
            },
        };
        let type_id = match p.bytes() {
            Ok(b) => b,
            Err(e) => {
                return Err(e);
            },
        };
        let counter = match p.uint64() {
            Ok(n) => n,
            Err(e) => {
                return Err(e);
            },
        };
        Ok(Transfer { value, type_id, counter })
    }
}

} // verus!

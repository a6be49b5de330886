//! The tag-value binary decoder: a forward-only cursor over a byte buffer
//! that produces typed values and, through [`TagValueIter`], the
//! (field tag, value) pairs every versioned record is built from.
//!
//! Wire layout: one type-discriminant byte (1 = bytes, 2 = u64, 3 = u32,
//! 4 = UTF-8 string, 5 = sequence), then for the fixed-width integers the
//! little-endian payload, and for the length-prefixed shapes a 4-byte
//! little-endian count followed by that many bytes or recursively encoded
//! values.
//!
//! Every read is bounds-checked against the remaining buffer, and a short
//! or otherwise malformed buffer yields a decode error, never a panic. The
//! host protocol itself treats an out-of-range length as a host contract
//! violation and permits the evaluation to abort; the stricter behaviour
//! here only widens the set of inputs with a defined result.

use vstd::prelude::*;
use vstd::string::StrSliceExecFns;
use vstd::utf8::decode_utf8;
use vstd::utf8::encode_utf8;
use vstd::utf8::valid_utf8;

use crate::error::Error;
use crate::error::spec_chain;

verus! {

/// Decode-error code for a leading type discriminant that is not one of
/// the five known kinds, and for a value of the wrong kind handed to a
/// typed coercion.
pub const ERR_UNKNOWN_TYPE: u8 = 1;

/// Decode-error code for a buffer that ends before the announced payload.
pub const ERR_TRUNCATED: u8 = 2;

/// Decode-error code for string data that is not valid UTF-8.
pub const ERR_INVALID_UTF8: u8 = 3;

/// One decoded tag-value item.
#[derive(Debug, PartialEq)]
pub enum Value {
    U64(u64),
    U32(u32),
    Bytes(Vec<u8>),
    String(String),
    Array(Vec<Value>),
    /// A decode error, carrying its error code.
    Error(u8),
}

/// The mathematical shape of a decoded [`Value`].
pub enum ValueModel {
    U64(u64),
    U32(u32),
    Bytes(Seq<u8>),
    String(Seq<char>),
    Array(Seq<ValueModel>),
    Error(u8),
}

impl Value {
    /// The mathematical value this decoded item stands for.
    pub open spec fn model(&self) -> ValueModel
        decreases self,
        via Self::model_decreases
    {
        match self {
            Value::U64(n) => ValueModel::U64(*n),
            Value::U32(n) => ValueModel::U32(*n),
            Value::Bytes(b) => ValueModel::Bytes(b@),
            Value::String(s) => ValueModel::String(s@),
            Value::Array(a) => ValueModel::Array(models(a@)),
            Value::Error(c) => ValueModel::Error(*c),
        }
    }

    #[via_fn]
    proof fn model_decreases(&self) {
        if let Value::Array(a) = self {
            vstd::std_specs::vec::axiom_vec_decreases_to_view(*a);
            assert(decreases_to!(self => *a));
        }
    }
}

/// The models of a sequence of decoded items, element by element.
pub open spec fn models(s: Seq<Value>) -> Seq<ValueModel>
    decreases s,
    via models_decreases
{
    if s.len() == 0 {
        Seq::empty()
    } else {
        seq![s[0].model()] + models(s.drop_first())
    }
}

#[via_fn]
proof fn models_decreases(s: Seq<Value>) {
    if s.len() > 0 {
        vstd::seq::axiom_seq_index_decreases(s, 0);
        assert(s.drop_first().len() < s.len());
        vstd::seq::axiom_seq_subrange_decreases(s, 1, s.len() as int);
        assert(s.drop_first() == s.subrange(1, s.len() as int));
    }
}

/// [`models`] maps the sequence element by element.
pub proof fn lemma_models(s: Seq<Value>)
    ensures
        models(s) == Seq::new(s.len(), |i: int| s[i].model()),
    decreases s.len(),
{
    if s.len() == 0 {
        assert(models(s) =~= Seq::new(s.len(), |i: int| s[i].model()));
    } else {
        lemma_models(s.drop_first());
        assert(models(s) =~= Seq::new(s.len(), |i: int| s[i].model()));
    }
}

/// The little-endian 32-bit integer held in `data[pos .. pos + 4]`.
pub open spec fn spec_le_u32(data: Seq<u8>, pos: int) -> u32
    recommends
        0 <= pos,
        pos + 4 <= data.len(),
{
    (data[pos] + data[pos + 1] * 0x100 + data[pos + 2] * 0x1_0000 + data[pos + 3]
        * 0x100_0000) as u32
}

/// The little-endian 64-bit integer held in `data[pos .. pos + 8]`.
pub open spec fn spec_le_u64(data: Seq<u8>, pos: int) -> u64
    recommends
        0 <= pos,
        pos + 8 <= data.len(),
{
    (data[pos] + data[pos + 1] * 0x100 + data[pos + 2] * 0x1_0000 + data[pos + 3] * 0x100_0000
        + data[pos + 4] * 0x1_0000_0000 + data[pos + 5] * 0x100_0000_0000 + data[pos + 6]
        * 0x1_0000_0000_0000 + data[pos + 7] * 0x100_0000_0000_0000) as u64
}

/// Bytes left in the buffer from `pos` on.
pub open spec fn spec_rest(data: Seq<u8>, pos: int) -> nat {
    if 0 <= pos <= data.len() {
        (data.len() - pos) as nat
    } else {
        0
    }
}

/// Reading a 32-bit integer at `pos`: the value and the bytes consumed, or
/// a truncation error that consumes the rest of the buffer.
pub open spec fn spec_read_u32(data: Seq<u8>, pos: int) -> (Result<u32, u8>, nat) {
    if 0 <= pos && pos + 4 <= data.len() {
        (Ok(spec_le_u32(data, pos)), 4)
    } else {
        (Err(ERR_TRUNCATED), spec_rest(data, pos))
    }
}

/// Reading a 64-bit integer at `pos`, as [`spec_read_u32`].
pub open spec fn spec_read_u64(data: Seq<u8>, pos: int) -> (Result<u64, u8>, nat) {
    if 0 <= pos && pos + 8 <= data.len() {
        (Ok(spec_le_u64(data, pos)), 8)
    } else {
        (Err(ERR_TRUNCATED), spec_rest(data, pos))
    }
}

/// Reading a length-prefixed byte buffer at `pos`: a 4-byte count, then
/// that many raw bytes.
pub open spec fn spec_read_bytes(data: Seq<u8>, pos: int) -> (Result<Seq<u8>, u8>, nat) {
    let (lr, c) = spec_read_u32(data, pos);
    match lr {
        Err(e) => (Err(e), c),
        Ok(n) => if pos + 4 + n <= data.len() {
            (Ok(data.subrange(pos + 4, pos + 4 + n)), (4 + n) as nat)
        } else {
            (Err(ERR_TRUNCATED), spec_rest(data, pos))
        },
    }
}

/// Reading a length-prefixed UTF-8 string at `pos`: the bytes of
/// [`spec_read_bytes`], decoded; bytes that are not valid UTF-8 are a
/// decode error.
pub open spec fn spec_read_string(data: Seq<u8>, pos: int) -> (Result<Seq<char>, u8>, nat) {
    let (br, c) = spec_read_bytes(data, pos);
    match br {
        Err(e) => (Err(e), c),
        Ok(b) => if valid_utf8(b) {
            (Ok(decode_utf8(b)), c)
        } else {
            (Err(ERR_INVALID_UTF8), c)
        },
    }
}

/// Decoding one value at `pos`: the value's model and the bytes consumed.
/// Total: a malformed buffer yields a [`ValueModel::Error`], never gets
/// stuck. A read that runs off the end of the buffer consumes the rest.
pub open spec fn spec_value(data: Seq<u8>, pos: int) -> (ValueModel, nat)
    decreases spec_rest(data, pos), 0int, 0int,
{
    if !(0 <= pos < data.len()) {
        (ValueModel::Error(ERR_TRUNCATED), spec_rest(data, pos))
    } else {
        let t = data[pos];
        if t == 1 {
            let (r, c) = spec_read_bytes(data, pos + 1);
            match r {
                Ok(b) => (ValueModel::Bytes(b), (1 + c) as nat),
                Err(e) => (ValueModel::Error(e), (1 + c) as nat),
            }
        } else if t == 2 {
            let (r, c) = spec_read_u64(data, pos + 1);
            match r {
                Ok(n) => (ValueModel::U64(n), (1 + c) as nat),
                Err(e) => (ValueModel::Error(e), (1 + c) as nat),
            }
        } else if t == 3 {
            let (r, c) = spec_read_u32(data, pos + 1);
            match r {
                Ok(n) => (ValueModel::U32(n), (1 + c) as nat),
                Err(e) => (ValueModel::Error(e), (1 + c) as nat),
            }
        } else if t == 4 {
            let (r, c) = spec_read_string(data, pos + 1);
            match r {
                Ok(s) => (ValueModel::String(s), (1 + c) as nat),
                Err(e) => (ValueModel::Error(e), (1 + c) as nat),
            }
        } else if t == 5 {
            let (lr, c0) = spec_read_u32(data, pos + 1);
            match lr {
                Err(e) => (ValueModel::Error(e), (1 + c0) as nat),
                Ok(cnt) => {
                    let (elems, c1) = spec_values(data, pos + 5, cnt as int);
                    (ValueModel::Array(elems), (5 + c1) as nat)
                },
            }
        } else {
            (ValueModel::Error(ERR_UNKNOWN_TYPE), 1)
        }
    }
}

/// Decoding `n` consecutive values starting at `pos`: their models and the
/// total of bytes consumed.
pub open spec fn spec_values(data: Seq<u8>, pos: int, n: int) -> (Seq<ValueModel>, nat)
    decreases spec_rest(data, pos), 1int, n,
{
    if n <= 0 || pos < 0 {
        (Seq::empty(), 0)
    } else {
        let (v, c) = spec_value(data, pos);
        let (rest, c2) = spec_values(data, pos + c, n - 1);
        (seq![v] + rest, (c + c2) as nat)
    }
}

/// The (field tag, value) pairs read off the buffer from `pos` to its end:
/// a one-byte tag, then one value, until the buffer is exhausted.
pub open spec fn spec_fields(data: Seq<u8>, pos: int) -> Seq<(u8, ValueModel)>
    decreases spec_rest(data, pos),
{
    if !(0 <= pos < data.len()) {
        Seq::empty()
    } else {
        let t = data[pos];
        let (v, c) = spec_value(data, pos + 1);
        seq![(t, v)] + spec_fields(data, pos + 1 + c)
    }
}

/// A forward-only reader over a byte buffer.
#[derive(Copy, Clone)]
pub struct Decoder<'a> {
    pub data: &'a [u8],
    pub pos: usize,
}

impl<'a> Decoder<'a> {
    /// The cursor never points past the end of the buffer.
    pub open spec fn wf(&self) -> bool {
        self.pos <= self.data@.len()
    }

    /// Create a new decoder with the given byte slice as input data.
    pub fn new(data: &'a [u8]) -> (r: Decoder<'a>)
        ensures
            r.data@ == data@,
            r.pos == 0,
            r.wf(),
    {
        Decoder { data, pos: 0 }
    }

    /// Read 4 little-endian bytes, or fail with the raw truncation code.
    fn take_u32(&mut self) -> (r: Result<u32, u8>)
        ensures
            final(self).data@ == old(self).data@,
            old(self).wf() ==> final(self).wf(),
            ({
                let (res, c) = spec_read_u32(old(self).data@, old(self).pos as int);
                &&& final(self).pos == old(self).pos + c
                &&& r == res
            }),
    {
        if self.pos <= self.data.len() && self.data.len() - self.pos >= 4 {
            let b0 = self.data[self.pos] as u32;
            let b1 = self.data[self.pos + 1] as u32;
            let b2 = self.data[self.pos + 2] as u32;
            let b3 = self.data[self.pos + 3] as u32;
            self.pos = self.pos + 4;
            proof {
                assert(b0 | (b1 << 8) | (b2 << 16) | (b3 << 24) == b0 + b1 * 0x100 + b2
                    * 0x1_0000 + b3 * 0x100_0000) by (bit_vector)
                    requires
                        b0 < 0x100,
                        b1 < 0x100,
                        b2 < 0x100,
                        b3 < 0x100,
                ;
            }
            Ok(b0 | (b1 << 8) | (b2 << 16) | (b3 << 24))
        } else {
            if self.pos <= self.data.len() {
                self.pos = self.data.len();
            }
            Err(ERR_TRUNCATED)
        }
    }

    /// Read 8 little-endian bytes, or fail with the raw truncation code.
    fn take_u64(&mut self) -> (r: Result<u64, u8>)
        ensures
            final(self).data@ == old(self).data@,
            old(self).wf() ==> final(self).wf(),
            ({
                let (res, c) = spec_read_u64(old(self).data@, old(self).pos as int);
                &&& final(self).pos == old(self).pos + c
                &&& r == res
            }),
    {
        if self.pos <= self.data.len() && self.data.len() - self.pos >= 8 {
            let b0 = self.data[self.pos] as u64;
            let b1 = self.data[self.pos + 1] as u64;
            let b2 = self.data[self.pos + 2] as u64;
            let b3 = self.data[self.pos + 3] as u64;
            let b4 = self.data[self.pos + 4] as u64;
            let b5 = self.data[self.pos + 5] as u64;
            let b6 = self.data[self.pos + 6] as u64;
            let b7 = self.data[self.pos + 7] as u64;
            self.pos = self.pos + 8;
            proof {
                assert(b0 | (b1 << 8) | (b2 << 16) | (b3 << 24) | (b4 << 32) | (b5 << 40) | (b6
                    << 48) | (b7 << 56) == b0 + b1 * 0x100 + b2 * 0x1_0000 + b3 * 0x100_0000 + b4
                    * 0x1_0000_0000 + b5 * 0x100_0000_0000 + b6 * 0x1_0000_0000_0000 + b7
                    * 0x100_0000_0000_0000) by (bit_vector)
                    requires
                        b0 < 0x100,
                        b1 < 0x100,
                        b2 < 0x100,
                        b3 < 0x100,
                        b4 < 0x100,
                        b5 < 0x100,
                        b6 < 0x100,
                        b7 < 0x100,
                ;
            }
            Ok(
                b0 | (b1 << 8) | (b2 << 16) | (b3 << 24) | (b4 << 32) | (b5 << 40) | (b6 << 48) | (
                b7 << 56),
            )
        } else {
            if self.pos <= self.data.len() {
                self.pos = self.data.len();
            }
            Err(ERR_TRUNCATED)
        }
    }

    /// Read a length-prefixed byte buffer, or fail with the raw code.
    fn take_bytes(&mut self) -> (r: Result<Vec<u8>, u8>)
        ensures
            final(self).data@ == old(self).data@,
            old(self).wf() ==> final(self).wf(),
            ({
                let (res, c) = spec_read_bytes(old(self).data@, old(self).pos as int);
                &&& final(self).pos == old(self).pos + c
                &&& match (r, res) {
                    (Ok(v), Ok(sv)) => v@ == sv,
                    (Err(e), Err(code)) => e == code,
                    _ => false,
                }
            }),
    {
        let ghost p0 = self.pos as int;
        match self.take_u32() {
            Err(e) => Err(e),
            Ok(n) => {
                let len: usize = n as usize;
                if self.pos <= self.data.len() && self.data.len() - self.pos >= len {
                    let end = self.pos + len;
                    let s = vstd::slice::slice_subrange(self.data, self.pos, end);
                    let v = vstd::slice::slice_to_vec(s);
                    self.pos = end;
                    Ok(v)
                } else {
                    if self.pos <= self.data.len() {
                        self.pos = self.data.len();
                    }
                    Err(ERR_TRUNCATED)
                }
            },
        }
    }

    /// Read a length-prefixed UTF-8 string, or fail with the raw code.
    fn take_string(&mut self) -> (r: Result<String, u8>)
        ensures
            final(self).data@ == old(self).data@,
            old(self).wf() ==> final(self).wf(),
            ({
                let (res, c) = spec_read_string(old(self).data@, old(self).pos as int);
                &&& final(self).pos == old(self).pos + c
                &&& match (r, res) {
                    (Ok(v), Ok(sv)) => v@ == sv,
                    (Err(e), Err(code)) => e == code,
                    _ => false,
                }
            }),
    {
        match self.take_bytes() {
            Err(e) => Err(e),
            Ok(b) => match string_from_utf8(b) {
                Some(s) => Ok(s),
                None => Err(ERR_INVALID_UTF8),
            },
        }
    }

    /// Read a little-endian u32 value from the data stream.
    pub fn uint32(&mut self) -> (r: Result<u32, Error>)
        ensures
            final(self).data@ == old(self).data@,
            old(self).wf() ==> final(self).wf(),
            ({
                let (res, c) = spec_read_u32(old(self).data@, old(self).pos as int);
                &&& final(self).pos == old(self).pos + c
                &&& match (r, res) {
                    (Ok(v), Ok(sv)) => v == sv,
                    (Err(e), Err(code)) => e@ == code as u64,
                    _ => false,
                }
            }),
    {
        match self.take_u32() {
            Ok(v) => Ok(v),
            Err(c) => Err(Error::new(c)),
        }
    }

    /// Read a little-endian u64 value from the data stream.
    pub fn uint64(&mut self) -> (r: Result<u64, Error>)
        ensures
            final(self).data@ == old(self).data@,
            old(self).wf() ==> final(self).wf(),
            ({
                let (res, c) = spec_read_u64(old(self).data@, old(self).pos as int);
                &&& final(self).pos == old(self).pos + c
                &&& match (r, res) {
                    (Ok(v), Ok(sv)) => v == sv,
                    (Err(e), Err(code)) => e@ == code as u64,
                    _ => false,
                }
            }),
    {
        match self.take_u64() {
            Ok(v) => Ok(v),
            Err(c) => Err(Error::new(c)),
        }
    }

    /// Read a length-prefixed byte buffer from the data stream.
    pub fn bytes(&mut self) -> (r: Result<Vec<u8>, Error>)
        ensures
            final(self).data@ == old(self).data@,
            old(self).wf() ==> final(self).wf(),
            ({
                let (res, c) = spec_read_bytes(old(self).data@, old(self).pos as int);
                &&& final(self).pos == old(self).pos + c
                &&& match (r, res) {
                    (Ok(v), Ok(sv)) => v@ == sv,
                    (Err(e), Err(code)) => e@ == code as u64,
                    _ => false,
                }
            }),
    {
        match self.take_bytes() {
            Ok(v) => Ok(v),
            Err(c) => Err(Error::new(c)),
        }
    }

    /// Read a length-prefixed UTF-8 string from the data stream.
    pub fn string(&mut self) -> (r: Result<String, Error>)
        ensures
            final(self).data@ == old(self).data@,
            old(self).wf() ==> final(self).wf(),
            ({
                let (res, c) = spec_read_string(old(self).data@, old(self).pos as int);
                &&& final(self).pos == old(self).pos + c
                &&& match (r, res) {
                    (Ok(v), Ok(sv)) => v@ == sv,
                    (Err(e), Err(code)) => e@ == code as u64,
                    _ => false,
                }
            }),
    {
        match self.take_string() {
            Ok(v) => Ok(v),
            Err(c) => Err(Error::new(c)),
        }
    }

    /// Read one complete tagged value from the data stream. Total: a
    /// malformed buffer yields a [`Value::Error`], never a panic.
    #[verifier::loop_isolation(false)]
    pub fn value(&mut self) -> (v: Value)
        ensures
            final(self).data@ == old(self).data@,
            old(self).wf() ==> final(self).wf(),
            ({
                let (m, c) = spec_value(old(self).data@, old(self).pos as int);
                &&& v.model() == m
                &&& final(self).pos == old(self).pos + c
            }),
        decreases spec_rest(self.data@, self.pos as int),
    {
        let ghost entry_pos = self.pos as int;
        if self.pos >= self.data.len() {
            return Value::Error(ERR_TRUNCATED);
        }
        let t = self.data[self.pos];
        self.pos = self.pos + 1;
        if t == 1 {
            match self.take_bytes() {
                Ok(b) => Value::Bytes(b),
                Err(e) => Value::Error(e),
            }
        } else if t == 2 {
            match self.take_u64() {
                Ok(n) => Value::U64(n),
                Err(e) => Value::Error(e),
            }
        } else if t == 3 {
            match self.take_u32() {
                Ok(n) => Value::U32(n),
                Err(e) => Value::Error(e),
            }
        } else if t == 4 {
            match self.take_string() {
                Ok(s) => Value::String(s),
                Err(e) => Value::Error(e),
            }
        } else if t == 5 {
            let ghost data = self.data@;
            match self.take_u32() {
                Err(e) => Value::Error(e),
                Ok(cnt) => {
                    let mut arr: Vec<Value> = Vec::new();
                    let mut i: u32 = 0;
                    while i < cnt
                        invariant
                            self.data@ == data,
                            self.wf(),
                            i <= cnt,
                            entry_pos + 5 <= self.pos <= data.len(),
                            ({
                                let (s1, c1) = spec_values(data, entry_pos + 5, i as int);
                                &&& models(arr@) == s1
                                &&& self.pos == entry_pos + 5 + c1
                            }),
                        decreases cnt - i,
                    {
                        let v = self.value();
                        proof {
                            lemma_spec_values_snoc(data, entry_pos + 5, i as int);
                            lemma_models(arr@);
                            lemma_models(arr@.push(v));
                            assert(models(arr@.push(v)) =~= models(arr@).push(v.model()));
                        }
                        arr.push(v);
                        i = i + 1;
                    }
                    Value::Array(arr)
                },
            }
        } else {
            Value::Error(ERR_UNKNOWN_TYPE)
        }
    }

    /// Read the byte at the current position as a field "tag" value.
    fn tag(&mut self) -> (t: u8)
        requires
            old(self).pos < old(self).data@.len(),
        ensures
            final(self).data@ == old(self).data@,
            final(self).wf(),
            t == old(self).data@[old(self).pos as int],
            final(self).pos == old(self).pos + 1,
    {
        let t = self.data[self.pos];
        self.pos = self.pos + 1;
        t
    }
}

/// Appending an `n + 1`-th value to a run of decoded values reads it where
/// the first `n` end.
pub proof fn lemma_spec_values_snoc(data: Seq<u8>, p: int, n: int)
    requires
        n >= 0,
        p >= 0,
    ensures
        ({
            let (s1, c1) = spec_values(data, p, n);
            let (v, cv) = spec_value(data, p + c1);
            spec_values(data, p, n + 1) == (s1.push(v), (c1 + cv) as nat)
        }),
    decreases n,
{
    let (s1, c1) = spec_values(data, p, n);
    let (v, cv) = spec_value(data, p + c1);
    if n == 0 {
        let (v0, c0) = spec_value(data, p);
        let (rest, c2) = spec_values(data, p + c0, 0);
        assert(spec_values(data, p, 1) == (seq![v0] + rest, (c0 + c2) as nat));
        assert(seq![v0] + rest =~= s1.push(v));
    } else {
        let (v0, c0) = spec_value(data, p);
        lemma_spec_values_snoc(data, p + c0, n - 1);
        let (t1, d1) = spec_values(data, p + c0, n - 1);
        let (w, dw) = spec_value(data, p + c0 + d1);
        assert(spec_values(data, p, n) == (seq![v0] + t1, (c0 + d1) as nat));
        assert(spec_values(data, p + c0, n) == (t1.push(w), (d1 + dw) as nat));
        assert(seq![v0] + t1.push(w) =~= (seq![v0] + t1).push(w));
    }
}

/// An iterator over the (tag, value) fields of a record's buffer: reads a
/// one-byte field tag then one value, until the buffer is exhausted.
pub struct TagValueIter<'a> {
    pub dec: Decoder<'a>,
}

impl<'a> TagValueIter<'a> {
    /// Start iterating over the fields encoded in `data`.
    pub fn new(data: &'a [u8]) -> (r: TagValueIter<'a>)
        ensures
            r.dec.data@ == data@,
            r.dec.pos == 0,
            r.dec.wf(),
    {
        TagValueIter { dec: Decoder::new(data) }
    }

    /// The next (tag, value) field, or `None` at the end of the buffer.
    pub fn next(&mut self) -> (r: Option<(u8, Value)>)
        ensures
            final(self).dec.data@ == old(self).dec.data@,
            old(self).dec.wf() ==> final(self).dec.wf(),
            ({
                let data = old(self).dec.data@;
                let pos = old(self).dec.pos as int;
                match r {
                    None => {
                        &&& spec_fields(data, pos) == Seq::<(u8, ValueModel)>::empty()
                        &&& final(self).dec == old(self).dec
                    },
                    Some((t, v)) => {
                        &&& 0 <= pos < data.len()
                        &&& t == data[pos]
                        &&& ({
                            let (m, c) = spec_value(data, pos + 1);
                            &&& v.model() == m
                            &&& final(self).dec.pos == pos + 1 + c
                        })
                        &&& spec_fields(data, pos) == seq![(t, v.model())] + spec_fields(
                            data,
                            final(self).dec.pos as int,
                        )
                    },
                }
            }),
    {
        if self.dec.pos >= self.dec.data.len() {
            None
        } else {
            let t = self.dec.tag();
            let v = self.dec.value();
            Some((t, v))
        }
    }
}

/// Relies on `alloc::string::String::from_utf8`: it returns a string
/// holding the characters the bytes decode to exactly when the bytes are
/// valid UTF-8, and refuses them otherwise.
#[verifier::external_body]
fn string_from_utf8(v: Vec<u8>) -> (r: Option<String>)
    ensures
        r is Some <==> valid_utf8(v@),
        match r {
            Some(s) => s@ == decode_utf8(v@),
            None => !valid_utf8(v@),
        },
{
    String::from_utf8(v).ok()
}

/// Coercing a value to a u32: only a u32 value is accepted.
pub open spec fn spec_as_u32(v: ValueModel) -> Result<u32, u64> {
    match v {
        ValueModel::U32(n) => Ok(n),
        _ => Err(ERR_UNKNOWN_TYPE as u64),
    }
}

/// Coercing a value to a u64: a u32 is widened, a u64 taken as it is.
pub open spec fn spec_as_u64(v: ValueModel) -> Result<u64, u64> {
    match v {
        ValueModel::U32(n) => Ok(n as u64),
        ValueModel::U64(n) => Ok(n),
        _ => Err(ERR_UNKNOWN_TYPE as u64),
    }
}

/// Coercing a value to an optional u64: as [`spec_as_u64`], with one more
/// context code chained onto a failure.
pub open spec fn spec_as_opt_u64(v: ValueModel) -> Result<Option<u64>, u64> {
    match spec_as_u64(v) {
        Ok(n) => Ok(Some(n)),
        Err(e) => Err(spec_chain(e, 1)),
    }
}

/// Coercing a value to a string: a string's own characters, or a byte
/// buffer reinterpreted as UTF-8 — the intended aliasing between text and
/// opaque binary data. Bytes that are not valid UTF-8 are refused.
pub open spec fn spec_as_string(v: ValueModel) -> Result<Seq<char>, u64> {
    match v {
        ValueModel::String(s) => Ok(s),
        ValueModel::Bytes(b) => if valid_utf8(b) {
            Ok(decode_utf8(b))
        } else {
            Err(ERR_INVALID_UTF8 as u64)
        },
        _ => Err(ERR_UNKNOWN_TYPE as u64),
    }
}

/// Coercing a value to an optional string, as [`spec_as_string`].
pub open spec fn spec_as_opt_string(v: ValueModel) -> Result<Option<Seq<char>>, u64> {
    match spec_as_string(v) {
        Ok(s) => Ok(Some(s)),
        Err(e) => Err(e),
    }
}

/// Coercing a value to a byte buffer: the buffer's own bytes, or a
/// string's exact UTF-8 bytes — the other direction of the aliasing.
pub open spec fn spec_as_bytes(v: ValueModel) -> Result<Seq<u8>, u64> {
    match v {
        ValueModel::String(s) => Ok(encode_utf8(s)),
        ValueModel::Bytes(b) => Ok(b),
        _ => Err(ERR_UNKNOWN_TYPE as u64),
    }
}

/// Coercing a value to an optional byte buffer, as [`spec_as_bytes`].
pub open spec fn spec_as_opt_bytes(v: ValueModel) -> Result<Option<Seq<u8>>, u64> {
    match spec_as_bytes(v) {
        Ok(b) => Ok(Some(b)),
        Err(e) => Err(e),
    }
}

impl Value {
    /// The value as a u32, per [`spec_as_u32`].
    pub fn into_u32(self) -> (r: Result<u32, Error>)
        ensures
            match (r, spec_as_u32(self.model())) {
                (Ok(a), Ok(b)) => a == b,
                (Err(e), Err(c)) => e@ == c,
                _ => false,
            },
    {
        match self {
            Value::U32(n) => Ok(n),
            _ => Err(Error::new(ERR_UNKNOWN_TYPE)),
        }
    }

    /// The value as a u64, per [`spec_as_u64`]: a u32 is accepted wherever
    /// a u64 is requested.
    pub fn into_u64(self) -> (r: Result<u64, Error>)
        ensures
            match (r, spec_as_u64(self.model())) {
                (Ok(a), Ok(b)) => a == b,
                (Err(e), Err(c)) => e@ == c,
                _ => false,
            },
    {
        match self {
            Value::U32(n) => Ok(n as u64),
            Value::U64(n) => Ok(n),
            _ => Err(Error::new(ERR_UNKNOWN_TYPE)),
        }
    }

    /// The value as an optional u64, per [`spec_as_opt_u64`].
    pub fn into_opt_u64(self) -> (r: Result<Option<u64>, Error>)
        ensures
            match (r, spec_as_opt_u64(self.model())) {
                (Ok(a), Ok(b)) => a == b,
                (Err(e), Err(c)) => e@ == c,
                _ => false,
            },
    {
        match self.into_u64() {
            Ok(n) => Ok(Some(n)),
            Err(e) => Err(e.chain(1)),
        }
    }

    /// The value as a string, per [`spec_as_string`]: a byte buffer is
    /// reinterpreted as UTF-8 rather than refused.
    pub fn into_string(self) -> (r: Result<String, Error>)
        ensures
            match (r, spec_as_string(self.model())) {
                (Ok(a), Ok(b)) => a@ == b,
                (Err(e), Err(c)) => e@ == c,
                _ => false,
            },
    {
        match self {
            Value::String(s) => Ok(s),
            Value::Bytes(b) => match string_from_utf8(b) {
                Some(s) => Ok(s),
                None => Err(Error::new(ERR_INVALID_UTF8)),
            },
            _ => Err(Error::new(ERR_UNKNOWN_TYPE)),
        }
    }

    /// The value as an optional string, per [`spec_as_opt_string`].
    pub fn into_opt_string(self) -> (r: Result<Option<String>, Error>)
        ensures
            match (r, spec_as_opt_string(self.model())) {
                (Ok(Some(a)), Ok(Some(b))) => a@ == b,
                (Ok(None), Ok(None)) => true,
                (Err(e), Err(c)) => e@ == c,
                _ => false,
            },
    {
        match self.into_string() {
            Ok(s) => Ok(Some(s)),
            Err(e) => Err(e),
        }
    }

    /// The value as a byte buffer, per [`spec_as_bytes`]: a string yields
    /// its exact UTF-8 bytes rather than being refused.
    pub fn into_bytes(self) -> (r: Result<Vec<u8>, Error>)
        ensures
            match (r, spec_as_bytes(self.model())) {
                (Ok(a), Ok(b)) => a@ == b,
                (Err(e), Err(c)) => e@ == c,
                _ => false,
            },
    {
        match self {
            Value::String(s) => Ok(s.as_str().as_bytes_vec()),
            Value::Bytes(b) => Ok(b),
            _ => Err(Error::new(ERR_UNKNOWN_TYPE)),
        }
    }

    /// The value as an optional byte buffer, per [`spec_as_opt_bytes`].
    pub fn into_opt_bytes(self) -> (r: Result<Option<Vec<u8>>, Error>)
        ensures
            match (r, spec_as_opt_bytes(self.model())) {
                (Ok(Some(a)), Ok(Some(b))) => a@ == b,
                (Ok(None), Ok(None)) => true,
                (Err(e), Err(c)) => e@ == c,
                _ => false,
            },
    {
        match self.into_bytes() {
            Ok(b) => Ok(Some(b)),
            Err(e) => Err(e),
        }
    }
}

/// Coercing a byte-buffer value to a string request and the result back
/// to bytes yields the original bytes, whenever they are valid UTF-8.
pub proof fn lemma_bytes_string_roundtrip(b: Seq<u8>)
    requires
        valid_utf8(b),
    ensures
        spec_as_string(ValueModel::Bytes(b)) == Ok::<Seq<char>, u64>(decode_utf8(b)),
        spec_as_bytes(ValueModel::String(decode_utf8(b))) == Ok::<Seq<u8>, u64>(b),
{
    vstd::utf8::decode_utf8_encode_utf8(b);
}

/// Coercing a string value to a byte-buffer request yields its exact
/// UTF-8 bytes, and coercing those bytes back to a string gives the
/// original characters.
pub proof fn lemma_string_bytes_roundtrip(s: Seq<char>)
    ensures
        spec_as_bytes(ValueModel::String(s)) == Ok::<Seq<u8>, u64>(encode_utf8(s)),
        spec_as_string(ValueModel::Bytes(encode_utf8(s))) == Ok::<Seq<char>, u64>(s),
{
    vstd::utf8::encode_utf8_valid_utf8(s);
    vstd::utf8::encode_utf8_decode_utf8(s);
}

/// Folding a record out of its (tag, value) fields: each field is handed
/// to `step` in order; a failing step stops the fold with its error.
pub open spec fn fold_fields<A>(
    fields: Seq<(u8, ValueModel)>,
    acc: A,
    step: spec_fn(A, u8, ValueModel) -> Result<A, u64>,
) -> Result<A, u64>
    decreases fields.len(),
{
    if fields.len() == 0 {
        Ok(acc)
    } else {
        match step(acc, fields[0].0, fields[0].1) {
            Ok(a) => fold_fields(fields.drop_first(), a, step),
            Err(e) => Err(e),
        }
    }
}

/// One step of [`fold_fields`], for a field sequence given as a head
/// element and the rest.
pub proof fn lemma_fold_fields_unfold<A>(
    x: (u8, ValueModel),
    rest: Seq<(u8, ValueModel)>,
    acc: A,
    step: spec_fn(A, u8, ValueModel) -> Result<A, u64>,
)
    ensures
        fold_fields(seq![x] + rest, acc, step) == match step(acc, x.0, x.1) {
            Ok(a) => fold_fields(rest, a, step),
            Err(e) => Err(e),
        },
{
    assert((seq![x] + rest)[0] == x);
    assert((seq![x] + rest).drop_first() =~= rest);
}

/// The fields whose tag the record recognises, in order.
pub open spec fn known_fields(
    fields: Seq<(u8, ValueModel)>,
    known: spec_fn(u8) -> bool,
) -> Seq<(u8, ValueModel)>
    decreases fields.len(),
{
    if fields.len() == 0 {
        Seq::empty()
    } else if known(fields[0].0) {
        seq![fields[0]] + known_fields(fields.drop_first(), known)
    } else {
        known_fields(fields.drop_first(), known)
    }
}

/// Forward compatibility of record decoding: when the step function
/// leaves the record unchanged on every tag it does not recognise, the
/// fold's result depends only on the recognised fields — unknown fields
/// may be interleaved in any position without changing the outcome.
pub proof fn lemma_fold_fields_skips_unknown<A>(
    fields: Seq<(u8, ValueModel)>,
    acc: A,
    step: spec_fn(A, u8, ValueModel) -> Result<A, u64>,
    known: spec_fn(u8) -> bool,
)
    requires
        forall|a: A, t: u8, v: ValueModel| !known(t) ==> #[trigger] step(a, t, v) == Ok::<
            A,
            u64,
        >(a),
    ensures
        fold_fields(fields, acc, step) == fold_fields(known_fields(fields, known), acc, step),
    decreases fields.len(),
{
    if fields.len() != 0 {
        let (t, v) = fields[0];
        if known(t) {
            match step(acc, t, v) {
                Ok(a) => {
                    lemma_fold_fields_skips_unknown(fields.drop_first(), a, step, known);
                    assert((seq![fields[0]] + known_fields(fields.drop_first(), known))
                        .drop_first() =~= known_fields(fields.drop_first(), known));
                },
                Err(_) => {
                    assert((seq![fields[0]] + known_fields(fields.drop_first(), known))[0]
                        == fields[0]);
                },
            }
        } else {
            lemma_fold_fields_skips_unknown(fields.drop_first(), acc, step, known);
        }
    }
}

/// Decoding one value never consumes more than the bytes that remain:
/// together with the contract of [`Decoder::value`], one read returns
/// exactly one value and stops at that value's boundary.
pub proof fn lemma_spec_value_consumed(data: Seq<u8>, pos: int)
    ensures
        spec_value(data, pos).1 <= spec_rest(data, pos),
    decreases spec_rest(data, pos), 0int, 0int,
{
    if 0 <= pos < data.len() {
        let t = data[pos];
        if t == 5 {
            let (lr, c0) = spec_read_u32(data, pos + 1);
            if let Ok(cnt) = lr {
                lemma_spec_values_consumed(data, pos + 5, cnt as int);
            }
        }
    }
}

/// Companion of [`lemma_spec_value_consumed`] for a run of values.
pub proof fn lemma_spec_values_consumed(data: Seq<u8>, pos: int, n: int)
    ensures
        spec_values(data, pos, n).1 <= spec_rest(data, pos),
    decreases spec_rest(data, pos), 1int, n,
{
    if n > 0 && pos >= 0 {
        let (v, c) = spec_value(data, pos);
        lemma_spec_value_consumed(data, pos);
        lemma_spec_values_consumed(data, pos + c, n - 1);
    }
}

} // verus!

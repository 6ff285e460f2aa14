//! Typed parameter values and their wire form.
//!
//! A value crosses the sandbox boundary as a record of seventeen bytes: one tag
//! byte, then a sixteen byte little-endian payload. A parameter buffer is the
//! concatenation of such records.

use vstd::bytes::*;
use vstd::prelude::*;
use vstd::slice::slice_subrange;

verus! {

/// Length in bytes of one encoded value.
pub const RECORD_LEN: usize = 17;

/// Tag byte of a 32-bit integer.
pub const TAG_I32: u8 = 0x7F;

/// Tag byte of a 64-bit integer.
pub const TAG_I64: u8 = 0x7E;

/// Tag byte of a 128-bit vector.
pub const TAG_V128: u8 = 0x7B;

/// A typed scalar that can be handed to the entry function of a process.
#[derive(Clone, Copy, Debug, PartialEq, Eq, Structural)]
pub enum Val {
    I32(i32),
    I64(i64),
    V128(u128),
}

/// Why a parameter buffer could not be decoded.
#[derive(Clone, Copy, Debug, PartialEq, Eq, Structural)]
pub enum DecodeError {
    /// A record starts with a byte that is no known tag.
    UnsupportedType,
}

/// Whether `tag` selects one of the three value types.
pub open spec fn tag_known(tag: u8) -> bool {
    tag == TAG_I32 || tag == TAG_I64 || tag == TAG_V128
}

impl Val {
    /// The tag byte that announces this value on the wire.
    pub open spec fn spec_tag(self) -> u8 {
        match self {
            Val::I32(_) => TAG_I32,
            Val::I64(_) => TAG_I64,
            Val::V128(_) => TAG_V128,
        }
    }

    /// The payload as a 128-bit number: the value's own bits in the low
    /// positions, zeros above them.
    pub open spec fn spec_payload(self) -> u128 {
        match self {
            Val::I32(x) => (x as u32) as u128,
            Val::I64(x) => (x as u64) as u128,
            Val::V128(x) => x,
        }
    }

    /// The value that a known tag and a payload stand for: the payload cut
    /// down to the width of the tag's type.
    pub open spec fn spec_from_parts(tag: u8, payload: u128) -> Val
        recommends
            tag_known(tag),
    {
        if tag == TAG_I32 {
            Val::I32(payload as i32)
        } else if tag == TAG_I64 {
            Val::I64(payload as i64)
        } else {
            Val::V128(payload)
        }
    }

    /// The tag byte of this value.
    pub fn tag(&self) -> (t: u8)
        ensures
            t == self.spec_tag(),
            tag_known(t),
    {
        match self {
            Val::I32(_) => TAG_I32,
            Val::I64(_) => TAG_I64,
            Val::V128(_) => TAG_V128,
        }
    }

    /// The payload of this value, zero-extended to 128 bits.
    pub fn payload(&self) -> (p: u128)
        ensures
            p == self.spec_payload(),
    {
        match self {
            Val::I32(x) => (*x as u32) as u128,
            Val::I64(x) => (*x as u64) as u128,
            Val::V128(x) => *x,
        }
    }
}

/// The seventeen bytes that encode one value.
pub open spec fn spec_encode_one(v: Val) -> Seq<u8> {
    seq![v.spec_tag()] + spec_u128_to_le_bytes(v.spec_payload())
}

/// The wire form of a sequence of values: their records, one after another.
pub open spec fn spec_encode(vals: Seq<Val>) -> Seq<u8> {
    Seq::new(17 * vals.len(), |k: int| spec_encode_one(vals[k / 17])[k % 17])
}

/// The `i`-th whole record of a buffer.
pub open spec fn record_at(bytes: Seq<u8>, i: int) -> Seq<u8> {
    bytes.subrange(17 * i, 17 * i + 17)
}

/// The value that a record with a known tag stands for.
pub open spec fn spec_decode_one(record: Seq<u8>) -> Val
    recommends
        record.len() == 17,
{
    Val::spec_from_parts(record[0], spec_u128_from_le_bytes(record.subrange(1, 17)))
}

/// What one record decodes to.
pub open spec fn spec_decode_record(record: Seq<u8>) -> Result<Val, DecodeError>
    recommends
        record.len() == 17,
{
    if tag_known(record[0]) {
        Ok(spec_decode_one(record))
    } else {
        Err(DecodeError::UnsupportedType)
    }
}

/// What a parameter buffer decodes to. Only whole records count: bytes that
/// follow the last whole record are ignored. The buffer is rejected exactly
/// when one of its whole records starts with an unknown tag.
pub open spec fn spec_decode(bytes: Seq<u8>) -> Result<Seq<Val>, DecodeError> {
    let n = bytes.len() as int / 17;
    if forall|i: int| 0 <= i < n ==> tag_known(#[trigger] record_at(bytes, i)[0]) {
        Ok(Seq::new(n as nat, |i: int| spec_decode_one(record_at(bytes, i))))
    } else {
        Err(DecodeError::UnsupportedType)
    }
}

/// Decodes one record of seventeen bytes.
pub fn decode_record(record: &[u8]) -> (r: Result<Val, DecodeError>)
    requires
        record@.len() == 17,
    ensures
        r == spec_decode_record(record@),
{
    let tag: u8 = record[0];
    let payload: u128 = u128_from_le_bytes(slice_subrange(record, 1, 17));
    if tag == TAG_I32 {
        Ok(Val::I32(payload as i32))
    } else if tag == TAG_I64 {
        Ok(Val::I64(payload as i64))
    } else if tag == TAG_V128 {
        Ok(Val::V128(payload))
    } else {
        Err(DecodeError::UnsupportedType)
    }
}

/// Decodes a parameter buffer into the values it holds, in order.
pub fn decode_params(bytes: &[u8]) -> (r: Result<Vec<Val>, DecodeError>)
    ensures
        r matches Ok(vals) ==> spec_decode(bytes@) == Ok::<Seq<Val>, DecodeError>(vals@),
        r matches Err(e) ==> spec_decode(bytes@) == Err::<Seq<Val>, DecodeError>(e),
{
    let n: usize = bytes.len() / RECORD_LEN;
    let mut vals: Vec<Val> = Vec::new();
    let mut i: usize = 0;
    while i < n
        invariant
            n == bytes@.len() / 17,
            17 * n <= bytes@.len() <= usize::MAX,
            i <= n,
            vals@.len() == i,
            forall|k: int| 0 <= k < i ==> tag_known(#[trigger] record_at(bytes@, k)[0]),
            forall|k: int| 0 <= k < i ==> vals@[k] == spec_decode_one(#[trigger] record_at(bytes@, k)),
        decreases n - i,
    {
        let start: usize = i * 17;
        let record = slice_subrange(bytes, start, start + RECORD_LEN);
        assert(record@ == record_at(bytes@, i as int));
        match decode_record(record) {
            Ok(v) => {
                vals.push(v);
            },
            Err(e) => {
                return Err(e);
            },
        }
        i = i + 1;
    }
    assert(vals@ =~= Seq::new(n as nat, |k: int| spec_decode_one(record_at(bytes@, k))));
    Ok(vals)
}

/// Appends the record of one value to `out`.
pub fn encode_val(v: &Val, out: &mut Vec<u8>)
    ensures
        final(out)@ == old(out)@ + spec_encode_one(*v),
{
    out.push(v.tag());
    let mut payload: Vec<u8> = u128_to_le_bytes(v.payload());
    out.append(&mut payload);
}

/// Encodes values into a parameter buffer.
pub fn encode_params(vals: &[Val]) -> (bytes: Vec<u8>)
    ensures
        bytes@ == spec_encode(vals@),
{
    let mut bytes: Vec<u8> = Vec::new();
    let mut i: usize = 0;
    while i < vals.len()
        invariant
            i <= vals@.len(),
            bytes@ == spec_encode(vals@.take(i as int)),
        decreases vals@.len() - i,
    {
        let ghost before = bytes@;
        encode_val(&vals[i], &mut bytes);
        proof {
            lemma_encode_one_len(vals@[i as int]);
            let prefix = vals@.take(i as int);
            let longer = vals@.take(i + 1);
            assert forall|k: int| 0 <= k < 17 * (i + 1) implies (before + spec_encode_one(
                vals@[i as int],
            ))[k] == spec_encode(longer)[k] by {
                if k < 17 * i {
                    assert(prefix[k / 17] == longer[k / 17]);
                } else {
                    assert(k / 17 == i);
                    assert(k % 17 == k - 17 * i);
                }
            }
            assert(bytes@ =~= spec_encode(longer));
        }
        i = i + 1;
    }
    assert(vals@.take(i as int) =~= vals@);
    bytes
}

/// A record is seventeen bytes long and starts with the tag.
pub proof fn lemma_encode_one_len(v: Val)
    ensures
        spec_encode_one(v).len() == 17,
        spec_encode_one(v)[0] == v.spec_tag(),
        spec_encode_one(v).subrange(1, 17) == spec_u128_to_le_bytes(v.spec_payload()),
{
    lemma_auto_spec_u128_to_from_le_bytes();
    assert(spec_encode_one(v).subrange(1, 17) =~= spec_u128_to_le_bytes(v.spec_payload()));
}

/// Cutting a zero-extended payload back to its width gives the value again.
pub proof fn lemma_from_parts_of_payload(v: Val)
    ensures
        Val::spec_from_parts(v.spec_tag(), v.spec_payload()) == v,
{
    match v {
        Val::I32(x) => {
            assert(((x as u32) as u128) as i32 == x) by (bit_vector);
        },
        Val::I64(x) => {
            assert(((x as u64) as u128) as i64 == x) by (bit_vector);
        },
        Val::V128(_) => {},
    }
}

/// Decoding the record of a value gives that value.
pub proof fn lemma_decode_encode_one(v: Val)
    ensures
        spec_decode_record(spec_encode_one(v)) == Ok::<Val, DecodeError>(v),
{
    lemma_encode_one_len(v);
    lemma_auto_spec_u128_to_from_le_bytes();
    lemma_from_parts_of_payload(v);
}

/// The records of an encoded sequence are the records of its values.
pub proof fn lemma_encode_records(vals: Seq<Val>, i: int)
    requires
        0 <= i < vals.len(),
    ensures
        spec_encode(vals).len() == 17 * vals.len(),
        record_at(spec_encode(vals), i) == spec_encode_one(vals[i]),
{
    lemma_encode_one_len(vals[i]);
    let r = record_at(spec_encode(vals), i);
    assert forall|j: int| 0 <= j < 17 implies r[j] == spec_encode_one(vals[i])[j] by {
        let k = 17 * i + j;
        assert(k / 17 == i);
        assert(k % 17 == j);
    }
    assert(r =~= spec_encode_one(vals[i]));
}

/// Every sequence of values survives the way to the wire and back.
pub proof fn lemma_decode_encode(vals: Seq<Val>)
    ensures
        spec_decode(spec_encode(vals)) == Ok::<Seq<Val>, DecodeError>(vals),
{
    let bytes = spec_encode(vals);
    let n = bytes.len() as int / 17;
    assert(n == vals.len());
    assert forall|i: int| 0 <= i < n implies tag_known(#[trigger] record_at(bytes, i)[0])
        && spec_decode_one(record_at(bytes, i)) == vals[i] by {
        lemma_encode_records(vals, i);
        lemma_decode_encode_one(vals[i]);
    }
    assert(Seq::new(n as nat, |i: int| spec_decode_one(record_at(bytes, i))) =~= vals);
}

/// Bytes after the last whole record change nothing: a buffer of whole
/// records decodes to the same with less than one record's bytes behind it.
pub proof fn lemma_trailing_bytes_ignored(bytes: Seq<u8>, tail: Seq<u8>)
    requires
        bytes.len() % 17 == 0,
        tail.len() < 17,
    ensures
        spec_decode(bytes + tail) == spec_decode(bytes),
{
    let longer = bytes + tail;
    let n = bytes.len() as int / 17;
    assert(longer.len() as int / 17 == n);
    let accepted = forall|i: int| 0 <= i < n ==> tag_known(#[trigger] record_at(bytes, i)[0]);
    if accepted {
        assert forall|i: int| 0 <= i < n implies tag_known(#[trigger] record_at(longer, i)[0])
            && spec_decode_one(record_at(longer, i)) == spec_decode_one(record_at(bytes, i)) by {
            assert(record_at(longer, i) =~= record_at(bytes, i));
            assert(tag_known(record_at(bytes, i)[0]));
        }
        assert(Seq::new(n as nat, |i: int| spec_decode_one(record_at(longer, i))) =~= Seq::new(
            n as nat,
            |i: int| spec_decode_one(record_at(bytes, i)),
        ));
    } else {
        let i = choose|i: int| 0 <= i < n && !tag_known(#[trigger] record_at(bytes, i)[0]);
        assert(record_at(longer, i) =~= record_at(bytes, i));
        assert(!tag_known(record_at(longer, i)[0]));
    }
}

/// A buffer with an unknown tag at the start of a whole record is rejected,
/// whatever else it holds.
pub proof fn lemma_unknown_tag_rejected(bytes: Seq<u8>, i: int)
    requires
        0 <= i < bytes.len() as int / 17,
        !tag_known(bytes[17 * i]),
    ensures
        spec_decode(bytes) == Err::<Seq<Val>, DecodeError>(DecodeError::UnsupportedType),
{
    assert(record_at(bytes, i)[0] == bytes[17 * i]);
}

} // verus!

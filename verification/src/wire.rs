//! Protocol-buffer wire primitives: varints, field keys, length-delimited
//! fields, and the big-endian length prefix of the binary log framing.
use vstd::prelude::*;
use byteorder::WriteBytesExt;

verus! {

/// Wire type of varint-encoded fields.
pub const WIRE_VARINT: u32 = 0;

/// Wire type of length-delimited fields.
pub const WIRE_LEN: u32 = 2;

/// The largest field number the protocol-buffer format allows.
pub const MAX_FIELD: u32 = 536870911;

/// Base-128 varint of `v`: seven bits per byte, low bits first, the high bit
/// set on every byte but the last.
pub open spec fn varint(v: u64) -> Seq<u8>
    decreases v,
{
    if v < 128 {
        seq![v as u8]
    } else {
        seq![(v % 128 + 128) as u8] + varint(v / 128)
    }
}

/// The key that introduces field `field` with wire type `wire`.
pub open spec fn key(field: u32, wire: u32) -> Seq<u8> {
    varint((field * 8 + wire) as u64)
}

/// A length-delimited field: key, varint length, then the bytes.
pub open spec fn len_delimited(field: u32, bytes: Seq<u8>) -> Seq<u8> {
    key(field, WIRE_LEN) + varint(bytes.len() as u64) + bytes
}

/// A proto3 scalar varint field: absent when the value is zero.
pub open spec fn uint_field(field: u32, v: u64) -> Seq<u8> {
    if v == 0 {
        Seq::empty()
    } else {
        key(field, WIRE_VARINT) + varint(v)
    }
}

/// A proto3 `bytes` or `string` field: absent when empty.
pub open spec fn bytes_field(field: u32, bytes: Seq<u8>) -> Seq<u8> {
    if bytes.len() == 0 {
        Seq::empty()
    } else {
        len_delimited(field, bytes)
    }
}

/// A proto3 `bool` field: absent when false.
pub open spec fn bool_field(field: u32, b: bool) -> Seq<u8> {
    if b {
        key(field, WIRE_VARINT) + varint(1)
    } else {
        Seq::empty()
    }
}

/// A proto3 `int32`/enum field: negative values are sign-extended to 64 bits.
pub open spec fn int32_field(field: u32, v: i32) -> Seq<u8> {
    uint_field(field, v as u64)
}

/// A proto3 `int64` field.
pub open spec fn int64_field(field: u32, v: i64) -> Seq<u8> {
    uint_field(field, v as u64)
}

/// The four bytes of `v`, most significant first.
pub open spec fn be_u32(v: u32) -> Seq<u8> {
    seq![
        (v / 16777216) as u8,
        ((v / 65536) % 256) as u8,
        ((v / 256) % 256) as u8,
        (v % 256) as u8,
    ]
}

/// The number that four bytes stand for, most significant first.
pub open spec fn be_u32_value(b: Seq<u8>) -> int {
    b[0] * 16777216 + b[1] * 65536 + b[2] * 256 + b[3]
}

/// Appends the varint of `value` to `out`, through `prost::encoding::encode_varint`,
/// which emits `value & 0x7f | 0x80` and shifts right by seven until the value is
/// below 0x80, then emits that last byte.
#[verifier::external_body]
fn put_varint(value: u64, out: &mut Vec<u8>)
    ensures
        final(out)@ == old(out)@ + varint(value),
{
    prost::encoding::encode_varint(value, out);
}

/// Appends the four big-endian bytes of `value` to `out`, through byteorder's
/// `WriteBytesExt::write_u32::<BigEndian>`; writing into a `Vec` appends and never fails.
#[verifier::external_body]
fn put_u32_be(value: u32, out: &mut Vec<u8>)
    ensures
        final(out)@ == old(out)@ + be_u32(value),
{
    let _ = out.write_u32::<byteorder::BigEndian>(value);
}

/// Appends the key of field `field` with wire type `wire`.
pub fn put_key(field: u32, wire: u32, out: &mut Vec<u8>)
    requires
        field <= MAX_FIELD,
        wire < 8,
    ensures
        final(out)@ == old(out)@ + key(field, wire),
{
    let k: u64 = (field as u64) * 8 + (wire as u64);
    put_varint(k, out);
}

/// Appends `bytes` to `out`.
pub fn put_bytes(bytes: &[u8], out: &mut Vec<u8>)
    ensures
        final(out)@ == old(out)@ + bytes@,
{
    let mut i: usize = 0;
    while i < bytes.len()
        invariant
            i <= bytes@.len(),
            out@ == old(out)@ + bytes@.subrange(0, i as int),
        decreases bytes@.len() - i,
    {
        out.push(bytes[i]);
        i = i + 1;
        assert(bytes@.subrange(0, i as int) =~= bytes@.subrange(0, i - 1).push(bytes@[i - 1]));
    }
    assert(bytes@.subrange(0, i as int) =~= bytes@);
}

/// Appends a length-delimited field holding `bytes`, present even when empty
/// (the form of embedded messages).
pub fn put_len_delimited(field: u32, bytes: &[u8], out: &mut Vec<u8>)
    requires
        field <= MAX_FIELD,
    ensures
        final(out)@ == old(out)@ + len_delimited(field, bytes@),
{
    put_key(field, WIRE_LEN, out);
    put_varint(bytes.len() as u64, out);
    put_bytes(bytes, out);
    assert(out@ =~= old(out)@ + len_delimited(field, bytes@));
}

/// Appends a proto3 scalar varint field.
pub fn put_uint_field(field: u32, v: u64, out: &mut Vec<u8>)
    requires
        field <= MAX_FIELD,
    ensures
        final(out)@ == old(out)@ + uint_field(field, v),
{
    if v != 0 {
        put_key(field, WIRE_VARINT, out);
        put_varint(v, out);
        assert(out@ =~= old(out)@ + uint_field(field, v));
    } else {
        assert(out@ =~= old(out)@ + uint_field(field, v));
    }
}

/// Appends a proto3 `int32` (or enum) field.
pub fn put_int32_field(field: u32, v: i32, out: &mut Vec<u8>)
    requires
        field <= MAX_FIELD,
    ensures
        final(out)@ == old(out)@ + int32_field(field, v),
{
    put_uint_field(field, v as u64, out);
}

/// Appends a proto3 `int64` field.
pub fn put_int64_field(field: u32, v: i64, out: &mut Vec<u8>)
    requires
        field <= MAX_FIELD,
    ensures
        final(out)@ == old(out)@ + int64_field(field, v),
{
    put_uint_field(field, v as u64, out);
}

/// Appends a proto3 `bool` field.
pub fn put_bool_field(field: u32, b: bool, out: &mut Vec<u8>)
    requires
        field <= MAX_FIELD,
    ensures
        final(out)@ == old(out)@ + bool_field(field, b),
{
    if b {
        put_key(field, WIRE_VARINT, out);
        put_varint(1, out);
        assert(out@ =~= old(out)@ + bool_field(field, b));
    } else {
        assert(out@ =~= old(out)@ + bool_field(field, b));
    }
}

/// Appends a proto3 `bytes` or `string` field.
pub fn put_bytes_field(field: u32, bytes: &[u8], out: &mut Vec<u8>)
    requires
        field <= MAX_FIELD,
    ensures
        final(out)@ == old(out)@ + bytes_field(field, bytes@),
{
    if bytes.len() != 0 {
        put_len_delimited(field, bytes, out);
    } else {
        assert(out@ =~= old(out)@ + bytes_field(field, bytes@));
    }
}

/// Prefixes `message` with its length as four big-endian bytes, the framing of
/// binary log files. A length of 2^32 bytes or more keeps only its low 32 bits.
pub fn frame(message: &[u8]) -> (framed: Vec<u8>)
    ensures
        framed@ == be_u32(message@.len() as u32) + message@,
{
    let mut framed: Vec<u8> = Vec::new();
    put_u32_be(message.len() as u32, &mut framed);
    put_bytes(message, &mut framed);
    assert(framed@ =~= be_u32(message@.len() as u32) + message@);
    framed
}

} // verus!

//! Borsh wire format of the primitive fields that make up stream accounts.
use borsh::BorshDeserialize;
use vstd::prelude::*;

verus! {

/// Unsigned value of a little-endian byte sequence.
pub open spec fn le_value(b: Seq<u8>) -> nat
    decreases b.len(),
{
    if b.len() == 0 {
        0
    } else {
        b[0] as nat + 256 * le_value(b.drop_first())
    }
}

/// `256^n`.
pub open spec fn pow256(n: nat) -> nat
    decreases n,
{
    if n == 0 {
        1
    } else {
        256 * pow256((n - 1) as nat)
    }
}

/// The `n`-byte little-endian form of `v` (its value modulo `256^n`).
pub open spec fn le_bytes(v: nat, n: nat) -> Seq<u8>
    decreases n,
{
    if n == 0 {
        Seq::empty()
    } else {
        seq![(v % 256) as u8] + le_bytes(v / 256, (n - 1) as nat)
    }
}

/// The borsh byte of a `bool`.
pub open spec fn bool_byte(b: bool) -> u8 {
    if b {
        1
    } else {
        0
    }
}

/// Reading back the little-endian form of a value that fits in `n` bytes
/// gives the value.
pub proof fn lemma_le_roundtrip(v: nat, n: nat)
    requires
        v < pow256(n),
    ensures
        le_bytes(v, n).len() == n,
        le_value(le_bytes(v, n)) == v,
    decreases n,
{
    if n > 0 {
        let m = (n - 1) as nat;
        let q = v / 256;
        let r = v % 256;
        assert(q < pow256(m) && v == r + 256 * q) by (nonlinear_arith)
            requires
                v < 256 * pow256(m),
                q == v / 256,
                r == v % 256,
        ;
        lemma_le_roundtrip(q, m);
        let s = le_bytes(v, n);
        assert(s.drop_first() =~= le_bytes(q, m));
    }
}

/// An unsigned 64-bit value read back from its 8 little-endian bytes.
pub proof fn lemma_u64_roundtrip(v: u64)
    ensures
        le_bytes(v as nat, 8).len() == 8,
        le_value(le_bytes(v as nat, 8)) == v,
{
    assert(pow256(8) == 0x1_0000_0000_0000_0000) by {
        reveal_with_fuel(pow256, 9);
    }
    lemma_le_roundtrip(v as nat, 8);
}

/// An unsigned 32-bit value read back from its 4 little-endian bytes.
pub proof fn lemma_u32_roundtrip(v: u32)
    ensures
        le_bytes(v as nat, 4).len() == 4,
        le_value(le_bytes(v as nat, 4)) == v,
{
    assert(pow256(4) == 0x1_0000_0000) by {
        reveal_with_fuel(pow256, 5);
    }
    lemma_le_roundtrip(v as nat, 4);
}

/// The `n` bytes of `b` that start at offset `off`.
pub open spec fn bytes_at(b: Seq<u8>, off: int, n: int) -> Seq<u8> {
    b.subrange(off, off + n)
}

/// Little-endian `u64` stored at offset `off`.
pub open spec fn u64_at(b: Seq<u8>, off: int) -> nat {
    le_value(bytes_at(b, off, 8))
}

/// Little-endian `u32` stored at offset `off`.
pub open spec fn u32_at(b: Seq<u8>, off: int) -> nat {
    le_value(bytes_at(b, off, 4))
}

/// Whether the IEEE-754 single-precision number with these bits is a NaN:
/// all exponent bits set and a non-zero fraction.
pub open spec fn is_nan_bits(bits: u32) -> bool {
    (bits & 0x7f80_0000u32) == 0x7f80_0000u32 && (bits & 0x007f_ffffu32) != 0
}

/// Whether the byte at `off` is a valid borsh `bool` (0 or 1).
pub open spec fn bool_ok_at(b: Seq<u8>, off: int) -> bool {
    b[off] <= 1
}

/// The `bool` encoded by the byte at `off`.
pub open spec fn bool_at(b: Seq<u8>, off: int) -> bool {
    b[off] == 1
}

/// Whether the IEEE-754 bits of a single-precision number are a NaN.
pub fn nan_bits(bits: u32) -> (r: bool)
    ensures
        r == is_nan_bits(bits),
{
    (bits & 0x7f80_0000u32) == 0x7f80_0000u32 && (bits & 0x007f_ffffu32) != 0
}

/// Reads a `u8` at `pos` with borsh's deserializer for `u8`.
/// It fails exactly when no byte remains; otherwise it returns that byte.
#[verifier::external_body]
pub(crate) fn read_u8(data: &[u8], pos: usize) -> (r: Option<u8>)
    requires
        pos <= data@.len(),
    ensures
        r is Some <==> pos < data@.len(),
        r matches Some(v) ==> v == data@[pos as int],
{
    match u8::deserialize(&mut &data[pos..]) {
        Ok(v) => Some(v),
        Err(_) => None,
    }
}

/// Reads a `bool` at `pos` with borsh's deserializer for `bool`.
/// It fails when no byte remains or the byte is neither 0 nor 1; otherwise
/// it returns whether the byte is 1.
#[verifier::external_body]
pub(crate) fn read_bool(data: &[u8], pos: usize) -> (r: Option<bool>)
    requires
        pos <= data@.len(),
    ensures
        r is Some <==> (data@.len() > pos && bool_ok_at(data@, pos as int)),
        r matches Some(v) ==> v == bool_at(data@, pos as int),
{
    match bool::deserialize(&mut &data[pos..]) {
        Ok(v) => Some(v),
        Err(_) => None,
    }
}

/// Reads a `u32` at `pos` with borsh's deserializer for `u32`.
/// It fails exactly when fewer than 4 bytes remain; otherwise it returns the
/// little-endian value of the next 4 bytes.
#[verifier::external_body]
pub(crate) fn read_u32(data: &[u8], pos: usize) -> (r: Option<u32>)
    requires
        pos <= data@.len(),
    ensures
        r is Some <==> pos + 4 <= data@.len(),
        r matches Some(v) ==> v as nat == u32_at(data@, pos as int),
{
    match u32::deserialize(&mut &data[pos..]) {
        Ok(v) => Some(v),
        Err(_) => None,
    }
}

/// Reads a `u64` at `pos` with borsh's deserializer for `u64`.
/// It fails exactly when fewer than 8 bytes remain; otherwise it returns the
/// little-endian value of the next 8 bytes.
#[verifier::external_body]
pub(crate) fn read_u64(data: &[u8], pos: usize) -> (r: Option<u64>)
    requires
        pos <= data@.len(),
    ensures
        r is Some <==> pos + 8 <= data@.len(),
        r matches Some(v) ==> v as nat == u64_at(data@, pos as int),
{
    match u64::deserialize(&mut &data[pos..]) {
        Ok(v) => Some(v),
        Err(_) => None,
    }
}

/// Reads a 32-byte array (the borsh form of a public key) at `pos` with
/// borsh's deserializer for `[u8; 32]`. It fails exactly when fewer than 32
/// bytes remain; otherwise it returns the next 32 bytes.
#[verifier::external_body]
pub(crate) fn read_key(data: &[u8], pos: usize) -> (r: Option<[u8; 32]>)
    requires
        pos <= data@.len(),
    ensures
        r is Some <==> pos + 32 <= data@.len(),
        r matches Some(a) ==> a@ == bytes_at(data@, pos as int, 32),
{
    match <[u8; 32]>::deserialize(&mut &data[pos..]) {
        Ok(a) => Some(a),
        Err(_) => None,
    }
}

/// Reads a 64-byte array at `pos` with borsh's deserializer for `[u8; 64]`.
/// It fails exactly when fewer than 64 bytes remain; otherwise it returns
/// the next 64 bytes.
#[verifier::external_body]
pub(crate) fn read_bytes64(data: &[u8], pos: usize) -> (r: Option<[u8; 64]>)
    requires
        pos <= data@.len(),
    ensures
        r is Some <==> pos + 64 <= data@.len(),
        r matches Some(a) ==> a@ == bytes_at(data@, pos as int, 64),
{
    match <[u8; 64]>::deserialize(&mut &data[pos..]) {
        Ok(a) => Some(a),
        Err(_) => None,
    }
}

/// Reads a length-prefixed byte vector at `pos` with borsh's deserializer
/// for `Vec<u8>`: a little-endian `u32` length followed by that many bytes.
/// It fails exactly when the prefix or the bytes it announces do not fit in
/// what remains; otherwise it returns those bytes.
#[verifier::external_body]
pub(crate) fn read_byte_vec(data: &[u8], pos: usize) -> (r: Option<Vec<u8>>)
    requires
        pos <= data@.len(),
    ensures
        r is Some <==> (pos + 4 <= data@.len() && pos + 4 + u32_at(data@, pos as int)
            <= data@.len()),
        r matches Some(v) ==> v@ == bytes_at(data@, pos + 4, u32_at(data@, pos as int) as int),
{
    match Vec::<u8>::deserialize(&mut &data[pos..]) {
        Ok(v) => Some(v),
        Err(_) => None,
    }
}

} // verus!

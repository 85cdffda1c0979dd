use vstd::prelude::*;

verus! {

use vstd::string::StrSliceExecFns;
use vstd::utf8::encode_utf8;

/// A single dynamically typed value with a fixed numeric type tag and a
/// defined binary payload encoding.
///
/// The kinds that carry floating-point data on the wire (`Float`, `Vec2`,
/// `Vec3`) hold the raw IEEE-754 single-precision bit patterns as `u32`
/// values, so that the byte-exact encoding can be stated and proved over
/// plain integers. The wire bytes are identical either way: the encoder
/// writes the four bytes of the bit pattern little-endian, exactly as it
/// would write the bits of a native 32-bit float.
///
/// Tags 6, 7 and 8 are unused, reserved for future kinds; the gap is kept
/// so that the tag assignment stays wire compatible.
#[derive(Debug)]
pub enum Variant {
    Nil,
    Float(u32),
    Str(String),
    Vec2(u32, u32),
    Vec3(u32, u32, u32),
    UInt(u32),
    Int(i32),
}

/// The four bytes of `v`, least significant first.
pub open spec fn u32_le_bytes(v: u32) -> Seq<u8> {
    seq![
        (v & 0xff) as u8,
        ((v >> 8) & 0xff) as u8,
        ((v >> 16) & 0xff) as u8,
        ((v >> 24) & 0xff) as u8,
    ]
}

/// The number encoded by four little-endian bytes.
pub open spec fn le4_value(b: Seq<u8>) -> int
    recommends
        b.len() == 4,
{
    b[0] + 0x100 * b[1] + 0x10000 * b[2] + 0x1000000 * b[3]
}

/// Reading back the four little-endian bytes of `v` yields `v`.
pub proof fn lemma_u32_le_bytes_value(v: u32)
    ensures
        le4_value(u32_le_bytes(v)) == v,
{
    assert(v & 0xff < 0x100 && (v >> 8) & 0xff < 0x100 && (v >> 16) & 0xff < 0x100 && (v >> 24)
        & 0xff < 0x100) by (bit_vector);
    assert((v & 0xff) + 0x100 * ((v >> 8) & 0xff) + 0x10000 * ((v >> 16) & 0xff) + 0x1000000 * ((
    v >> 24) & 0xff) == v) by (bit_vector);
}

impl Variant {
    /// The wire type tag of each kind: a pure function of the kind, fixed
    /// for the life of the format. Tags 6, 7 and 8 are left unassigned.
    pub open spec fn tag(&self) -> u8 {
        match *self {
            Variant::Nil => 0,
            Variant::Float(_) => 1,
            Variant::Str(_) => 2,
            Variant::Vec2(_, _) => 3,
            Variant::Vec3(_, _, _) => 4,
            Variant::UInt(_) => 5,
            Variant::Int(_) => 9,
        }
    }

    /// The payload bytes that follow the tag on the wire.
    ///
    /// Fixed-size kinds serialize their 32-bit words little-endian; `Str`
    /// is prefixed with its UTF-8 byte length as a little-endian 32-bit
    /// word (lengths beyond the positive signed range wrap, which is out
    /// of scope for the format).
    pub open spec fn payload(&self) -> Seq<u8> {
        match *self {
            Variant::Nil => Seq::empty(),
            Variant::Float(bits) => u32_le_bytes(bits),
            Variant::Str(s) => u32_le_bytes(encode_utf8(s@).len() as u32) + encode_utf8(s@),
            Variant::Vec2(x, y) => u32_le_bytes(x) + u32_le_bytes(y),
            Variant::Vec3(x, y, z) => u32_le_bytes(x) + u32_le_bytes(y) + u32_le_bytes(z),
            Variant::UInt(v) => u32_le_bytes(v),
            Variant::Int(v) => u32_le_bytes(v as u32),
        }
    }

    /// The complete encoding: one tag byte, then the payload.
    pub open spec fn encoding(&self) -> Seq<u8> {
        seq![self.tag()] + self.payload()
    }

    /// The tag byte for this value's kind.
    fn get_id(&self) -> (id: u8)
        ensures
            id == self.tag(),
    {
        match self {
            Variant::Nil => 0,
            Variant::Float(_) => 1,
            Variant::Str(_) => 2,
            Variant::Vec2(_, _) => 3,
            Variant::Vec3(_, _, _) => 4,
            Variant::UInt(_) => 5,
            Variant::Int(_) => 9,
        }
    }

    /// Appends the encoding of this value to `out`: the tag byte, then the
    /// payload. The value itself is never changed by packing, and an
    /// in-memory sink cannot fail.
    pub fn pack(&self, out: &mut Vec<u8>)
        ensures
            final(out)@ == old(out)@ + self.encoding(),
    {
        out.push(self.get_id());
        match self {
            Variant::Nil => {},
            Variant::Float(bits) => {
                push_u32_le(out, *bits);
            },
            Variant::Int(v) => {
                push_u32_le(out, #[verifier::truncate] (*v as u32));
            },
            Variant::UInt(v) => {
                push_u32_le(out, *v);
            },
            Variant::Vec2(x, y) => {
                push_u32_le(out, *x);
                push_u32_le(out, *y);
            },
            Variant::Vec3(x, y, z) => {
                push_u32_le(out, *x);
                push_u32_le(out, *y);
                push_u32_le(out, *z);
            },
            Variant::Str(s) => {
                let mut bytes: Vec<u8> = s.as_str().as_bytes_vec();
                let n: usize = bytes.len();
                push_u32_le(out, #[verifier::truncate] (n as u32));
                out.append(&mut bytes);
            },
        }
        proof {
            assert(out@ =~= old(out)@ + self.encoding());
        }
    }
}

/// Every encoding is the correct single tag byte from the fixed table,
/// followed by a payload whose length is fixed for each kind that carries
/// 32-bit words: none for `Nil`, four bytes for `Float`, `Int` and `UInt`,
/// eight for `Vec2`, twelve for `Vec3`.
pub proof fn lemma_encoding_shape(v: Variant)
    ensures
        v.encoding().len() == 1 + v.payload().len(),
        v.encoding()[0] == v.tag(),
        v.encoding().skip(1) == v.payload(),
        v matches Variant::Nil ==> v.tag() == 0 && v.payload().len() == 0,
        v matches Variant::Float(_) ==> v.tag() == 1 && v.payload().len() == 4,
        v matches Variant::Str(_) ==> v.tag() == 2,
        v matches Variant::Vec2(_, _) ==> v.tag() == 3 && v.payload().len() == 8,
        v matches Variant::Vec3(_, _, _) ==> v.tag() == 4 && v.payload().len() == 12,
        v matches Variant::UInt(_) ==> v.tag() == 5 && v.payload().len() == 4,
        v matches Variant::Int(_) ==> v.tag() == 9 && v.payload().len() == 4,
{
    assert(v.encoding().skip(1) =~= v.payload());
}

/// A packed `Str` holds `4 + n` payload bytes, where `n` is the UTF-8 byte
/// length of the text: a little-endian 32-bit length prefix followed by
/// the raw UTF-8 bytes unmodified. Whenever `n` lies within the positive
/// signed 32-bit range, the prefix reads back as exactly `n`.
pub proof fn lemma_str_payload(s: String)
    ensures
        Variant::Str(s).payload().len() == 4 + encode_utf8(s@).len(),
        Variant::Str(s).payload().skip(4) == encode_utf8(s@),
        Variant::Str(s).payload().take(4) == u32_le_bytes(encode_utf8(s@).len() as u32),
        encode_utf8(s@).len() < 0x8000_0000 ==> le4_value(Variant::Str(s).payload().take(4))
            == encode_utf8(s@).len(),
{
    let n = encode_utf8(s@).len();
    assert(Variant::Str(s).payload().skip(4) =~= encode_utf8(s@));
    assert(Variant::Str(s).payload().take(4) =~= u32_le_bytes(n as u32));
    if n < 0x8000_0000 {
        lemma_u32_le_bytes_value(n as u32);
    }
}

/// The `Int` variant holding the numeric value `n`, truncated to 32 bits.
pub open spec fn int_variant_of(n: int) -> Variant {
    Variant::Int(n as i32)
}

/// The `UInt` variant holding the numeric value `n`, truncated to 32 bits.
pub open spec fn uint_variant_of(n: int) -> Variant {
    Variant::UInt(n as u32)
}

impl From<i8> for Variant {
    fn from(v: i8) -> (r: Variant) {
        Variant::Int(v as i32)
    }
}

impl vstd::std_specs::convert::FromSpecImpl<i8> for Variant {
    open spec fn obeys_from_spec() -> bool {
        true
    }

    open spec fn from_spec(v: i8) -> Variant {
        Variant::Int(v as i32)
    }
}

impl From<i16> for Variant {
    fn from(v: i16) -> (r: Variant) {
        Variant::Int(v as i32)
    }
}

impl vstd::std_specs::convert::FromSpecImpl<i16> for Variant {
    open spec fn obeys_from_spec() -> bool {
        true
    }

    open spec fn from_spec(v: i16) -> Variant {
        Variant::Int(v as i32)
    }
}

impl From<i32> for Variant {
    fn from(v: i32) -> (r: Variant) {
        Variant::Int(v)
    }
}

impl vstd::std_specs::convert::FromSpecImpl<i32> for Variant {
    open spec fn obeys_from_spec() -> bool {
        true
    }

    open spec fn from_spec(v: i32) -> Variant {
        Variant::Int(v)
    }
}

impl From<i64> for Variant {
    fn from(v: i64) -> (r: Variant) {
        Variant::Int(#[verifier::truncate] (v as i32))
    }
}

impl vstd::std_specs::convert::FromSpecImpl<i64> for Variant {
    open spec fn obeys_from_spec() -> bool {
        true
    }

    open spec fn from_spec(v: i64) -> Variant {
        Variant::Int(v as i32)
    }
}

impl From<i128> for Variant {
    fn from(v: i128) -> (r: Variant) {
        Variant::Int(#[verifier::truncate] (v as i32))
    }
}

impl vstd::std_specs::convert::FromSpecImpl<i128> for Variant {
    open spec fn obeys_from_spec() -> bool {
        true
    }

    open spec fn from_spec(v: i128) -> Variant {
        Variant::Int(v as i32)
    }
}

impl From<u8> for Variant {
    fn from(v: u8) -> (r: Variant) {
        Variant::UInt(v as u32)
    }
}

impl vstd::std_specs::convert::FromSpecImpl<u8> for Variant {
    open spec fn obeys_from_spec() -> bool {
        true
    }

    open spec fn from_spec(v: u8) -> Variant {
        Variant::UInt(v as u32)
    }
}

impl From<u16> for Variant {
    fn from(v: u16) -> (r: Variant) {
        Variant::UInt(v as u32)
    }
}

impl vstd::std_specs::convert::FromSpecImpl<u16> for Variant {
    open spec fn obeys_from_spec() -> bool {
        true
    }

    open spec fn from_spec(v: u16) -> Variant {
        Variant::UInt(v as u32)
    }
}

impl From<u32> for Variant {
    fn from(v: u32) -> (r: Variant) {
        Variant::UInt(v)
    }
}

impl vstd::std_specs::convert::FromSpecImpl<u32> for Variant {
    open spec fn obeys_from_spec() -> bool {
        true
    }

    open spec fn from_spec(v: u32) -> Variant {
        Variant::UInt(v)
    }
}

impl From<u64> for Variant {
    fn from(v: u64) -> (r: Variant) {
        Variant::UInt(#[verifier::truncate] (v as u32))
    }
}

impl vstd::std_specs::convert::FromSpecImpl<u64> for Variant {
    open spec fn obeys_from_spec() -> bool {
        true
    }

    open spec fn from_spec(v: u64) -> Variant {
        Variant::UInt(v as u32)
    }
}

impl From<u128> for Variant {
    fn from(v: u128) -> (r: Variant) {
        Variant::UInt(#[verifier::truncate] (v as u32))
    }
}

impl vstd::std_specs::convert::FromSpecImpl<u128> for Variant {
    open spec fn obeys_from_spec() -> bool {
        true
    }

    open spec fn from_spec(v: u128) -> Variant {
        Variant::UInt(v as u32)
    }
}

impl From<String> for Variant {
    fn from(v: String) -> (r: Variant) {
        Variant::Str(v)
    }
}

impl vstd::std_specs::convert::FromSpecImpl<String> for Variant {
    open spec fn obeys_from_spec() -> bool {
        true
    }

    open spec fn from_spec(v: String) -> Variant {
        Variant::Str(v)
    }
}

impl From<&str> for Variant {
    fn from(v: &str) -> (r: Variant)
        ensures
            r matches Variant::Str(s) && s@ == v@,
    {
        Variant::Str(String::from_str(v))
    }
}

impl vstd::std_specs::convert::FromSpecImpl<&str> for Variant {
    open spec fn obeys_from_spec() -> bool {
        // The converted variant owns a fresh `String`; only its view, not
        // the allocation, is determined by the input, so the result cannot
        // be named as a spec-level value. The `ensures` on `from` above
        // pins the view instead.
        false
    }

    open spec fn from_spec(v: &str) -> Variant {
        arbitrary()
    }
}

/// Narrowing is deterministic for signed inputs: converting a signed
/// integer of any width yields the `Int` variant of its numeric value
/// truncated to 32 bits. Two widths holding the same in-range value
/// therefore convert to equal variants, with byte-identical payloads.
pub proof fn lemma_signed_conversion_by_value(v8: i8, v16: i16, v32: i32, v64: i64, v128: i128)
    ensures
        <Variant as vstd::std_specs::convert::FromSpec<i8>>::from_spec(v8) == int_variant_of(
            v8 as int),
        <Variant as vstd::std_specs::convert::FromSpec<i16>>::from_spec(v16) == int_variant_of(
            v16 as int),
        <Variant as vstd::std_specs::convert::FromSpec<i32>>::from_spec(v32) == int_variant_of(
            v32 as int),
        <Variant as vstd::std_specs::convert::FromSpec<i64>>::from_spec(v64) == int_variant_of(
            v64 as int),
        <Variant as vstd::std_specs::convert::FromSpec<i128>>::from_spec(v128) == int_variant_of(
            v128 as int),
{
}

/// Narrowing is deterministic for unsigned inputs: converting an unsigned
/// integer of any width yields the `UInt` variant of its numeric value
/// truncated to 32 bits.
pub proof fn lemma_unsigned_conversion_by_value(v8: u8, v16: u16, v32: u32, v64: u64, v128: u128)
    ensures
        <Variant as vstd::std_specs::convert::FromSpec<u8>>::from_spec(v8) == uint_variant_of(
            v8 as int),
        <Variant as vstd::std_specs::convert::FromSpec<u16>>::from_spec(v16) == uint_variant_of(
            v16 as int),
        <Variant as vstd::std_specs::convert::FromSpec<u32>>::from_spec(v32) == uint_variant_of(
            v32 as int),
        <Variant as vstd::std_specs::convert::FromSpec<u64>>::from_spec(v64) == uint_variant_of(
            v64 as int),
        <Variant as vstd::std_specs::convert::FromSpec<u128>>::from_spec(v128) == uint_variant_of(
            v128 as int),
{
}

/// Appends the four little-endian bytes of `v` to `out`.
fn push_u32_le(out: &mut Vec<u8>, v: u32)
    ensures
        final(out)@ == old(out)@ + u32_le_bytes(v),
{
    proof {
        assert(v & 0xff < 0x100 && (v >> 8) & 0xff < 0x100 && (v >> 16) & 0xff < 0x100 && (v
            >> 24) & 0xff < 0x100) by (bit_vector);
    }
    out.push((v & 0xff) as u8);
    out.push(((v >> 8) & 0xff) as u8);
    out.push(((v >> 16) & 0xff) as u8);
    out.push(((v >> 24) & 0xff) as u8);
    proof {
        assert(out@ =~= old(out)@ + u32_le_bytes(v));
    }
}

} // verus!

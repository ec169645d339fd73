//! Expansion of 16- and 32-bit short-form codes into 128-bit identifiers.
//!
//! A short-form code names an identifier that differs from the Bluetooth base
//! identifier `00000000-0000-1000-8000-00805F9B34FB` in its first field only.

use vstd::prelude::*;

verus! {

/// Second field of the Bluetooth base identifier.
pub const BASE_MID: u16 = 0x0000;

/// Third field of the Bluetooth base identifier.
pub const BASE_HIGH: u16 = 0x1000;

/// Last eight bytes of the Bluetooth base identifier.
pub const BASE_TAIL: [u8; 8] = [0x80, 0x00, 0x00, 0x80, 0x5F, 0x9B, 0x34, 0xFB];

/// A 128-bit identifier, held as its sixteen bytes in network order.
#[derive(Clone, Copy, Debug, PartialEq, Eq, Hash)]
pub struct Uuid {
    pub bytes: [u8; 16],
}

impl View for Uuid {
    type V = Seq<u8>;

    open spec fn view(&self) -> Seq<u8> {
        self.bytes@
    }
}

/// The sixteen bytes of the identifier whose four fields are `d1`, `d2`, `d3`
/// and `d4`: each integer field most significant byte first, then `d4`.
pub open spec fn field_bytes(d1: u32, d2: u16, d3: u16, d4: Seq<u8>) -> Seq<u8> {
    seq![
        (d1 >> 24) as u8,
        (d1 >> 16) as u8,
        (d1 >> 8) as u8,
        d1 as u8,
        (d2 >> 8) as u8,
        d2 as u8,
        (d3 >> 8) as u8,
        d3 as u8,
    ] + d4
}

/// The number written by four bytes, most significant first.
pub open spec fn be_u32(b0: u8, b1: u8, b2: u8, b3: u8) -> u32 {
    (b0 * 0x100_0000 + b1 * 0x1_0000 + b2 * 0x100 + b3) as u32
}

/// The number written by two bytes, most significant first.
pub open spec fn be_u16(b0: u8, b1: u8) -> u16 {
    (b0 * 0x100 + b1) as u16
}

/// The four fields that sixteen bytes spell out: a 32-bit number, two 16-bit
/// numbers and the remaining eight bytes.
pub open spec fn fields_of(bytes: Seq<u8>) -> (u32, u16, u16, Seq<u8>) {
    (
        be_u32(bytes[0], bytes[1], bytes[2], bytes[3]),
        be_u16(bytes[4], bytes[5]),
        be_u16(bytes[6], bytes[7]),
        bytes.subrange(8, 16),
    )
}

/// The bytes of the identifier that the short-form code `code` stands for.
pub open spec fn sdp_bytes(code: u32) -> Seq<u8> {
    field_bytes(code, BASE_MID, BASE_HIGH, BASE_TAIL@)
}

/// `full` is what a short-form code of type `C` expands to: the identifier of
/// a 32-bit code that `short` converts into.
pub open spec fn expands_to<C: Into<u32>>(short: C, full: Seq<u8>) -> bool {
    exists|code: u32| #[trigger]
        call_ensures(<C as Into<u32>>::into, (short,), code) && full == sdp_bytes(code)
}

/// `core`'s conversion of a value into its own type, which hands the value
/// back unchanged.
pub assume_specification<T>[ <T as core::convert::From<T>>::from ](t: T) -> (r: T)
    ensures
        r == t,
;

/// Calls `uuid::Uuid::from_fields` and takes the bytes of the identifier it
/// builds with `uuid::Uuid::into_bytes`. The contract restates the byte list
/// that `from_fields` writes: the three integer fields big-endian, then the
/// eight bytes of `d4` in order.
#[verifier::external_body]
fn assemble(d1: u32, d2: u16, d3: u16, d4: &[u8; 8]) -> (bytes: [u8; 16])
    ensures
        bytes@ == field_bytes(d1, d2, d3, d4@),
{
    ::uuid::Uuid::from_fields(d1, d2, d3, d4).into_bytes()
}

/// Reading the fields of assembled bytes gives back what was assembled.
pub proof fn lemma_fields_of_field_bytes(d1: u32, d2: u16, d3: u16, d4: Seq<u8>)
    requires
        d4.len() == 8,
    ensures
        field_bytes(d1, d2, d3, d4).len() == 16,
        fields_of(field_bytes(d1, d2, d3, d4)) == (d1, d2, d3, d4),
{
    let bytes = field_bytes(d1, d2, d3, d4);
    assert(be_u32((d1 >> 24) as u8, (d1 >> 16) as u8, (d1 >> 8) as u8, d1 as u8) == d1) by {
        assert(((d1 >> 24) as u8) * 0x100_0000 + ((d1 >> 16) as u8) * 0x1_0000 + ((d1 >> 8) as u8)
            * 0x100 + (d1 as u8) == d1) by (bit_vector);
    }
    assert(be_u16((d2 >> 8) as u8, d2 as u8) == d2) by {
        assert(((d2 >> 8) as u8) * 0x100 + (d2 as u8) == d2) by (bit_vector);
    }
    assert(be_u16((d3 >> 8) as u8, d3 as u8) == d3) by {
        assert(((d3 >> 8) as u8) * 0x100 + (d3 as u8) == d3) by (bit_vector);
    }
    assert(bytes.subrange(8, 16) =~= d4);
}

impl Uuid {
    /// The four fields of the identifier.
    pub open spec fn fields(&self) -> (u32, u16, u16, Seq<u8>) {
        fields_of(self@)
    }

    /// Builds an identifier from its four fields.
    pub fn from_fields(d1: u32, d2: u16, d3: u16, d4: &[u8; 8]) -> (r: Uuid)
        ensures
            r@ == field_bytes(d1, d2, d3, d4@),
            r.fields() == (d1, d2, d3, d4@),
    {
        proof {
            lemma_fields_of_field_bytes(d1, d2, d3, d4@);
        }
        Uuid { bytes: assemble(d1, d2, d3, d4) }
    }

    /// Reads the four fields of the identifier.
    pub fn as_fields(&self) -> (r: (u32, u16, u16, [u8; 8]))
        ensures
            (r.0, r.1, r.2, r.3@) == self.fields(),
    {
        let b = &self.bytes;
        let d1: u32 = (b[0] as u32) << 24 | (b[1] as u32) << 16 | (b[2] as u32) << 8 | (b[3] as u32);
        let d2: u16 = (b[4] as u16) << 8 | (b[5] as u16);
        let d3: u16 = (b[6] as u16) << 8 | (b[7] as u16);
        let d4: [u8; 8] = [b[8], b[9], b[10], b[11], b[12], b[13], b[14], b[15]];
        proof {
            let (b0, b1, b2, b3) = (b[0], b[1], b[2], b[3]);
            assert((b0 as u32) << 24 | (b1 as u32) << 16 | (b2 as u32) << 8 | (b3 as u32) == b0
                * 0x100_0000 + b1 * 0x1_0000 + b2 * 0x100 + b3) by (bit_vector);
            let (b4, b5, b6, b7) = (b[4], b[5], b[6], b[7]);
            assert((b4 as u16) << 8 | (b5 as u16) == b4 * 0x100 + b5) by (bit_vector);
            assert((b6 as u16) << 8 | (b7 as u16) == b6 * 0x100 + b7) by (bit_vector);
            assert(d4@ =~= self@.subrange(8, 16));
        }
        (d1, d2, d3, d4)
    }
}

/// Expands a short-form code: `uuid` becomes the first field, and the other
/// three fields are those of the Bluetooth base identifier.
pub fn uuid_from_sdp(uuid: u32) -> (r: Uuid)
    ensures
        r@ == sdp_bytes(uuid),
        r.fields() == (uuid, BASE_MID, BASE_HIGH, BASE_TAIL@),
{
    Uuid::from_fields(uuid, BASE_MID, BASE_HIGH, &BASE_TAIL)
}

/// Expansion of a short-form code of either width.
pub trait SdpShortUuid<C: Into<u32>> {
    /// Converts `uuid` to 32 bits and expands it.
    fn from_sdp_short_uuid(uuid: C) -> (r: Uuid)
        ensures
            expands_to(uuid, r@),
    {
        let code: u32 = uuid.into();
        uuid_from_sdp(code)
    }
}

impl SdpShortUuid<u16> for Uuid {

}

impl SdpShortUuid<u32> for Uuid {

}

/// A 16-bit code expands to the identifier of the same number taken as a
/// 32-bit code, and a 32-bit code to its own.
pub proof fn lemma_expansion_by_width(short: u16, code: u32, full: Seq<u8>)
    ensures
        expands_to(short, full) ==> full == sdp_bytes(short as u32),
        expands_to(code, full) ==> full == sdp_bytes(code),
{
}

/// Widening a 16-bit code to 32 bits does not change what it expands to.
pub proof fn lemma_widening_keeps_expansion(short: u16, narrow: Seq<u8>, wide: Seq<u8>)
    requires
        expands_to(short, narrow),
        expands_to(short as u32, wide),
    ensures
        narrow == wide,
{
    lemma_expansion_by_width(short, short as u32, narrow);
    lemma_expansion_by_width(short, short as u32, wide);
}

/// Widening keeps distinct codes distinct and keeps their order.
pub proof fn lemma_widening_is_lossless(a: u16, b: u16)
    ensures
        (a as u32) as u16 == a,
        a == b <==> a as u32 == b as u32,
        a < b <==> (a as u32) < (b as u32),
{
}

/// The fields of an expanded code: the code itself, then the base's fields.
pub proof fn lemma_sdp_fields(code: u32)
    ensures
        sdp_bytes(code).len() == 16,
        fields_of(sdp_bytes(code)) == (code, 0x0000u16, 0x1000u16, BASE_TAIL@),
        BASE_TAIL@ == seq![0x80u8, 0x00u8, 0x00u8, 0x80u8, 0x5Fu8, 0x9Bu8, 0x34u8, 0xFBu8],
{
    lemma_fields_of_field_bytes(code, BASE_MID, BASE_HIGH, BASE_TAIL@);
    assert(BASE_TAIL@ =~= seq![0x80u8, 0x00u8, 0x00u8, 0x80u8, 0x5Fu8, 0x9Bu8, 0x34u8, 0xFBu8]);
}

/// Distinct codes expand to distinct identifiers, which differ in the first
/// field and agree in the other three.
pub proof fn lemma_expansion_injective(a: u32, b: u32)
    requires
        a != b,
    ensures
        sdp_bytes(a) != sdp_bytes(b),
        fields_of(sdp_bytes(a)).0 != fields_of(sdp_bytes(b)).0,
        fields_of(sdp_bytes(a)).1 == fields_of(sdp_bytes(b)).1,
        fields_of(sdp_bytes(a)).2 == fields_of(sdp_bytes(b)).2,
        fields_of(sdp_bytes(a)).3 == fields_of(sdp_bytes(b)).3,
        sdp_bytes(a).subrange(4, 16) == sdp_bytes(b).subrange(4, 16),
{
    lemma_sdp_fields(a);
    lemma_sdp_fields(b);
    assert(sdp_bytes(a).subrange(4, 16) =~= sdp_bytes(b).subrange(4, 16));
}

} // verus!

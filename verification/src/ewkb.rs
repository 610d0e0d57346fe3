use vstd::prelude::*;
use vstd::bytes::{
    lemma_auto_spec_u32_to_from_le_bytes, lemma_auto_spec_u64_to_from_le_bytes,
    spec_u32_from_le_bytes, spec_u32_to_le_bytes, spec_u64_from_le_bytes, spec_u64_to_le_bytes,
    u32_from_le_bytes, u32_to_le_bytes, u64_from_le_bytes, u64_to_le_bytes,
};
use vstd::slice::slice_subrange;

verus! {

/// Number of bytes of a point with its reference system.
pub const EWKB_POINT_LEN: usize = 25;

/// The geometry type of a point that carries its reference system.
pub const POINT_WITH_SRID: u32 = 0x2000_0001;

/// The reference system of geographic coordinates.
pub const SRID_WGS84: u32 = 4326;

/// A point as the catalog's store holds it: the bit patterns of longitude and
/// latitude, each a double-precision number of degrees.
#[derive(Clone, Copy, Debug, PartialEq, Eq, Structural)]
pub struct EwkbPoint {
    pub longitude_bits: u64,
    pub latitude_bits: u64,
}

/// Why bytes are no point of the store.
#[derive(Clone, Copy, Debug, PartialEq, Eq, Structural)]
pub enum EwkbError {
    UnexpectedLength,
    UnexpectedByteOrder,
    UnexpectedGeometryType,
    UnexpectedSrid,
}

/// The bytes of a point: the mark of little-endian order, the geometry type,
/// the reference system, the longitude, the latitude.
pub open spec fn spec_encode(point: EwkbPoint) -> Seq<u8> {
    seq![1u8] + spec_u32_to_le_bytes(POINT_WITH_SRID) + spec_u32_to_le_bytes(SRID_WGS84)
        + spec_u64_to_le_bytes(point.longitude_bits) + spec_u64_to_le_bytes(point.latitude_bits)
}

/// The point that bytes spell, or the first thing that is wrong with them.
pub open spec fn spec_parse(raw: Seq<u8>) -> Result<EwkbPoint, EwkbError> {
    if raw.len() != EWKB_POINT_LEN {
        Err(EwkbError::UnexpectedLength)
    } else if raw[0] != 1 {
        Err(EwkbError::UnexpectedByteOrder)
    } else if spec_u32_from_le_bytes(raw.subrange(1, 5)) != POINT_WITH_SRID {
        Err(EwkbError::UnexpectedGeometryType)
    } else if spec_u32_from_le_bytes(raw.subrange(5, 9)) != SRID_WGS84 {
        Err(EwkbError::UnexpectedSrid)
    } else {
        Ok(
            EwkbPoint {
                longitude_bits: spec_u64_from_le_bytes(raw.subrange(9, 17)),
                latitude_bits: spec_u64_from_le_bytes(raw.subrange(17, 25)),
            },
        )
    }
}

impl EwkbPoint {
    /// Reads a point from the bytes in which the store hands it out.
    pub fn from_postgis_ewkb(raw: &[u8]) -> (r: Result<EwkbPoint, EwkbError>)
        ensures
            r == spec_parse(raw@),
    {
        if raw.len() != 25 {
            return Err(EwkbError::UnexpectedLength);
        }
        if raw[0] != 1 {
            return Err(EwkbError::UnexpectedByteOrder);
        }
        if u32_from_le_bytes(slice_subrange(raw, 1, 5)) != POINT_WITH_SRID {
            return Err(EwkbError::UnexpectedGeometryType);
        }
        if u32_from_le_bytes(slice_subrange(raw, 5, 9)) != SRID_WGS84 {
            return Err(EwkbError::UnexpectedSrid);
        }
        let longitude_bits = u64_from_le_bytes(slice_subrange(raw, 9, 17));
        let latitude_bits = u64_from_le_bytes(slice_subrange(raw, 17, 25));
        Ok(EwkbPoint { longitude_bits, latitude_bits })
    }

    /// Writes the point in the bytes in which the store takes it.
    pub fn to_postgis_ewkb(&self) -> (out: Vec<u8>)
        ensures
            out@ == spec_encode(*self),
            out@.len() == EWKB_POINT_LEN,
    {
        let mut out: Vec<u8> = Vec::new();
        out.push(1u8);
        let mut kind = u32_to_le_bytes(POINT_WITH_SRID);
        let mut srid = u32_to_le_bytes(SRID_WGS84);
        let mut longitude = u64_to_le_bytes(self.longitude_bits);
        let mut latitude = u64_to_le_bytes(self.latitude_bits);
        out.append(&mut kind);
        out.append(&mut srid);
        out.append(&mut longitude);
        out.append(&mut latitude);
        assert(out@ =~= spec_encode(*self));
        out
    }
}

/// What was written is read back: the bytes of a point spell that point.
pub proof fn lemma_ewkb_round_trip(point: EwkbPoint)
    ensures
        spec_encode(point).len() == EWKB_POINT_LEN,
        spec_parse(spec_encode(point)) == Ok::<EwkbPoint, EwkbError>(point),
{
    lemma_auto_spec_u32_to_from_le_bytes();
    lemma_auto_spec_u64_to_from_le_bytes();
    let raw = spec_encode(point);
    assert(raw.subrange(1, 5) =~= spec_u32_to_le_bytes(POINT_WITH_SRID));
    assert(raw.subrange(5, 9) =~= spec_u32_to_le_bytes(SRID_WGS84));
    assert(raw.subrange(9, 17) =~= spec_u64_to_le_bytes(point.longitude_bits));
    assert(raw.subrange(17, 25) =~= spec_u64_to_le_bytes(point.latitude_bits));
}

} // verus!

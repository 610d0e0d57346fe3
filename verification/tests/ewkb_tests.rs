use media_ingest::ewkb::{EwkbError, EwkbPoint};

fn stockholm() -> EwkbPoint {
    EwkbPoint { longitude_bits: 18.0686f64.to_bits(), latitude_bits: 59.3293f64.to_bits() }
}

#[test]
fn point_is_written_in_twenty_five_bytes() {
    let bytes = stockholm().to_postgis_ewkb();
    assert_eq!(bytes.len(), 25);
    assert_eq!(&bytes[..9], &[1, 1, 0, 0, 0x20, 0xe6, 0x10, 0, 0]);
    assert_eq!(&bytes[9..17], &18.0686f64.to_le_bytes());
    assert_eq!(&bytes[17..25], &59.3293f64.to_le_bytes());
}

#[test]
fn point_is_read_back_as_written() {
    let p = stockholm();
    assert_eq!(EwkbPoint::from_postgis_ewkb(&p.to_postgis_ewkb()), Ok(p));
    let extreme = EwkbPoint { longitude_bits: u64::MAX, latitude_bits: 0 };
    assert_eq!(EwkbPoint::from_postgis_ewkb(&extreme.to_postgis_ewkb()), Ok(extreme));
    let read = EwkbPoint::from_postgis_ewkb(&p.to_postgis_ewkb()).unwrap();
    assert_eq!(f64::from_bits(read.latitude_bits), 59.3293);
    assert_eq!(f64::from_bits(read.longitude_bits), 18.0686);
}

#[test]
fn bytes_that_are_no_point_are_refused() {
    let good = stockholm().to_postgis_ewkb();
    assert_eq!(EwkbPoint::from_postgis_ewkb(&good[..24]), Err(EwkbError::UnexpectedLength));
    assert_eq!(EwkbPoint::from_postgis_ewkb(&[]), Err(EwkbError::UnexpectedLength));
    let mut longer = good.clone();
    longer.push(0);
    assert_eq!(EwkbPoint::from_postgis_ewkb(&longer), Err(EwkbError::UnexpectedLength));
    let mut big_endian = good.clone();
    big_endian[0] = 0;
    assert_eq!(EwkbPoint::from_postgis_ewkb(&big_endian), Err(EwkbError::UnexpectedByteOrder));
    let mut line = good.clone();
    line[1] = 2;
    assert_eq!(EwkbPoint::from_postgis_ewkb(&line), Err(EwkbError::UnexpectedGeometryType));
    let mut no_srid = good.clone();
    no_srid[4] = 0;
    assert_eq!(EwkbPoint::from_postgis_ewkb(&no_srid), Err(EwkbError::UnexpectedGeometryType));
    let mut other_srid = good.clone();
    other_srid[5] = 0xe7;
    assert_eq!(EwkbPoint::from_postgis_ewkb(&other_srid), Err(EwkbError::UnexpectedSrid));
}

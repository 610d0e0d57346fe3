use media_ingest::hash::{Sha3, Sha3Stream};

const EMPTY: &str = "a7ffc6f8bf1ed76651c14756a061d662f580ff4de43b49fa82d80a4b80f8434a";
const ABC: &str = "3a985da74fe225b2045c172d6bd390bd855f086e3e9d525b46bfe24511431532";

#[test]
fn hash_of_known_contents() {
    assert_eq!(Sha3::from_bytes(b"").to_hex(), EMPTY);
    assert_eq!(Sha3::from_bytes(b"abc").to_hex(), ABC);
}

#[test]
fn hash_is_deterministic() {
    let data: Vec<u8> = (0..10_000u32).map(|i| (i % 256) as u8).collect();
    assert_eq!(Sha3::from_bytes(&data), Sha3::from_bytes(&data.clone()));
}

#[test]
fn hash_differs_for_any_single_byte_mutation() {
    let data: Vec<u8> = (0..300u32).map(|i| (i * 31 % 256) as u8).collect();
    let base = Sha3::from_bytes(&data);
    for i in 0..data.len() {
        let mut changed = data.clone();
        changed[i] ^= 1;
        assert_ne!(Sha3::from_bytes(&changed), base);
    }
}

#[test]
fn hash_is_sensitive_to_order() {
    assert_ne!(Sha3::from_bytes(b"ab"), Sha3::from_bytes(b"ba"));
}

#[test]
fn hash_does_not_depend_on_how_the_stream_is_cut() {
    let data: Vec<u8> = (0..9000u32).map(|i| (i % 251) as u8).collect();
    let whole = Sha3::from_bytes(&data);
    let chunks: Vec<Vec<u8>> = data.chunks(4096).map(|c| c.to_vec()).collect();
    assert_eq!(chunks.len(), 3);
    assert_eq!(Sha3::from_chunks(&chunks), whole);
    let mut stream = Sha3Stream::new();
    for piece in data.chunks(7) {
        stream.update(piece);
    }
    assert_eq!(stream.finish(), whole);
    assert_eq!(Sha3::from_chunks(&vec![]).to_hex(), EMPTY);
}

#[test]
fn hash_is_thirty_two_bytes() {
    let h = Sha3::from_bytes(b"abc");
    assert_eq!(h.as_ref().len(), 32);
    assert_eq!(h.as_ref()[0], 0x3a);
    assert_eq!(h.as_ref()[31], 0x32);
}

#[test]
fn hash_from_slice_takes_thirty_two_bytes_only() {
    let h = Sha3::from_bytes(b"abc");
    let again = Sha3::try_from_slice(h.as_ref()).unwrap();
    assert_eq!(again, h);
    assert!(Sha3::try_from_slice(&[0u8; 31]).is_err());
    assert!(Sha3::try_from_slice(&[0u8; 33]).is_err());
    assert!(Sha3::try_from_slice(&[]).is_err());
    let bytes: Vec<u8> = (0..32u8).collect();
    assert_eq!(Sha3::try_from_slice(&bytes).unwrap().as_ref(), &bytes[..]);
}

#[test]
fn hex_has_two_lower_case_digits_a_byte() {
    let bytes: Vec<u8> = (0..32u8).map(|i| i * 8 + 7).collect();
    let h = Sha3::try_from_slice(&bytes).unwrap();
    let expected: String = bytes.iter().map(|b| format!("{:02x}", b)).collect();
    assert_eq!(h.to_hex(), expected);
    assert_eq!(h.to_hex().len(), 64);
}

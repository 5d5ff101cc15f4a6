use malachite_codec::peer::PeerId;

#[test]
fn identity_peer_id_parses() {
    let bytes = vec![0x00, 0x03, 9, 8, 7];
    let p = PeerId::from_bytes(&bytes).unwrap();
    assert_eq!(p.to_bytes(), bytes);
}

#[test]
fn sha256_peer_id_parses() {
    let mut bytes = vec![0x12, 0x20];
    bytes.extend(std::iter::repeat(0xAB).take(32));
    let p = PeerId::from_bytes(&bytes).unwrap();
    assert_eq!(p.to_bytes(), bytes);
}

#[test]
fn malformed_peer_ids_are_refused() {
    assert!(PeerId::from_bytes(&[]).is_none());
    // Unsupported multihash code.
    assert!(PeerId::from_bytes(&[0x01, 0x02, 1, 2]).is_none());
    // Digest shorter than announced.
    assert!(PeerId::from_bytes(&[0x00, 0x05, 1, 2]).is_none());
    // Bytes left over after the digest.
    assert!(PeerId::from_bytes(&[0x00, 0x01, 1, 2]).is_none());
    // Identity digest longer than 42 bytes.
    let mut long = vec![0x00, 43];
    long.extend(std::iter::repeat(1).take(43));
    assert!(PeerId::from_bytes(&long).is_none());
}

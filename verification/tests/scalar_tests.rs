use common_core::scalar::{
    CodecError, LocalByteConvertible, PublicKeyComputable, RistrettoPoint, Scalar,
};
use curve25519_dalek::traits::Identity;

#[test]
fn test_compute_pubkey() {
    let scalar = Scalar::from_u64(12345);
    let pubkey = scalar.compute_pubkey();
    let expected = (curve25519_dalek::scalar::Scalar::from(12345u64)
        * curve25519_dalek::constants::RISTRETTO_BASEPOINT_POINT)
        .compress()
        .to_bytes();
    assert_eq!(pubkey.to_bytes(), expected);
}

#[test]
fn test_ristretto_point_byte_conversion_roundtrip() {
    let scalar = Scalar::from_u64(67890);
    let point = scalar.compute_pubkey();

    let bytes = point.to_bytes();
    let recovered_point = RistrettoPoint::from_bytes(&bytes).unwrap();

    assert_eq!(point, recovered_point);
}

#[test]
fn test_ristretto_point_base58_conversion_roundtrip() {
    let scalar = Scalar::from_u64(112233);
    let point = scalar.compute_pubkey();

    let base58_str = point.to_base58();
    let recovered_point = RistrettoPoint::from_base58(base58_str).unwrap();

    assert_eq!(point, recovered_point);
}

#[test]
fn test_from_bytes_invalid_length() {
    let bytes = vec![0u8; 31];
    let result = RistrettoPoint::from_bytes(&bytes);
    assert!(result.is_err());
}

#[test]
fn test_from_bytes_invalid_point() {
    // A well-formed length, but the bit pattern is not a canonical point
    // encoding under the group's validity rules.
    let bytes = [
        0u8, 0u8, 0u8, 0u8, 0u8, 0u8, 0u8, 0u8, 0u8, 0u8, 0u8, 0u8, 0u8, 0u8, 0u8, 0u8, 0u8, 0u8,
        0u8, 0u8, 0u8, 0u8, 0u8, 0u8, 0u8, 0u8, 0u8, 0u8, 0u8, 0u8, 0u8, 0x10,
    ];
    let result = RistrettoPoint::from_bytes(&bytes);
    assert!(result.is_err());
}

#[test]
fn test_invalid_length_error_kind() {
    assert_eq!(
        RistrettoPoint::from_bytes(&vec![0u8; 31]),
        Err(CodecError::InvalidLength)
    );
    assert_eq!(
        RistrettoPoint::from_bytes(&vec![0u8; 33]),
        Err(CodecError::InvalidLength)
    );
}

#[test]
fn test_invalid_point_error_kind() {
    let mut bytes = [0u8; 32];
    bytes[31] = 0x10;
    assert_eq!(
        RistrettoPoint::from_bytes(&bytes),
        Err(CodecError::InvalidPoint)
    );
}

#[test]
fn test_from_base58_invalid_characters() {
    // '0', 'I', 'O' and 'l' are outside the Bitcoin base58 alphabet.
    assert_eq!(
        RistrettoPoint::from_base58("0OIl".to_string()),
        Err(CodecError::InvalidEncoding)
    );
    assert_eq!(
        RistrettoPoint::from_base58("hello world".to_string()),
        Err(CodecError::InvalidEncoding)
    );
}

#[test]
fn test_from_base58_wrong_length() {
    // "z" decodes to the single byte 57, which is not 32 bytes long.
    assert_eq!(
        RistrettoPoint::from_base58("z".to_string()),
        Err(CodecError::InvalidLength)
    );
}

#[test]
fn test_to_base58_matches_reference_encoder() {
    let point = Scalar::from_u64(12345).compute_pubkey();
    let expected = bs58::encode(point.to_bytes()).into_string();
    assert_eq!(point.to_base58(), expected);
}

#[test]
fn test_from_base58_invalid_point_propagates() {
    let mut bytes = [0u8; 32];
    bytes[31] = 0x10;
    let text = bs58::encode(bytes).into_string();
    assert_eq!(
        RistrettoPoint::from_base58(text),
        Err(CodecError::InvalidPoint)
    );
}

#[test]
fn test_derivation_is_deterministic() {
    let p1 = Scalar::from_u64(424242).compute_pubkey();
    let p2 = Scalar::from_u64(424242).compute_pubkey();
    assert_eq!(p1, p2);
    assert_eq!(p1.to_bytes(), p2.to_bytes());
    assert_eq!(p1.to_base58(), p2.to_base58());
}

#[test]
fn test_identity_derivation() {
    // The zero scalar derives the group identity, whose canonical encoding
    // is all zero bytes, and the identity round-trips like any other key.
    let identity = Scalar::from_u64(0).compute_pubkey();
    assert_eq!(identity.to_bytes(), [0u8; 32]);

    let expected = curve25519_dalek::ristretto::RistrettoPoint::identity()
        .compress()
        .to_bytes();
    assert_eq!(identity.to_bytes(), expected);

    let recovered = RistrettoPoint::from_bytes(&identity.to_bytes()).unwrap();
    assert_eq!(identity, recovered);
    let recovered58 = RistrettoPoint::from_base58(identity.to_base58()).unwrap();
    assert_eq!(identity, recovered58);
}

#[test]
fn test_identity_base58_is_all_ones() {
    // 32 zero bytes encode to 32 leading '1' digits in base58.
    let identity = Scalar::from_u64(0).compute_pubkey();
    assert_eq!(identity.to_base58(), "1".repeat(32));
}

#[test]
fn test_distinct_scalars_derive_distinct_keys() {
    let p1 = Scalar::from_u64(1).compute_pubkey();
    let p2 = Scalar::from_u64(2).compute_pubkey();
    let p3 = Scalar::from_u64(3).compute_pubkey();
    assert_ne!(p1, p2);
    assert_ne!(p1, p3);
    assert_ne!(p2, p3);
}

#[test]
fn test_round_trip_helpers_return_the_key() {
    let point = Scalar::from_u64(777).compute_pubkey();
    assert_eq!(common_core::scalar::bytes_round_trip(&point), point);
    assert_eq!(common_core::scalar::base58_round_trip(&point), point);
}

#[test]
fn test_from_bytes_le_matches_from_u64() {
    // 12345 is 0x3039, little-endian in the first two bytes.
    let mut bytes = [0u8; 32];
    bytes[0] = 0x39;
    bytes[1] = 0x30;
    let scalar = Scalar::from_bytes_le(bytes);
    assert_eq!(
        scalar.compute_pubkey(),
        Scalar::from_u64(12345).compute_pubkey()
    );
}

#[test]
fn test_derived_keys_distinct_helper() {
    let s1 = Scalar::from_u64(5);
    let s2 = Scalar::from_u64(6);
    let (p1, p2) = common_core::scalar::derived_keys_distinct(&s1, &s2);
    assert_ne!(p1, p2);
    assert_eq!(p1, s1.compute_pubkey());
    assert_eq!(p2, s2.compute_pubkey());
}

#[test]
fn test_base58_identity_decodes_back() {
    let ones = "1".repeat(32);
    let point = RistrettoPoint::from_base58(ones).unwrap();
    assert_eq!(point.to_bytes(), [0u8; 32]);
}

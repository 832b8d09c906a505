use wallet_adapter::WalletError;
use wallet_adapter::ed25519::public_key;
use wallet_adapter::ed25519::signature;
use wallet_adapter::ed25519::to_64_bytes;
use wallet_adapter::ed25519::verify_signature;

const PUBLIC: [u8; 32] = [
    215, 90, 152, 1, 130, 177, 10, 183, 213, 75, 254, 211, 201, 100, 7, 58, 14, 225, 114, 243, 218,
    166, 35, 37, 175, 2, 26, 104, 247, 7, 81, 26,
];

const OTHER_PUBLIC: [u8; 32] = [
    234, 74, 108, 99, 226, 156, 82, 10, 190, 245, 80, 123, 19, 46, 197, 249, 149, 71, 118, 174,
    190, 190, 123, 146, 66, 30, 234, 105, 20, 70, 210, 44,
];

const EMPTY_SIGNED: [u8; 64] = [
    229, 86, 67, 0, 195, 96, 172, 114, 144, 134, 226, 204, 128, 110, 130, 138, 132, 135, 127, 30,
    184, 229, 217, 116, 216, 115, 224, 101, 34, 73, 1, 85, 95, 184, 130, 21, 144, 163, 59, 172,
    198, 30, 57, 112, 28, 249, 180, 107, 210, 91, 245, 240, 89, 91, 190, 36, 101, 81, 65, 67, 142,
    122, 16, 11,
];

const HELLO_SIGNED: [u8; 64] = [
    81, 28, 164, 151, 196, 212, 39, 11, 9, 139, 26, 253, 90, 228, 227, 185, 81, 165, 218, 44, 157,
    166, 233, 192, 82, 143, 87, 97, 136, 54, 118, 231, 223, 110, 76, 15, 14, 27, 90, 10, 68, 68,
    244, 41, 139, 24, 130, 221, 130, 47, 177, 19, 60, 189, 73, 171, 251, 153, 108, 135, 205, 91,
    133, 6,
];

#[test]
fn a_known_signature_verifies() {
    assert_eq!(verify_signature(&PUBLIC, b"", &EMPTY_SIGNED), Ok(()));
    assert_eq!(verify_signature(&PUBLIC, b"hello", &HELLO_SIGNED), Ok(()));
}

#[test]
fn a_known_signature_does_not_verify_for_other_inputs() {
    assert_eq!(verify_signature(&PUBLIC, b"hello", &EMPTY_SIGNED), Err(WalletError::InvalidSignature));
    assert_eq!(verify_signature(&PUBLIC, b"", &HELLO_SIGNED), Err(WalletError::InvalidSignature));
    assert_eq!(
        verify_signature(&OTHER_PUBLIC, b"hello", &HELLO_SIGNED),
        Err(WalletError::InvalidSignature)
    );
    assert_eq!(
        verify_signature(&PUBLIC, b"hello ", &HELLO_SIGNED),
        Err(WalletError::InvalidSignature)
    );
}

#[test]
fn verification_reports_the_first_check_that_fails() {
    let mut no_point = [0u8; 32];
    no_point[0] = 2;
    let mut malformed = HELLO_SIGNED;
    malformed[63] |= 0x20;
    assert_eq!(
        verify_signature(&no_point, b"hello", &malformed),
        Err(WalletError::InvalidSignatureBytes)
    );
    assert_eq!(
        verify_signature(&no_point, b"hello", &HELLO_SIGNED),
        Err(WalletError::InvalidEd25519PublicKeyBytes)
    );
    assert_eq!(
        verify_signature(&PUBLIC, b"hello", &malformed),
        Err(WalletError::InvalidSignatureBytes)
    );
}

#[test]
fn public_keys_decode_where_they_are_points() {
    let key = public_key(PUBLIC).expect("a public key decodes");
    assert_eq!(key.to_bytes(), PUBLIC);
    let other = public_key(OTHER_PUBLIC).expect("a public key decodes");
    assert_eq!(other.to_bytes(), OTHER_PUBLIC);
    assert!(public_key([0u8; 32]).is_ok());
}

#[test]
fn public_keys_that_are_no_points_do_not_decode() {
    for first in [2u8, 7, 8, 11] {
        let mut bytes = [0u8; 32];
        bytes[0] = first;
        assert_eq!(public_key(bytes).err(), Some(WalletError::InvalidEd25519PublicKeyBytes));
    }
}

#[test]
fn signatures_decode_where_their_high_bits_are_clear() {
    let decoded = signature(HELLO_SIGNED).expect("a signature decodes");
    assert_eq!(decoded.to_bytes(), HELLO_SIGNED);
    assert!(signature([0u8; 64]).is_ok());
    let mut highest = [0u8; 64];
    highest[63] = 0x1F;
    assert!(signature(highest).is_ok());
    let mut elsewhere = [0xFFu8; 64];
    elsewhere[63] = 0;
    assert!(signature(elsewhere).is_ok());
}

#[test]
fn signatures_with_a_high_bit_set_do_not_decode() {
    for last in [0x20u8, 0x40, 0x80, 0xA0, 0xFF] {
        let mut bytes = [0u8; 64];
        bytes[63] = last;
        assert_eq!(signature(bytes).err(), Some(WalletError::InvalidSignatureBytes));
    }
}

#[test]
fn sixty_four_bytes_become_an_array() {
    let bytes: Vec<u8> = (0u8..64).collect();
    let mut expected = [0u8; 64];
    for (at, byte) in expected.iter_mut().enumerate() {
        *byte = at as u8;
    }
    assert_eq!(to_64_bytes(&bytes), Ok(expected));
}

#[test]
fn other_lengths_are_not_a_signature() {
    assert_eq!(to_64_bytes(&[]), Err(WalletError::Expected64ByteLength));
    assert_eq!(to_64_bytes(&[1u8; 32]), Err(WalletError::Expected64ByteLength));
    assert_eq!(to_64_bytes(&[1u8; 63]), Err(WalletError::Expected64ByteLength));
    assert_eq!(to_64_bytes(&[1u8; 65]), Err(WalletError::Expected64ByteLength));
}

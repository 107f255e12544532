use dds_keymat::builtin_key::BuiltinKey;
use dds_keymat::cdr::{read_fixed, read_octets, read_u32, same_octets, write_fixed, write_octets, write_padding, write_u32};
use dds_keymat::error::SecurityError;
use dds_keymat::key_material::{KeyMaterial_AES_GCM_GMAC, Serializable_KeyMaterial_AES_GCM_GMAC};
use dds_keymat::key_material_seq::KeyMaterial_AES_GCM_GMAC_seq;
use dds_keymat::transformation_kind::BuiltinCryptoTransformationKind;

fn sample_aes256_gcm() -> KeyMaterial_AES_GCM_GMAC {
    KeyMaterial_AES_GCM_GMAC {
        transformation_kind: BuiltinCryptoTransformationKind::CRYPTO_TRANSFORMATION_KIND_AES256_GCM,
        master_salt: vec![0x01; 32],
        sender_key_id: [0, 0, 0, 7],
        master_sender_key: BuiltinKey::AES256([0xAA; 32]),
        receiver_specific_key_id: [0, 0, 0, 0],
        master_receiver_specific_key: BuiltinKey::AES256([0x00; 32]),
    }
}

fn sample_aes128_with_short_salt() -> KeyMaterial_AES_GCM_GMAC {
    KeyMaterial_AES_GCM_GMAC {
        transformation_kind: BuiltinCryptoTransformationKind::CRYPTO_TRANSFORMATION_KIND_AES128_GCM,
        master_salt: vec![9, 8, 7],
        sender_key_id: [1, 2, 3, 4],
        master_sender_key: BuiltinKey::AES128([0x11; 16]),
        receiver_specific_key_id: [5, 6, 7, 8],
        master_receiver_specific_key: BuiltinKey::AES128([0x22; 16]),
    }
}

fn encoding_of_short_salt_sample() -> Vec<u8> {
    let mut expected: Vec<u8> = Vec::new();
    expected.extend_from_slice(&[0, 0, 0, 2]);
    expected.extend_from_slice(&[0, 0, 0, 3]);
    expected.extend_from_slice(&[9, 8, 7]);
    expected.extend_from_slice(&[1, 2, 3, 4]);
    expected.push(0);
    expected.extend_from_slice(&[0, 0, 0, 16]);
    expected.extend_from_slice(&[0x11; 16]);
    expected.extend_from_slice(&[5, 6, 7, 8]);
    expected.extend_from_slice(&[0, 0, 0, 16]);
    expected.extend_from_slice(&[0x22; 16]);
    expected
}

#[test]
fn end_to_end_aes256_gcm_round_trip() {
    let m = sample_aes256_gcm();
    let encoded = m.encode_wire().unwrap();
    let decoded = KeyMaterial_AES_GCM_GMAC::decode_wire(&encoded).unwrap();
    assert_eq!(decoded, m);
    assert_eq!(decoded.transformation_kind, BuiltinCryptoTransformationKind::CRYPTO_TRANSFORMATION_KIND_AES256_GCM);
    assert_eq!(decoded.master_salt, vec![0x01; 32]);
    assert_eq!(decoded.sender_key_id, [0, 0, 0, 7]);
    assert_eq!(decoded.master_sender_key, BuiltinKey::AES256([0xAA; 32]));
    assert_eq!(decoded.receiver_specific_key_id, [0, 0, 0, 0]);
    assert_eq!(decoded.master_receiver_specific_key, BuiltinKey::AES256([0x00; 32]));
    let again = decoded.encode_wire().unwrap();
    assert_eq!(again, encoded);
}

#[test]
fn encoding_of_aes256_gcm_is_byte_exact() {
    let encoded = sample_aes256_gcm().encode_wire().unwrap();
    let mut expected: Vec<u8> = Vec::new();
    expected.extend_from_slice(&[0, 0, 0, 4]);
    expected.extend_from_slice(&[0, 0, 0, 32]);
    expected.extend_from_slice(&[0x01; 32]);
    expected.extend_from_slice(&[0, 0, 0, 7]);
    expected.extend_from_slice(&[0, 0, 0, 32]);
    expected.extend_from_slice(&[0xAA; 32]);
    expected.extend_from_slice(&[0, 0, 0, 0]);
    expected.extend_from_slice(&[0, 0, 0, 32]);
    expected.extend_from_slice(&[0x00; 32]);
    assert_eq!(encoded, expected);
    assert_eq!(encoded.len(), 120);
}

#[test]
fn a_length_is_aligned_to_four_bytes() {
    let m = sample_aes128_with_short_salt();
    let encoded = m.encode_wire().unwrap();
    assert_eq!(encoded, encoding_of_short_salt_sample());
    assert_eq!(encoded.len(), 60);
    assert_eq!(KeyMaterial_AES_GCM_GMAC::decode_wire(&encoded), Ok(m));
}

#[test]
fn padding_bytes_are_skipped_unread() {
    let mut encoded = encoding_of_short_salt_sample();
    assert_eq!(encoded[15], 0);
    encoded[15] = 0xFF;
    assert_eq!(KeyMaterial_AES_GCM_GMAC::decode_wire(&encoded), Ok(sample_aes128_with_short_salt()));
}

#[test]
fn round_trip_for_every_kind_and_salt_length() {
    let kinds = [
        (BuiltinCryptoTransformationKind::CRYPTO_TRANSFORMATION_KIND_NONE, BuiltinKey::Empty, BuiltinKey::Empty),
        (BuiltinCryptoTransformationKind::CRYPTO_TRANSFORMATION_KIND_AES128_GMAC, BuiltinKey::AES128([1; 16]), BuiltinKey::AES128([2; 16])),
        (BuiltinCryptoTransformationKind::CRYPTO_TRANSFORMATION_KIND_AES128_GCM, BuiltinKey::AES128([3; 16]), BuiltinKey::AES128([4; 16])),
        (BuiltinCryptoTransformationKind::CRYPTO_TRANSFORMATION_KIND_AES256_GMAC, BuiltinKey::AES256([5; 32]), BuiltinKey::AES256([6; 32])),
        (BuiltinCryptoTransformationKind::CRYPTO_TRANSFORMATION_KIND_AES256_GCM, BuiltinKey::AES256([7; 32]), BuiltinKey::AES256([8; 32])),
    ];
    for (kind, sender, receiver) in kinds {
        for salt_len in 0..=32usize {
            let m = KeyMaterial_AES_GCM_GMAC {
                transformation_kind: kind,
                master_salt: (0..salt_len as u8).collect(),
                sender_key_id: [0xDE, 0xAD, 0xBE, 0xEF],
                master_sender_key: sender,
                receiver_specific_key_id: [1, 0, 0, 2],
                master_receiver_specific_key: receiver,
            };
            assert!(m.check_valid());
            let encoded = m.encode_wire().unwrap();
            assert_eq!(encoded.len() % 4, 0);
            assert_eq!(KeyMaterial_AES_GCM_GMAC::decode_wire(&encoded), Ok(m.clone()));
            let mut longer = encoded.clone();
            longer.extend_from_slice(&[1, 2, 3]);
            assert_eq!(KeyMaterial_AES_GCM_GMAC::decode_wire(&longer), Ok(m));
        }
    }
}

#[test]
fn the_unprotected_key_material_has_an_explicit_encoding() {
    let m = KeyMaterial_AES_GCM_GMAC::unprotected();
    assert_eq!(m.transformation_kind, BuiltinCryptoTransformationKind::CRYPTO_TRANSFORMATION_KIND_NONE);
    assert_eq!(m.master_salt, Vec::<u8>::new());
    assert_eq!(m.sender_key_id, [0, 0, 0, 0]);
    assert_eq!(m.master_sender_key, BuiltinKey::ZERO);
    assert_eq!(m.receiver_specific_key_id, [0, 0, 0, 0]);
    assert_eq!(m.master_receiver_specific_key, BuiltinKey::ZERO);
    assert!(m.check_valid());
    assert_eq!(m.encode_wire(), Ok(vec![0u8; 24]));
    assert_eq!(KeyMaterial_AES_GCM_GMAC::decode_wire(&[0u8; 24]), Ok(m));
}

#[test]
fn truncated_input_is_a_deserialization_error() {
    let encoded = encoding_of_short_salt_sample();
    for n in 0..encoded.len() {
        assert_eq!(
            KeyMaterial_AES_GCM_GMAC::decode_wire(&encoded[..n]),
            Err(SecurityError::DeserializationError)
        );
    }
}

#[test]
fn a_length_above_the_bound_is_a_deserialization_error() {
    let mut bytes: Vec<u8> = Vec::new();
    bytes.extend_from_slice(&[0, 0, 0, 0]);
    bytes.extend_from_slice(&[0, 0, 0, 33]);
    bytes.extend_from_slice(&[0; 200]);
    assert_eq!(KeyMaterial_AES_GCM_GMAC::decode_wire(&bytes), Err(SecurityError::DeserializationError));
    let mut bytes = encoding_of_short_salt_sample();
    bytes[16] = 1;
    assert_eq!(KeyMaterial_AES_GCM_GMAC::decode_wire(&bytes), Err(SecurityError::DeserializationError));
}

#[test]
fn the_length_is_read_big_endian() {
    let mut bytes = encoding_of_short_salt_sample();
    // The salt's length spelled little-endian is far above the bound.
    bytes[4] = 3;
    bytes[7] = 0;
    assert_eq!(KeyMaterial_AES_GCM_GMAC::decode_wire(&bytes), Err(SecurityError::DeserializationError));
}

#[test]
fn an_unknown_kind_is_refused_after_the_framing() {
    let mut bytes = encoding_of_short_salt_sample();
    bytes[3] = 5;
    assert_eq!(KeyMaterial_AES_GCM_GMAC::decode_wire(&bytes), Err(SecurityError::InvalidTransformationKind));
    bytes.truncate(59);
    assert_eq!(KeyMaterial_AES_GCM_GMAC::decode_wire(&bytes), Err(SecurityError::DeserializationError));
}

#[test]
fn keys_of_a_wrong_length_are_refused() {
    let mut bytes = encoding_of_short_salt_sample();
    // AES256 asks for 32 bytes; the keys have 16.
    bytes[3] = 4;
    assert_eq!(
        KeyMaterial_AES_GCM_GMAC::decode_wire(&bytes),
        Err(SecurityError::KeyLengthMismatch { required: 32, found: 16 })
    );
    bytes[3] = 0;
    assert_eq!(
        KeyMaterial_AES_GCM_GMAC::decode_wire(&bytes),
        Err(SecurityError::KeyLengthMismatch { required: 0, found: 16 })
    );
    // The sender's key is right, the receiver's is not.
    let w = Serializable_KeyMaterial_AES_GCM_GMAC {
        transformation_kind: [0, 0, 0, 1],
        master_salt: vec![],
        sender_key_id: [0; 4],
        master_sender_key: vec![1; 16],
        receiver_specific_key_id: [0; 4],
        master_receiver_specific_key: vec![1; 17],
    };
    assert_eq!(
        KeyMaterial_AES_GCM_GMAC::from_serializable(&w),
        Err(SecurityError::KeyLengthMismatch { required: 16, found: 17 })
    );
    let mut out = Vec::new();
    assert_eq!(w.write(&mut out), Ok(()));
    assert_eq!(
        KeyMaterial_AES_GCM_GMAC::decode_wire(&out),
        Err(SecurityError::KeyLengthMismatch { required: 16, found: 17 })
    );
}

#[test]
fn a_wire_form_wider_than_the_wire_is_refused() {
    let fitting = Serializable_KeyMaterial_AES_GCM_GMAC {
        transformation_kind: [0, 0, 0, 4],
        master_salt: vec![7; 32],
        sender_key_id: [0; 4],
        master_sender_key: vec![1; 32],
        receiver_specific_key_id: [0; 4],
        master_receiver_specific_key: vec![2; 32],
    };
    let m = KeyMaterial_AES_GCM_GMAC::from_serializable(&fitting).unwrap();
    assert!(m.check_valid());
    assert_eq!(m.master_salt, vec![7; 32]);
    let mut w = fitting.clone();
    w.master_salt = vec![7; 33];
    assert_eq!(KeyMaterial_AES_GCM_GMAC::from_serializable(&w), Err(SecurityError::DeserializationError));
    // The width is looked at before the kind and before the keys' lengths.
    w.transformation_kind = [9, 9, 9, 9];
    assert_eq!(KeyMaterial_AES_GCM_GMAC::from_serializable(&w), Err(SecurityError::DeserializationError));
    let mut w = fitting.clone();
    w.master_sender_key = vec![1; 33];
    assert_eq!(KeyMaterial_AES_GCM_GMAC::from_serializable(&w), Err(SecurityError::DeserializationError));
    let mut w = fitting;
    w.master_receiver_specific_key = vec![2; 64];
    assert_eq!(KeyMaterial_AES_GCM_GMAC::from_serializable(&w), Err(SecurityError::DeserializationError));
}

#[test]
fn a_salt_above_the_bound_has_no_encoding() {
    let mut m = sample_aes256_gcm();
    m.master_salt = vec![0; 33];
    assert!(!m.check_valid());
    assert_eq!(m.encode_wire(), Err(SecurityError::SerializationError));
    let w = Serializable_KeyMaterial_AES_GCM_GMAC::from_key_material(&m);
    let mut out = vec![1, 2, 3];
    assert_eq!(w.write(&mut out), Err(SecurityError::SerializationError));
    assert_eq!(out, vec![1, 2, 3]);
}

#[test]
fn a_key_that_does_not_fit_the_kind_is_not_valid() {
    let mut m = sample_aes256_gcm();
    m.master_receiver_specific_key = BuiltinKey::AES128([0; 16]);
    assert!(!m.check_valid());
    let mut m = sample_aes256_gcm();
    m.transformation_kind = BuiltinCryptoTransformationKind::CRYPTO_TRANSFORMATION_KIND_NONE;
    assert!(!m.check_valid());
    assert!(sample_aes256_gcm().check_valid());
}

#[test]
fn wire_form_of_a_key_material() {
    let m = sample_aes128_with_short_salt();
    let w = Serializable_KeyMaterial_AES_GCM_GMAC::from_key_material(&m);
    assert_eq!(w.transformation_kind, [0, 0, 0, 2]);
    assert_eq!(w.master_salt, vec![9, 8, 7]);
    assert_eq!(w.sender_key_id, [1, 2, 3, 4]);
    assert_eq!(w.master_sender_key, vec![0x11; 16]);
    assert_eq!(w.receiver_specific_key_id, [5, 6, 7, 8]);
    assert_eq!(w.master_receiver_specific_key, vec![0x22; 16]);
    assert_eq!(KeyMaterial_AES_GCM_GMAC::from_serializable(&w), Ok(m));
}

#[test]
fn wire_form_is_read_at_a_position() {
    let mut bytes = vec![0xEE; 4];
    let w = Serializable_KeyMaterial_AES_GCM_GMAC::from_key_material(&sample_aes128_with_short_salt());
    w.write(&mut bytes).unwrap();
    assert_eq!(bytes.len(), 64);
    assert_eq!(Serializable_KeyMaterial_AES_GCM_GMAC::read(&bytes, 4), Some((w, 64)));
    assert_eq!(Serializable_KeyMaterial_AES_GCM_GMAC::read(&bytes, 5), None);
    assert_eq!(Serializable_KeyMaterial_AES_GCM_GMAC::read(&bytes, 100), None);
}

#[test]
fn cdr_numbers_are_big_endian_and_aligned() {
    let mut out = vec![7u8];
    write_u32(&mut out, 0x0102_0304);
    assert_eq!(out, vec![7, 0, 0, 0, 1, 2, 3, 4]);
    assert_eq!(read_u32(&out, 1), Some((0x0102_0304, 8)));
    assert_eq!(read_u32(&out, 4), Some((0x0102_0304, 8)));
    assert_eq!(read_u32(&out, 0), Some((0x0700_0000, 4)));
    assert_eq!(read_u32(&out, 5), None);
    assert_eq!(read_u32(&out, 9), None);
    let mut out = Vec::new();
    write_u32(&mut out, u32::MAX);
    write_u32(&mut out, 256);
    assert_eq!(out, vec![255, 255, 255, 255, 0, 0, 1, 0]);
    assert_eq!(read_u32(&out, 0), Some((u32::MAX, 4)));
    assert_eq!(read_u32(&out, 4), Some((256, 8)));
}

#[test]
fn cdr_octets_and_padding() {
    let mut out = Vec::new();
    write_fixed(&mut out, &[1, 2, 3, 4, 5]);
    write_padding(&mut out);
    assert_eq!(out, vec![1, 2, 3, 4, 5, 0, 0, 0]);
    write_padding(&mut out);
    assert_eq!(out.len(), 8);
    write_octets(&mut out, &[9, 9]);
    assert_eq!(out, vec![1, 2, 3, 4, 5, 0, 0, 0, 0, 0, 0, 2, 9, 9]);
    assert_eq!(read_fixed(&out, 0, 5), Some((&[1u8, 2, 3, 4, 5][..], 5)));
    assert_eq!(read_fixed(&out, 12, 2), Some((&[9u8, 9][..], 14)));
    assert_eq!(read_fixed(&out, 12, 3), None);
    assert_eq!(read_fixed(&out, 15, 0), None);
    assert_eq!(read_fixed(&out, 14, 0), Some((&[][..], 14)));
    assert_eq!(read_octets(&out, 5, 32), Some((&[9u8, 9][..], 14)));
    assert_eq!(read_octets(&out, 5, 2), Some((&[9u8, 9][..], 14)));
    assert_eq!(read_octets(&out, 5, 1), None);
    assert_eq!(read_octets(&out[..13], 5, 32), None);
}

#[test]
fn octets_are_compared_to_their_end() {
    assert!(same_octets(&[], &[]));
    assert!(same_octets(&[1, 2, 3], &[1, 2, 3]));
    assert!(!same_octets(&[1, 2, 3], &[1, 2, 4]));
    assert!(!same_octets(&[0, 2, 3], &[1, 2, 3]));
    assert!(!same_octets(&[1, 2, 3], &[1, 2]));
}

#[test]
fn list_encoding_of_one_is_byte_exact() {
    let s = KeyMaterial_AES_GCM_GMAC_seq::One(sample_aes128_with_short_salt());
    let encoded = s.encode_wire().unwrap();
    let mut expected: Vec<u8> = vec![0, 0, 0, 1];
    expected.extend_from_slice(&[0, 0, 0, 2]);
    expected.extend_from_slice(&[0, 0, 0, 3]);
    expected.extend_from_slice(&[9, 8, 7]);
    expected.extend_from_slice(&[1, 2, 3, 4]);
    expected.push(0);
    expected.extend_from_slice(&[0, 0, 0, 16]);
    expected.extend_from_slice(&[0x11; 16]);
    expected.extend_from_slice(&[5, 6, 7, 8]);
    expected.extend_from_slice(&[0, 0, 0, 16]);
    expected.extend_from_slice(&[0x22; 16]);
    assert_eq!(encoded, expected);
    assert_eq!(KeyMaterial_AES_GCM_GMAC_seq::decode_wire(&encoded), Ok(s));
}

#[test]
fn list_round_trip_of_two() {
    let s = KeyMaterial_AES_GCM_GMAC_seq::Two(sample_aes128_with_short_salt(), sample_aes256_gcm());
    let encoded = s.encode_wire().unwrap();
    assert_eq!(&encoded[..4], &[0, 0, 0, 2]);
    assert_eq!(encoded.len(), 4 + 60 + 120);
    assert_eq!(KeyMaterial_AES_GCM_GMAC_seq::decode_wire(&encoded), Ok(s));
}

#[test]
fn an_empty_list_decodes_to_the_unprotected_key_material() {
    assert_eq!(
        KeyMaterial_AES_GCM_GMAC_seq::decode_wire(&[0, 0, 0, 0]),
        Ok(KeyMaterial_AES_GCM_GMAC_seq::One(KeyMaterial_AES_GCM_GMAC::unprotected()))
    );
    let encoded = KeyMaterial_AES_GCM_GMAC_seq::One(KeyMaterial_AES_GCM_GMAC::unprotected())
        .encode_wire()
        .unwrap();
    let mut expected = vec![0, 0, 0, 1];
    expected.extend_from_slice(&[0; 24]);
    assert_eq!(encoded, expected);
}

#[test]
fn a_list_of_three_is_refused_by_its_number() {
    let mut bytes = vec![0, 0, 0, 3];
    bytes.extend_from_slice(&[0; 72]);
    assert_eq!(
        KeyMaterial_AES_GCM_GMAC_seq::decode_wire(&bytes),
        Err(SecurityError::InvalidCardinality { count: 3 })
    );
}

#[test]
fn list_errors_in_their_order() {
    // Two are announced, one is there.
    let mut bytes = vec![0, 0, 0, 2];
    bytes.extend_from_slice(&[0; 24]);
    assert_eq!(KeyMaterial_AES_GCM_GMAC_seq::decode_wire(&bytes), Err(SecurityError::DeserializationError));
    assert_eq!(KeyMaterial_AES_GCM_GMAC_seq::decode_wire(&[0, 0, 1]), Err(SecurityError::DeserializationError));
    // Three with an unknown kind in the second: the kind is reported, not the number.
    let mut bytes = vec![0, 0, 0, 3];
    bytes.extend_from_slice(&[0; 72]);
    bytes[4 + 24 + 3] = 9;
    assert_eq!(KeyMaterial_AES_GCM_GMAC_seq::decode_wire(&bytes), Err(SecurityError::InvalidTransformationKind));
    // The framing of the whole list is read before any kind.
    bytes.truncate(75);
    assert_eq!(KeyMaterial_AES_GCM_GMAC_seq::decode_wire(&bytes), Err(SecurityError::DeserializationError));
    // A salt above the bound in either key material.
    let mut long = sample_aes256_gcm();
    long.master_salt = vec![0; 40];
    let s = KeyMaterial_AES_GCM_GMAC_seq::Two(sample_aes256_gcm(), long);
    assert_eq!(s.encode_wire(), Err(SecurityError::SerializationError));
}

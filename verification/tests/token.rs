use bytes::Bytes;
use dds_keymat::builtin_key::BuiltinKey;
use dds_keymat::error::SecurityError;
use dds_keymat::key_material::KeyMaterial_AES_GCM_GMAC;
use dds_keymat::key_material_seq::KeyMaterial_AES_GCM_GMAC_seq;
use dds_keymat::token::{
    key_material_to_token, token_to_key_material, BinaryProperty, BuiltinCryptoToken, CryptoToken,
    DataHolder, Property, CRYPTO_TOKEN_CLASS_ID, CRYPTO_TOKEN_KEYMAT_NAME,
};
use dds_keymat::transformation_kind::BuiltinCryptoTransformationKind;

fn token_key_material(n: u8) -> KeyMaterial_AES_GCM_GMAC {
    KeyMaterial_AES_GCM_GMAC {
        transformation_kind: BuiltinCryptoTransformationKind::CRYPTO_TRANSFORMATION_KIND_AES128_GMAC,
        master_salt: vec![n; 5],
        sender_key_id: [n, 0, 0, 1],
        master_sender_key: BuiltinKey::AES128([n; 16]),
        receiver_specific_key_id: [n, 0, 0, 2],
        master_receiver_specific_key: BuiltinKey::AES128([n ^ 0xFF; 16]),
    }
}

fn binary_property(name: &str, value: Vec<u8>) -> BinaryProperty {
    BinaryProperty { name: String::from(name), value: Bytes::from(value), propagate: true }
}

fn token_with(class_id: &str, properties: Vec<Property>, binary_properties: Vec<BinaryProperty>) -> CryptoToken {
    CryptoToken { data_holder: DataHolder { class_id: String::from(class_id), properties, binary_properties } }
}

fn some_property() -> Property {
    Property { name: String::from("a"), value: String::from("b"), propagate: false }
}

#[test]
fn the_fixed_names() {
    assert_eq!(CRYPTO_TOKEN_CLASS_ID, "DDS:Crypto:AES_GCM_GMAC");
    assert_eq!(CRYPTO_TOKEN_KEYMAT_NAME, "dds.cryp.keymat");
}

#[test]
fn the_token_of_a_key_material() {
    let m = token_key_material(3);
    let token = key_material_to_token(m.clone()).unwrap();
    let expected = token_with(
        "DDS:Crypto:AES_GCM_GMAC",
        vec![],
        vec![binary_property("dds.cryp.keymat", m.encode_wire().unwrap())],
    );
    assert_eq!(token, expected);
    assert!(token.data_holder.binary_properties[0].propagate);
    assert_eq!(token.data_holder.binary_properties[0].value.len(), 64);
    assert_eq!(&token.data_holder.binary_properties[0].value[..8], &[0, 0, 0, 1, 0, 0, 0, 5]);
}

#[test]
fn token_round_trip() {
    for n in [0u8, 1, 77, 255] {
        let m = token_key_material(n);
        let token = key_material_to_token(m.clone()).unwrap();
        assert_eq!(token_to_key_material(&token), Ok(m.clone()));
        assert_eq!(BuiltinCryptoToken::from_token(&token), Ok(BuiltinCryptoToken { key_material: m.clone() }));
        assert_eq!(BuiltinCryptoToken { key_material: m }.into_token(), Ok(token));
    }
}

#[test]
fn a_token_of_another_class_is_refused() {
    let value = token_key_material(1).encode_wire().unwrap();
    for class_id in ["", "DDS:Crypto:AES_GCM_GMAC ", "dds:crypto:aes_gcm_gmac", "DDS:Auth:PKI-DH", "DDS:Crypto:AES_GCM_GMA"] {
        let token = token_with(class_id, vec![], vec![binary_property("dds.cryp.keymat", value.clone())]);
        assert_eq!(token_to_key_material(&token), Err(SecurityError::WrongClassId));
    }
    // The class is looked at before anything else.
    let token = token_with("other", vec![some_property()], vec![]);
    assert_eq!(token_to_key_material(&token), Err(SecurityError::WrongClassId));
}

#[test]
fn a_token_with_properties_is_refused() {
    let value = token_key_material(1).encode_wire().unwrap();
    let token = token_with(
        "DDS:Crypto:AES_GCM_GMAC",
        vec![some_property()],
        vec![binary_property("dds.cryp.keymat", value)],
    );
    assert_eq!(token_to_key_material(&token), Err(SecurityError::UnexpectedProperties));
    // The properties are looked at before the binary properties.
    let token = token_with("DDS:Crypto:AES_GCM_GMAC", vec![some_property(), some_property()], vec![]);
    assert_eq!(token_to_key_material(&token), Err(SecurityError::UnexpectedProperties));
}

#[test]
fn a_token_without_exactly_one_binary_property_is_refused() {
    let value = token_key_material(1).encode_wire().unwrap();
    let token = token_with("DDS:Crypto:AES_GCM_GMAC", vec![], vec![]);
    assert_eq!(token_to_key_material(&token), Err(SecurityError::WrongBinaryPropertyCount { count: 0 }));
    let token = token_with(
        "DDS:Crypto:AES_GCM_GMAC",
        vec![],
        vec![binary_property("dds.cryp.keymat", value.clone()), binary_property("dds.cryp.keymat", value.clone())],
    );
    assert_eq!(token_to_key_material(&token), Err(SecurityError::WrongBinaryPropertyCount { count: 2 }));
    let three = vec![
        binary_property("a", value.clone()),
        binary_property("b", value.clone()),
        binary_property("c", value),
    ];
    let token = token_with("DDS:Crypto:AES_GCM_GMAC", vec![], three);
    assert_eq!(token_to_key_material(&token), Err(SecurityError::WrongBinaryPropertyCount { count: 3 }));
}

#[test]
fn the_value_of_the_binary_property_is_decoded() {
    let token = token_with("DDS:Crypto:AES_GCM_GMAC", vec![], vec![binary_property("dds.cryp.keymat", vec![0, 0, 0])]);
    assert_eq!(token_to_key_material(&token), Err(SecurityError::DeserializationError));
    let mut value = token_key_material(1).encode_wire().unwrap();
    value[3] = 9;
    let token = token_with("DDS:Crypto:AES_GCM_GMAC", vec![], vec![binary_property("dds.cryp.keymat", value)]);
    assert_eq!(token_to_key_material(&token), Err(SecurityError::InvalidTransformationKind));
    let mut value = token_key_material(1).encode_wire().unwrap();
    value[3] = 3;
    let token = token_with("DDS:Crypto:AES_GCM_GMAC", vec![], vec![binary_property("dds.cryp.keymat", value)]);
    assert_eq!(
        token_to_key_material(&token),
        Err(SecurityError::KeyLengthMismatch { required: 32, found: 16 })
    );
}

#[test]
fn a_single_binary_property_of_another_name_is_refused() {
    let m = token_key_material(9);
    for name in ["some.other.name", "", "dds.cryp.keyma", "dds.cryp.keymat ", "DDS.CRYP.KEYMAT"] {
        let token = token_with(
            "DDS:Crypto:AES_GCM_GMAC",
            vec![],
            vec![binary_property(name, m.encode_wire().unwrap())],
        );
        assert_eq!(token_to_key_material(&token), Err(SecurityError::WrongBinaryPropertyCount { count: 1 }));
        assert_eq!(
            BuiltinCryptoToken::from_token(&token),
            Err(SecurityError::WrongBinaryPropertyCount { count: 1 })
        );
    }
    // The name is looked at before the value.
    let token = token_with("DDS:Crypto:AES_GCM_GMAC", vec![], vec![binary_property("x", vec![0, 0])]);
    assert_eq!(token_to_key_material(&token), Err(SecurityError::WrongBinaryPropertyCount { count: 1 }));
}

#[test]
fn the_named_binary_property_is_read_whatever_its_propagate_flag() {
    let m = token_key_material(9);
    let mut property = binary_property("dds.cryp.keymat", m.encode_wire().unwrap());
    property.propagate = false;
    let token = token_with("DDS:Crypto:AES_GCM_GMAC", vec![], vec![property]);
    assert_eq!(token_to_key_material(&token), Ok(m));
}

#[test]
fn a_key_material_without_encoding_has_no_token() {
    let mut m = token_key_material(1);
    m.master_salt = vec![0; 33];
    assert_eq!(key_material_to_token(m.clone()), Err(SecurityError::SerializationError));
    assert_eq!(m.try_into_bytes(), Err(SecurityError::SerializationError));
}

#[test]
fn buffers_hold_the_encoding() {
    let m = token_key_material(4);
    let buffer = m.try_into_bytes().unwrap();
    assert_eq!(buffer, Bytes::from(m.encode_wire().unwrap()));
    assert_eq!(KeyMaterial_AES_GCM_GMAC::try_from_bytes(buffer.clone()), Ok(m));
    assert_eq!(
        KeyMaterial_AES_GCM_GMAC::try_from_bytes(buffer.slice(0..63)),
        Err(SecurityError::DeserializationError)
    );
    assert_eq!(
        KeyMaterial_AES_GCM_GMAC::try_from_bytes(Bytes::new()),
        Err(SecurityError::DeserializationError)
    );
    let s = KeyMaterial_AES_GCM_GMAC_seq::Two(token_key_material(1), token_key_material(2));
    let buffer = s.try_into_bytes().unwrap();
    assert_eq!(buffer, Bytes::from(s.encode_wire().unwrap()));
    assert_eq!(buffer.len(), 4 + 64 + 64);
    assert_eq!(KeyMaterial_AES_GCM_GMAC_seq::try_from_bytes(buffer), Ok(s));
    assert_eq!(
        KeyMaterial_AES_GCM_GMAC_seq::try_from_bytes(Bytes::from(vec![0, 0, 0, 0])),
        Ok(KeyMaterial_AES_GCM_GMAC_seq::One(KeyMaterial_AES_GCM_GMAC::unprotected()))
    );
}

#[test]
fn tokens_of_a_sequence() {
    let a = token_key_material(1);
    let b = token_key_material(2);
    let one = KeyMaterial_AES_GCM_GMAC_seq::One(a.clone());
    let tokens = one.clone().to_tokens().unwrap();
    assert_eq!(tokens, vec![key_material_to_token(a.clone()).unwrap()]);
    assert_eq!(KeyMaterial_AES_GCM_GMAC_seq::from_tokens(tokens), Ok(one));
    let two = KeyMaterial_AES_GCM_GMAC_seq::Two(a.clone(), b.clone());
    let tokens = two.clone().to_tokens().unwrap();
    assert_eq!(tokens, vec![key_material_to_token(a).unwrap(), key_material_to_token(b).unwrap()]);
    assert_eq!(KeyMaterial_AES_GCM_GMAC_seq::from_tokens(tokens), Ok(two));
}

#[test]
fn no_token_stands_for_no_protection() {
    assert_eq!(
        KeyMaterial_AES_GCM_GMAC_seq::from_tokens(vec![]),
        Ok(KeyMaterial_AES_GCM_GMAC_seq::One(KeyMaterial_AES_GCM_GMAC::unprotected()))
    );
}

#[test]
fn token_lists_fail_on_their_first_refused_token_or_their_number() {
    let good = |n: u8| key_material_to_token(token_key_material(n)).unwrap();
    assert_eq!(
        KeyMaterial_AES_GCM_GMAC_seq::from_tokens(vec![good(1), good(2), good(3)]),
        Err(SecurityError::InvalidCardinality { count: 3 })
    );
    let wrong_name = token_with(
        "DDS:Crypto:AES_GCM_GMAC",
        vec![],
        vec![binary_property("other", token_key_material(1).encode_wire().unwrap())],
    );
    assert_eq!(
        KeyMaterial_AES_GCM_GMAC_seq::from_tokens(vec![good(1), wrong_name]),
        Err(SecurityError::WrongBinaryPropertyCount { count: 1 })
    );
    let wrong_class = token_with("x", vec![], vec![]);
    let with_properties = token_with("DDS:Crypto:AES_GCM_GMAC", vec![some_property()], vec![]);
    assert_eq!(
        KeyMaterial_AES_GCM_GMAC_seq::from_tokens(vec![good(1), with_properties.clone(), wrong_class.clone()]),
        Err(SecurityError::UnexpectedProperties)
    );
    assert_eq!(
        KeyMaterial_AES_GCM_GMAC_seq::from_tokens(vec![wrong_class, with_properties, good(1), good(2)]),
        Err(SecurityError::WrongClassId)
    );
    let mut long = token_key_material(1);
    long.master_salt = vec![0; 33];
    assert_eq!(
        KeyMaterial_AES_GCM_GMAC_seq::Two(token_key_material(1), long).to_tokens(),
        Err(SecurityError::SerializationError)
    );
}

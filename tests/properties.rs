use stun_message::{
    attributes_length, parse_attribute, parse_attributes, parse_stun_message, serialize,
    serialize_attribute, serialize_with_computed_length,
    serialize_into, StunAttribute, StunAttributeType, StunMessage, StunMessageClass,
    StunMessageMethod, StunParseError, STUN_MAGIC_COOKIE,
};

const CLASSES: [StunMessageClass; 4] = [
    StunMessageClass::Request,
    StunMessageClass::Indication,
    StunMessageClass::SuccessResponse,
    StunMessageClass::ErrorResponse,
];

fn header(message_type: u16, length: u16, cookie: u32) -> Vec<u8> {
    let mut v = Vec::new();
    v.extend_from_slice(&message_type.to_be_bytes());
    v.extend_from_slice(&length.to_be_bytes());
    v.extend_from_slice(&cookie.to_be_bytes());
    v.extend_from_slice(&[0x77; 12]);
    v
}

fn is_short_input(e: &StunParseError<&[u8]>) -> bool {
    matches!(e, StunParseError::Nom(_, _))
}

fn residual<'a>(e: &StunParseError<&'a [u8]>) -> &'a [u8] {
    match e {
        StunParseError::Nom(rest, _) => rest,
        _ => panic!("expected a short-input error, got {:?}", e),
    }
}

#[test]
fn header_only_round_trip_for_every_class() {
    let transaction_id = [0x5A; 12];
    for class in CLASSES {
        let message = StunMessage {
            message_class: class,
            message_method: StunMessageMethod::Binding,
            message_length: 0,
            magic_cookie: STUN_MAGIC_COOKIE,
            transaction_id: &transaction_id,
            attributes: vec![],
        };
        let bytes = serialize(&message).unwrap();
        assert_eq!(bytes.len(), 20);
        let (rest, decoded) = parse_stun_message(&bytes).unwrap();
        assert_eq!(rest.len(), 0);
        assert_eq!(decoded.message_class, class);
        assert_eq!(decoded.message_method, StunMessageMethod::Binding);
        assert_eq!(decoded.message_length, 0);
        assert_eq!(decoded.magic_cookie, STUN_MAGIC_COOKIE);
        assert_eq!(decoded.transaction_id, &transaction_id);
        assert_eq!(decoded.attributes.len(), 0);
    }
}

#[test]
fn leading_bits_rejected_whatever_follows() {
    for message_type in [0x4000u16, 0x8000, 0xC000, 0xC110, 0x7FFF] {
        let input = header(message_type, 0x0003, 0);
        let err = parse_stun_message(&input).unwrap_err();
        assert_eq!(err, StunParseError::InvalidMessageFirstTwoBitsError(message_type));
    }
}

#[test]
fn leading_bits_scenario_c000() {
    let input = [0xC0u8, 0x00, 0x00, 0x00];
    let err = parse_stun_message(&input).unwrap_err();
    assert_eq!(err, StunParseError::InvalidMessageFirstTwoBitsError(0xC000));
}

#[test]
fn unknown_method_rejected() {
    for message_type in [0x0001u16, 0x0020, 0x0080, 0x0200, 0x2000, 0x0111] {
        let input = header(message_type, 0, STUN_MAGIC_COOKIE);
        let err = parse_stun_message(&input).unwrap_err();
        assert_eq!(err, StunParseError::InvalidMessageMethodError(message_type));
    }
}

#[test]
fn unaligned_length_rejected() {
    for length in [1u16, 2, 3, 5, 0xFFFF] {
        let mut input = header(0x0000, length, STUN_MAGIC_COOKIE);
        input.extend_from_slice(&[0u8; 8]);
        let err = parse_stun_message(&input).unwrap_err();
        assert_eq!(err, StunParseError::InvalidMessageLengthNotAlignedError(length));
    }
}

#[test]
fn too_large_length_rejected() {
    let mut input = header(0x0000, 8, STUN_MAGIC_COOKIE);
    input.extend_from_slice(&[0u8; 7]);
    let err = parse_stun_message(&input).unwrap_err();
    assert_eq!(err, StunParseError::InvalidMessageLengthTooLargeError(8));

    // the length is checked before the cookie
    let input = header(0x0000, 4, 0xDEAD_BEEF);
    let err = parse_stun_message(&input).unwrap_err();
    assert_eq!(err, StunParseError::InvalidMessageLengthTooLargeError(4));
}

#[test]
fn bad_cookie_rejected_whatever_follows() {
    for cookie in [0u32, 0x2112_A443, 0x4221_1A24, 0xFFFF_FFFF] {
        let mut input = header(0x0110, 4, cookie);
        input.extend_from_slice(&[0xFF, 0xFF, 0x00, 0x09]);
        let err = parse_stun_message(&input).unwrap_err();
        assert_eq!(err, StunParseError::InvalidMagicCookieError(cookie));
    }
}

#[test]
fn short_header_is_short_input() {
    let full = header(0x0000, 0, STUN_MAGIC_COOKIE);
    for n in 0..full.len() {
        let err = parse_stun_message(&full[..n]).unwrap_err();
        if n < 2 {
            assert_eq!(residual(&err), &full[..n]);
        } else if n < 4 {
            assert_eq!(residual(&err), &full[2..n]);
        } else {
            assert_eq!(err, StunParseError::InvalidMessageLengthTooLargeError(0));
        }
    }
}

#[test]
fn attribute_round_trip_for_every_padding() {
    let value = [0xA1u8, 0xB2, 0xC3, 0xD4];
    for len in 0..=4usize {
        let attribute = StunAttribute {
            attribute_type: 0x8022,
            attribute_length: len as u16,
            attribute_value: &value[..len],
        };
        let mut bytes = Vec::new();
        serialize_attribute(&attribute, &mut bytes);
        let consumed = 4 * ((len + 3) / 4);
        assert_eq!(bytes.len(), 4 + consumed);
        assert!(bytes[4 + len..].iter().all(|b| *b == 0));
        bytes.extend_from_slice(&[0xEE, 0xEE]);

        let (rest, decoded) = parse_attribute(&bytes).unwrap();
        assert_eq!(rest, [0xEE, 0xEE]);
        assert_eq!(bytes.len() - rest.len(), 4 + consumed);
        assert_eq!(decoded.attribute_type, 0x8022);
        assert_eq!(decoded.attribute_length, len as u16);
        assert_eq!(decoded.attribute_value, &value[..len]);
    }
}

#[test]
fn truncated_attribute_is_short_input() {
    let bytes = [0x00u8, 0x06, 0x00, 0x05, 1, 2, 3, 4, 5, 0, 0, 0];
    for n in 0..bytes.len() {
        let err = parse_attribute(&bytes[..n]).unwrap_err();
        assert!(is_short_input(&err));
        if n > 0 {
            let err = parse_attributes(&bytes[..n]).unwrap_err();
            assert!(is_short_input(&err));
        }
    }
    assert!(parse_attribute(&bytes).is_ok());
}

#[test]
fn truncated_attribute_inside_message_is_short_input() {
    // the length field covers 8 bytes, but the attribute inside needs 12
    let mut input = header(0x0000, 8, STUN_MAGIC_COOKIE);
    input.extend_from_slice(&[0x00, 0x06, 0x00, 0x05, 1, 2, 3, 4]);
    let err = parse_stun_message(&input).unwrap_err();
    assert_eq!(residual(&err), [1, 2, 3, 4]);
}

#[test]
fn scenario_two_attributes() {
    let input = [
        0x00u8, 0x00, 0x00, 0x0C, 0x21, 0x12, 0xA4, 0x42, 0x01, 0x02, 0x03, 0x04, 0x05, 0x06,
        0x07, 0x08, 0x09, 0x0A, 0x0B, 0x0C, 0xAB, 0xCD, 0x00, 0x00, 0xEF, 0xFE, 0x00, 0x03, 0xAA,
        0xBB, 0xCC, 0x00,
    ];
    let (rest, message) = parse_stun_message(&input).unwrap();
    assert_eq!(rest.len(), 0);
    assert_eq!(message.message_class, StunMessageClass::Request);
    assert_eq!(message.message_method, StunMessageMethod::Binding);
    assert_eq!(message.message_length, 12);
    assert_eq!(message.magic_cookie, 0x2112_A442);
    assert_eq!(message.transaction_id, &[1u8, 2, 3, 4, 5, 6, 7, 8, 9, 10, 11, 12]);
    assert_eq!(message.attributes.len(), 2);
    assert_eq!(message.attributes[0].attribute_type, 0xABCD);
    assert_eq!(message.attributes[0].attribute_length, 0);
    assert_eq!(message.attributes[0].attribute_value.len(), 0);
    assert_eq!(message.attributes[1].attribute_type, 0xEFFE);
    assert_eq!(message.attributes[1].attribute_length, 3);
    assert_eq!(message.attributes[1].attribute_value, [0xAA, 0xBB, 0xCC]);
}

#[test]
fn bytes_after_the_declared_length_are_left_over() {
    let mut input = header(0x0010, 4, STUN_MAGIC_COOKIE);
    input.extend_from_slice(&[0x00, 0x20, 0x00, 0x00]);
    input.extend_from_slice(&[0x00, 0x01, 0x00, 0x00, 0x99]);
    let (rest, message) = parse_stun_message(&input).unwrap();
    assert_eq!(rest, [0x00, 0x01, 0x00, 0x00, 0x99]);
    assert_eq!(message.message_class, StunMessageClass::Indication);
    assert_eq!(message.attributes.len(), 1);
    assert_eq!(message.attributes[0].attribute_type, 0x0020);
}

#[test]
fn message_round_trip_with_attributes() {
    let transaction_id = [0xC4; 12];
    let v1 = [1u8, 2, 3];
    let v2 = [9u8; 8];
    let message = StunMessage {
        message_class: StunMessageClass::SuccessResponse,
        message_method: StunMessageMethod::Binding,
        message_length: 20,
        magic_cookie: STUN_MAGIC_COOKIE,
        transaction_id: &transaction_id,
        attributes: vec![
            StunAttribute { attribute_type: 0x0006, attribute_length: 3, attribute_value: &v1 },
            StunAttribute { attribute_type: 0x0014, attribute_length: 8, attribute_value: &v2 },
        ],
    };
    let bytes = serialize(&message).unwrap();
    assert_eq!(bytes.len(), 40);
    assert_eq!(bytes[0..2], [0x01, 0x00]);
    assert_eq!(bytes[24..28], [1, 2, 3, 0]);
    let (rest, decoded) = parse_stun_message(&bytes).unwrap();
    assert_eq!(rest.len(), 0);
    assert_eq!(decoded.message_class, StunMessageClass::SuccessResponse);
    assert_eq!(decoded.message_length, 20);
    assert_eq!(decoded.attributes.len(), 2);
    assert_eq!(decoded.attributes[0].attribute_value, v1);
    assert_eq!(decoded.attributes[1].attribute_type, 0x0014);
    assert_eq!(decoded.attributes[1].attribute_value, v2);
}

#[test]
fn encoder_writes_the_cookie_constant_and_the_length_as_given() {
    let transaction_id = [0u8; 12];
    let message = StunMessage {
        message_class: StunMessageClass::Request,
        message_method: StunMessageMethod::Binding,
        message_length: 0x0400,
        magic_cookie: 0,
        transaction_id: &transaction_id,
        attributes: vec![],
    };
    let bytes = serialize(&message).unwrap();
    assert_eq!(bytes[2..4], [0x04, 0x00]);
    assert_eq!(bytes[4..8], [0x21, 0x12, 0xA4, 0x42]);
}

#[test]
fn serialize_into_exact_and_one_short() {
    let transaction_id = [0x01; 12];
    let value = [0xAB; 2];
    let message = StunMessage {
        message_class: StunMessageClass::ErrorResponse,
        message_method: StunMessageMethod::Binding,
        message_length: 8,
        magic_cookie: STUN_MAGIC_COOKIE,
        transaction_id: &transaction_id,
        attributes: vec![StunAttribute {
            attribute_type: 0x0009,
            attribute_length: 2,
            attribute_value: &value,
        }],
    };
    let mut exact = [0xFFu8; 28];
    assert_eq!(serialize_into(&message, &mut exact).unwrap(), 28);
    assert_eq!(exact[20..28], [0x00, 0x09, 0x00, 0x02, 0xAB, 0xAB, 0x00, 0x00]);

    let mut short = [0xFFu8; 27];
    assert!(serialize_into(&message, &mut short).is_err());

    let mut larger = [0xFFu8; 30];
    assert_eq!(serialize_into(&message, &mut larger).unwrap(), 28);
    assert_eq!(larger[28..30], [0xFF, 0xFF]);
}

#[test]
fn class_and_method_conversions() {
    assert_eq!(StunMessageClass::try_from_bits(0b10), Some(StunMessageClass::SuccessResponse));
    assert_eq!(StunMessageClass::try_from_bits(4), None);
    assert_eq!(StunMessageClass::ErrorResponse.to_bits(), 0b11);
    assert_eq!(StunMessageMethod::try_from_bits(0), Some(StunMessageMethod::Binding));
    assert_eq!(StunMessageMethod::try_from_bits(1), None);
    assert_eq!(StunMessageMethod::Binding.to_bits(), 0);
}

#[test]
fn attribute_type_codes() {
    assert_eq!(StunAttributeType::XorMappedAddress.code(), 0x0020);
    assert_eq!(StunAttributeType::Fingerprint.code(), 0x8028);
    assert_eq!(StunAttributeType::from_code(0x0006), Some(StunAttributeType::Username));
    assert_eq!(StunAttributeType::from_code(0x0002), None);
}

#[test]
fn length_as_given_versus_computed() {
    let transaction_id = [0x42; 12];
    let value = [7u8; 5];
    let message = StunMessage {
        message_class: StunMessageClass::Request,
        message_method: StunMessageMethod::Binding,
        message_length: 0,
        magic_cookie: STUN_MAGIC_COOKIE,
        transaction_id: &transaction_id,
        attributes: vec![StunAttribute {
            attribute_type: 0x0015,
            attribute_length: 5,
            attribute_value: &value,
        }],
    };
    assert_eq!(attributes_length(&message.attributes), Some(12));

    // trusted length: the stale zero is written, and the attribute bytes
    // are then left over by the decoder
    let trusted = serialize(&message).unwrap();
    assert_eq!(trusted[2..4], [0x00, 0x00]);
    let (rest, decoded) = parse_stun_message(&trusted).unwrap();
    assert_eq!(rest.len(), 12);
    assert_eq!(decoded.attributes.len(), 0);

    // computed length: the message decodes with its attribute
    let computed = serialize_with_computed_length(&message).unwrap();
    assert_eq!(computed.len(), 32);
    assert_eq!(computed[2..4], [0x00, 0x0C]);
    let (rest, decoded) = parse_stun_message(&computed).unwrap();
    assert_eq!(rest.len(), 0);
    assert_eq!(decoded.message_length, 12);
    assert_eq!(decoded.attributes.len(), 1);
    assert_eq!(decoded.attributes[0].attribute_value, value);
}

#[test]
fn computed_length_too_large() {
    let transaction_id = [0u8; 12];
    let big = vec![0u8; 0xFFFC];
    let message = StunMessage {
        message_class: StunMessageClass::Request,
        message_method: StunMessageMethod::Binding,
        message_length: 0,
        magic_cookie: STUN_MAGIC_COOKIE,
        transaction_id: &transaction_id,
        attributes: vec![StunAttribute {
            attribute_type: 0x0006,
            attribute_length: 0xFFFC,
            attribute_value: &big,
        }],
    };
    assert_eq!(attributes_length(&message.attributes), None);
    assert!(serialize_with_computed_length(&message).is_none());

    let fits = &big[..0xFFF8];
    let message = StunMessage {
        attributes: vec![StunAttribute {
            attribute_type: 0x0006,
            attribute_length: 0xFFF8,
            attribute_value: fits,
        }],
        ..message
    };
    assert_eq!(attributes_length(&message.attributes), Some(0xFFFC));
    assert_eq!(serialize_with_computed_length(&message).unwrap().len(), 20 + 0xFFFC);
}

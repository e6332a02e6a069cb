use can_viewer::transmit::{
    convert_hex_string_arr, convert_hex_string_u32, encode, is_valid_can_data, is_valid_can_id,
    EncodeError,
};

#[test]
fn standard_id_above_eleven_bits_is_rejected() {
    assert!(!is_valid_can_id(false, "800"));
    assert!(is_valid_can_id(false, "7FF"));
    assert!(is_valid_can_id(false, "7ff"));
}

#[test]
fn extended_id_limit() {
    assert!(is_valid_can_id(true, "1FFFFFFF"));
    assert!(!is_valid_can_id(true, "20000000"));
    assert!(is_valid_can_id(true, "800"));
}

#[test]
fn id_text_forms() {
    assert!(!is_valid_can_id(false, ""));
    assert!(!is_valid_can_id(false, "+"));
    assert!(is_valid_can_id(false, "+7F"));
    assert!(!is_valid_can_id(false, "-1"));
    assert!(!is_valid_can_id(false, "0x10"));
    assert!(!is_valid_can_id(false, " 10"));
    assert!(!is_valid_can_id(true, "1FFFFFFFF"));
    assert!(is_valid_can_id(false, "0000000000000000007FF"));
    assert!(!is_valid_can_id(true, "12G"));
    assert!(!is_valid_can_id(true, "1é"));
}

#[test]
fn id_parsing_agrees_with_std() {
    for text in ["0", "7FF", "+1a", "ffffffff", "100000000", "", "+", "12 ", "zz", "00ff"] {
        assert_eq!(convert_hex_string_u32(text).ok(), u32::from_str_radix(text, 16).ok());
    }
}

#[test]
fn payload_validation() {
    assert!(!is_valid_can_data("1"));
    assert!(!is_valid_can_data("001122334455667788"));
    assert!(is_valid_can_data("AABB"));
    assert!(is_valid_can_data(""));
    assert!(is_valid_can_data("0011223344556677"));
    assert!(is_valid_can_data("aAbB"));
    assert!(!is_valid_can_data("AAXB"));
    assert!(!is_valid_can_data("+A"));
    assert!(!is_valid_can_data("é"));
}

#[test]
fn payload_bytes() {
    assert_eq!(convert_hex_string_arr("AABB"), Ok(vec![0xAA, 0xBB]));
    assert_eq!(convert_hex_string_arr("0a1F"), Ok(vec![0x0A, 0x1F]));
    assert_eq!(convert_hex_string_arr(""), Ok(vec![]));
    assert_eq!(convert_hex_string_arr("ABC"), Err(EncodeError::InvalidPayload));
    assert_eq!(convert_hex_string_arr("AB C"), Err(EncodeError::InvalidPayload));
    assert_eq!(
        convert_hex_string_arr("00112233445566778899"),
        Ok(vec![0x00, 0x11, 0x22, 0x33, 0x44, 0x55, 0x66, 0x77, 0x88, 0x99])
    );
}

#[test]
fn encode_builds_the_frame() {
    let frame = encode(false, "123", "DEADBEEF").unwrap();
    assert_eq!(frame.id, 0x123);
    assert!(!frame.extended);
    assert_eq!(frame.data, vec![0xDE, 0xAD, 0xBE, 0xEF]);

    let frame = encode(true, "1ABCDEF0", "").unwrap();
    assert_eq!(frame.id, 0x1ABCDEF0);
    assert!(frame.extended);
    assert!(frame.data.is_empty());
}

#[test]
fn encode_reports_each_error() {
    assert_eq!(encode(false, "800", "00").unwrap_err(), EncodeError::InvalidIdentifier);
    assert_eq!(encode(false, "xyz", "0").unwrap_err(), EncodeError::InvalidIdentifier);
    assert_eq!(encode(false, "7FF", "0").unwrap_err(), EncodeError::InvalidPayload);
    assert_eq!(
        encode(true, "7FF", "001122334455667788").unwrap_err(),
        EncodeError::InvalidPayload
    );
}

#[test]
fn payload_validation_agrees_with_the_digit_test_of_std() {
    let alphabet = ['0', '9', 'a', 'F', 'g', '+', ' ', 'é'];
    let mut texts = vec![String::new()];
    for a in alphabet {
        texts.push(a.to_string());
        for b in alphabet {
            texts.push(format!("{}{}", a, b));
            for c in alphabet {
                texts.push(format!("{}{}{}", a, b, c));
                texts.push(format!("{}{}{}0", a, b, c));
            }
        }
    }
    texts.push("0123456789abcdef".to_string());
    texts.push("0123456789abcdef0".to_string());
    texts.push("0123456789abcdef00".to_string());
    for text in texts {
        let expected = text.len() % 2 == 0
            && text.len() <= 16
            && text.chars().all(|c| c.is_ascii_hexdigit());
        assert_eq!(is_valid_can_data(&text), expected, "{:?}", text);
    }
}

#[test]
fn an_encoded_frame_fits_the_bus() {
    let frame = encode(true, "1FFFFFFF", "0011223344556677").unwrap();
    assert_eq!(frame.id, 0x1FFF_FFFF);
    assert_eq!(frame.data, vec![0x00, 0x11, 0x22, 0x33, 0x44, 0x55, 0x66, 0x77]);
    let frame = encode(false, "+7ff", "").unwrap();
    assert_eq!(frame.id, 0x7FF);
    assert!(!frame.extended);
}

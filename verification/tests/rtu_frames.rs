use modbus_parser::frame::{is_valid_function_code, u16_from_le};
use modbus_parser::rtu::RTU_MIN_LEN;
use modbus_parser::{parse_modbus_rtu, ModbusError};

#[test]
fn rtu_rejects_three_bytes() {
    let err = parse_modbus_rtu(&[0x01, 0x03, 0x76]).unwrap_err();
    assert_eq!(err, ModbusError::InvalidLength);
}

#[test]
fn rtu_rejects_every_buffer_under_four_bytes() {
    assert_eq!(RTU_MIN_LEN, 4);
    let full: [u8; 3] = [0x01, 0x03, 0x76];
    for len in 0..RTU_MIN_LEN {
        let err = parse_modbus_rtu(&full[..len]).unwrap_err();
        assert_eq!(err, ModbusError::InvalidLength);
    }
}

#[test]
fn rtu_short_buffer_with_bad_function_code_reports_length() {
    let err = parse_modbus_rtu(&[0x01, 0x00, 0x76]).unwrap_err();
    assert_eq!(err, ModbusError::InvalidLength);
}

#[test]
fn rtu_rejects_function_code_zero() {
    let payload: Vec<u8> = vec![0x01, 0x00, 0x00, 0x6B, 0x00, 0x03, 0x76, 0x87];
    let err = parse_modbus_rtu(&payload).unwrap_err();
    assert_eq!(err, ModbusError::InvalidFunctionCode);
}

#[test]
fn rtu_rejects_function_code_128() {
    let payload: Vec<u8> = vec![0x01, 0x80, 0x00, 0x6B, 0x00, 0x03, 0x76, 0x87];
    let err = parse_modbus_rtu(&payload).unwrap_err();
    assert_eq!(err, ModbusError::InvalidFunctionCode);
}

#[test]
fn rtu_function_code_decides_for_every_value() {
    for code in 0..=255u8 {
        let payload: Vec<u8> = vec![0x11, code, 0xAA, 0x34, 0x12];
        let result = parse_modbus_rtu(&payload);
        if (1..=127).contains(&code) {
            let frame = result.unwrap();
            assert_eq!(frame.address, 0x11);
            assert_eq!(frame.function_code, code);
            assert_eq!(frame.data, vec![0xAA]);
            assert_eq!(frame.crc, Some(0x1234));
        } else {
            assert_eq!(result.unwrap_err(), ModbusError::InvalidFunctionCode);
        }
    }
}

#[test]
fn rtu_smallest_frame_has_empty_payload() {
    let frame = parse_modbus_rtu(&[0xF7, 0x7F, 0xCD, 0xAB]).unwrap();
    assert_eq!(frame.address, 0xF7);
    assert_eq!(frame.function_code, 0x7F);
    assert_eq!(frame.data, Vec::<u8>::new());
    assert_eq!(frame.crc, Some(0xABCD));
}

#[test]
fn rtu_payload_lies_between_header_and_checksum() {
    let payload: Vec<u8> = (0..40u8).map(|i| i.wrapping_mul(7).wrapping_add(1) & 0x7F | 1).collect();
    for len in RTU_MIN_LEN..=payload.len() {
        let buffer = &payload[..len];
        let frame = parse_modbus_rtu(buffer).unwrap();
        assert_eq!(frame.address, buffer[0]);
        assert_eq!(frame.function_code, buffer[1]);
        assert_eq!(frame.data.len(), len - 4);
        assert_eq!(frame.data.as_slice(), &buffer[2..len - 2]);
        let expected = buffer[len - 2] as u16 + 256 * buffer[len - 1] as u16;
        assert_eq!(frame.crc, Some(expected));
    }
}

#[test]
fn rtu_checksum_is_not_verified() {
    // The true CRC-16 of 01 03 00 6B 00 03 is 0x1774 (sent 74 17); any
    // trailing pair is handed back as read.
    let good = parse_modbus_rtu(&[0x01, 0x03, 0x00, 0x6B, 0x00, 0x03, 0x74, 0x17]).unwrap();
    let bad = parse_modbus_rtu(&[0x01, 0x03, 0x00, 0x6B, 0x00, 0x03, 0x00, 0x00]).unwrap();
    assert_eq!(good.crc, Some(0x1774));
    assert_eq!(bad.crc, Some(0x0000));
    assert_eq!(good.data, bad.data);
}

#[test]
fn rtu_decoding_is_repeatable() {
    let payload: Vec<u8> = vec![0x0A, 0x10, 0x00, 0x01, 0x00, 0x02, 0x04, 0xDE, 0xAD, 0xBE, 0xEF];
    let first = parse_modbus_rtu(&payload).unwrap();
    let second = parse_modbus_rtu(&payload).unwrap();
    assert_eq!(first.address, second.address);
    assert_eq!(first.function_code, second.function_code);
    assert_eq!(first.data, second.data);
    assert_eq!(first.crc, second.crc);
    assert_eq!(first.data, vec![0x00, 0x01, 0x00, 0x02, 0x04, 0xDE, 0xAD]);
    assert_eq!(first.crc, Some(0xEFBE));
}

#[test]
fn two_bytes_join_low_byte_first() {
    assert_eq!(u16_from_le(0x76, 0x87), 0x8776);
    assert_eq!(u16_from_le(0xFF, 0x00), 0x00FF);
    assert_eq!(u16_from_le(0x00, 0xFF), 0xFF00);
    assert_eq!(u16_from_le(0x00, 0x00), 0x0000);
    assert_eq!(u16_from_le(0xFF, 0xFF), 0xFFFF);
    assert_eq!(u16_from_le(0x01, 0x02), 513);
}

#[test]
fn two_bytes_join_as_std_joins_them() {
    for lo in 0..=255u8 {
        for hi in 0..=255u8 {
            assert_eq!(u16_from_le(lo, hi), u16::from_le_bytes([lo, hi]));
        }
    }
}

#[test]
fn function_codes_1_to_127_are_valid() {
    assert!(!is_valid_function_code(0));
    assert!(is_valid_function_code(1));
    assert!(is_valid_function_code(3));
    assert!(is_valid_function_code(127));
    assert!(!is_valid_function_code(128));
    assert!(!is_valid_function_code(255));
    for code in 0..=255u8 {
        assert_eq!(is_valid_function_code(code), code >= 1 && code <= 127);
    }
}

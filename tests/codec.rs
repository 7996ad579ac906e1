use plc_bridge::codec::{
    create_read_request, decode_request, extract_response_value, u16_from_be, DecodeError,
    FunctionCode, Request,
};
use plc_bridge::{create_read_holding_registers_response, create_write_single_register_response};

#[test]
fn read_response_for_42() {
    assert_eq!(
        create_read_holding_registers_response(42),
        vec![0x00, 0x00, 0x00, 0x00, 0x00, 0x05, 0x01, 0x03, 0x02, 0x00, 0x2A]
    );
}

#[test]
fn read_response_high_byte_first() {
    assert_eq!(
        create_read_holding_registers_response(0x1234),
        vec![0x00, 0x00, 0x00, 0x00, 0x00, 0x05, 0x01, 0x03, 0x02, 0x12, 0x34]
    );
}

#[test]
fn read_response_round_trip() {
    for v in [0u16, 1, 42, 200, 255, 256, 0x7B00, 65534, 65535] {
        let frame = create_read_holding_registers_response(v);
        assert_eq!(extract_response_value(&frame), Some(v));
    }
}

#[test]
fn write_response_echoes_header_and_trailer() {
    let request = [0x00u8, 0x02, 0x00, 0x00, 0x00, 0x06];
    assert_eq!(
        create_write_single_register_response(&request),
        vec![0x00, 0x02, 0x00, 0x00, 0x00, 0x06, 0x00, 0x06, 0x00, 0x00]
    );
}

#[test]
fn write_response_of_empty_header() {
    assert_eq!(create_write_single_register_response(&[]), vec![0x00, 0x06, 0x00, 0x00]);
}

#[test]
fn decode_too_short_for_every_length_and_code() {
    for len in 0usize..12 {
        for code in [0x03u8, 0x06, 0x04, 0x00, 0xFF] {
            let mut bytes = vec![0u8; len];
            if len > 7 {
                bytes[7] = code;
            }
            assert_eq!(decode_request(&bytes), Err(DecodeError::TooShort));
        }
    }
}

#[test]
fn decode_read_request() {
    let bytes = [0x00u8, 0x01, 0x00, 0x00, 0x00, 0x06, 0x01, 0x03, 0x00, 0x00, 0x00, 0x01];
    assert_eq!(
        decode_request(&bytes),
        Ok(Request { function: FunctionCode::ReadHoldingRegisters, value: 0 })
    );
}

#[test]
fn decode_write_request() {
    let bytes = [0x00u8, 0x02, 0x00, 0x00, 0x00, 0x06, 0x01, 0x06, 0x00, 0x00, 0x01, 0x02];
    assert_eq!(
        decode_request(&bytes),
        Ok(Request { function: FunctionCode::WriteSingleRegister, value: 0x0102 })
    );
}

#[test]
fn decode_unsupported_code_is_not_an_error() {
    let bytes = [0x00u8, 0x01, 0x00, 0x00, 0x00, 0x06, 0x01, 0x04, 0x00, 0x00, 0x00, 0x01];
    assert_eq!(
        decode_request(&bytes),
        Ok(Request { function: FunctionCode::Unsupported(0x04), value: 0 })
    );
}

#[test]
fn decode_longer_frame() {
    let bytes = [0x00u8, 0x02, 0x00, 0x00, 0x00, 0x06, 0x01, 0x06, 0x00, 0x00, 0xFF, 0xFF, 0x99];
    assert_eq!(
        decode_request(&bytes),
        Ok(Request { function: FunctionCode::WriteSingleRegister, value: 65535 })
    );
}

#[test]
fn read_request_bytes() {
    assert_eq!(
        create_read_request(),
        vec![0x00, 0x01, 0x00, 0x00, 0x00, 0x06, 0x01, 0x03, 0x00, 0x00, 0x00, 0x01]
    );
}

#[test]
fn response_value_needs_eleven_bytes() {
    let short = [0x00u8, 0x00, 0x00, 0x00, 0x00, 0x05, 0x01, 0x03, 0x02, 0x00];
    assert_eq!(extract_response_value(&short), None);
    assert_eq!(extract_response_value(&[]), None);
}

#[test]
fn joins_bytes_big_endian() {
    assert_eq!(u16_from_be(0x00, 0x7B), 123);
    assert_eq!(u16_from_be(0xFF, 0xFF), 65535);
    assert_eq!(u16_from_be(0x01, 0x00), 256);
}

//! Modbus TCP: a six-byte header (transaction identifier, protocol
//! identifier, length), the unit identifier, the function code, and the
//! payload. There is no checksum; the transport answers for integrity.

use crate::frame::{
    decoding, is_valid_function_code, valid_function_code, DecodedFrame, ModbusError,
    ModbusPacketInfo,
};
use vstd::prelude::*;
use vstd::slice::slice_to_vec;

verus! {

/// The bytes in front of the unit identifier. A decoder skips them: none of
/// the three header fields reaches the decoded frame, and the length field is
/// not held against the size of the buffer.
pub const TCP_HEADER_LEN: usize = 6;

/// The shortest TCP frame: header, unit identifier and function code, no
/// payload.
pub const TCP_MIN_LEN: usize = 8;

/// The fields of a TCP frame, read off a buffer of at least [`TCP_MIN_LEN`]
/// bytes. The payload is all that follows the function code.
pub open spec fn tcp_frame(bytes: Seq<u8>) -> DecodedFrame
    recommends
        bytes.len() >= TCP_MIN_LEN,
{
    DecodedFrame {
        address: bytes[6],
        function_code: bytes[7],
        data: bytes.subrange(8, bytes.len() as int),
        crc: None,
    }
}

/// What decoding a buffer as a TCP frame gives. The length is tested before
/// the function code, and the function code before the payload is read.
pub open spec fn decode_tcp(bytes: Seq<u8>) -> Result<DecodedFrame, ModbusError> {
    if bytes.len() < TCP_MIN_LEN {
        Err(ModbusError::InvalidLength)
    } else if !valid_function_code(bytes[7]) {
        Err(ModbusError::InvalidFunctionCode)
    } else {
        Ok(tcp_frame(bytes))
    }
}

/// Decodes one Modbus TCP message.
pub fn parse_modbus_tcp(payload: &[u8]) -> (result: Result<ModbusPacketInfo, ModbusError>)
    ensures
        decoding(result) == decode_tcp(payload@),
{
    let len: usize = payload.len();
    if len < TCP_MIN_LEN {
        return Err(ModbusError::InvalidLength);
    }
    let unit_id: u8 = payload[TCP_HEADER_LEN];
    let function_code: u8 = payload[TCP_HEADER_LEN + 1];
    if !is_valid_function_code(function_code) {
        return Err(ModbusError::InvalidFunctionCode);
    }
    let data = slice_to_vec(&payload[TCP_MIN_LEN..len]);
    Ok(ModbusPacketInfo { address: unit_id, function_code, data, crc: None })
}

} // verus!

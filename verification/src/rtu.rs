//! Modbus RTU: address, function code, payload, and a trailing 16-bit
//! checksum sent low byte first.

use crate::frame::{
    decoding, is_valid_function_code, le_u16, u16_from_le, valid_function_code, DecodedFrame,
    ModbusError, ModbusPacketInfo,
};
use vstd::prelude::*;
use vstd::slice::slice_to_vec;

verus! {

/// The shortest RTU frame: address, function code and checksum, no payload.
pub const RTU_MIN_LEN: usize = 4;

/// The fields of an RTU frame, read off a buffer of at least
/// [`RTU_MIN_LEN`] bytes.
pub open spec fn rtu_frame(bytes: Seq<u8>) -> DecodedFrame
    recommends
        bytes.len() >= RTU_MIN_LEN,
{
    DecodedFrame {
        address: bytes[0],
        function_code: bytes[1],
        data: bytes.subrange(2, bytes.len() - 2),
        crc: Some(le_u16(bytes[bytes.len() - 2], bytes[bytes.len() - 1])),
    }
}

/// What decoding a buffer as an RTU frame gives. The length is tested before
/// the function code, and the function code before anything else is read.
pub open spec fn decode_rtu(bytes: Seq<u8>) -> Result<DecodedFrame, ModbusError> {
    if bytes.len() < RTU_MIN_LEN {
        Err(ModbusError::InvalidLength)
    } else if !valid_function_code(bytes[1]) {
        Err(ModbusError::InvalidFunctionCode)
    } else {
        Ok(rtu_frame(bytes))
    }
}

/// Decodes one RTU frame.
///
/// The checksum is handed back as it was sent. It is not compared with one
/// computed over the frame: a caller that relies on integrity checks it.
pub fn parse_modbus_rtu(payload: &[u8]) -> (result: Result<ModbusPacketInfo, ModbusError>)
    ensures
        decoding(result) == decode_rtu(payload@),
{
    let len: usize = payload.len();
    if len < RTU_MIN_LEN {
        return Err(ModbusError::InvalidLength);
    }
    let address: u8 = payload[0];
    let function_code: u8 = payload[1];
    if !is_valid_function_code(function_code) {
        return Err(ModbusError::InvalidFunctionCode);
    }
    let data = slice_to_vec(&payload[2..len - 2]);
    let crc: u16 = u16_from_le(payload[len - 2], payload[len - 1]);
    Ok(ModbusPacketInfo { address, function_code, data, crc: Some(crc) })
}

} // verus!

//! Modbus RTU over TCP: the six-byte header of a TCP frame, followed by a
//! complete RTU frame with its own checksum.

use crate::frame::{
    decoding, le_u16, valid_function_code, DecodedFrame, ModbusError, ModbusPacketInfo,
};
use crate::laws::lemma_rtu_over_tcp_is_rtu_behind_header;
use crate::rtu::{decode_rtu, parse_modbus_rtu};
use crate::tcp::{TCP_HEADER_LEN, TCP_MIN_LEN};
use vstd::prelude::*;

verus! {

/// The shortest buffer that decodes: the header and the shortest RTU frame.
pub const RTU_OVER_TCP_MIN_LEN: usize = 10;

/// The fields of an RTU frame behind a TCP-style header, by their places in
/// the whole buffer, which holds at least [`RTU_OVER_TCP_MIN_LEN`] bytes.
pub open spec fn rtu_over_tcp_frame(bytes: Seq<u8>) -> DecodedFrame
    recommends
        bytes.len() >= RTU_OVER_TCP_MIN_LEN,
{
    DecodedFrame {
        address: bytes[6],
        function_code: bytes[7],
        data: bytes.subrange(8, bytes.len() - 2),
        crc: Some(le_u16(bytes[bytes.len() - 2], bytes[bytes.len() - 1])),
    }
}

/// What decoding a buffer as RTU over TCP gives. A buffer of 8 or 9 bytes
/// passes the test on the whole buffer and fails the one on the RTU frame
/// inside it, with the same error.
pub open spec fn decode_rtu_over_tcp(bytes: Seq<u8>) -> Result<DecodedFrame, ModbusError> {
    if bytes.len() < RTU_OVER_TCP_MIN_LEN {
        Err(ModbusError::InvalidLength)
    } else if !valid_function_code(bytes[7]) {
        Err(ModbusError::InvalidFunctionCode)
    } else {
        Ok(rtu_over_tcp_frame(bytes))
    }
}

/// Decodes one RTU frame that follows a TCP-style header.
///
/// The header is skipped without being read, and the rest is decoded as
/// [`parse_modbus_rtu`] decodes it.
pub fn parse_modbus_rtu_over_tcp(payload: &[u8]) -> (result: Result<
    ModbusPacketInfo,
    ModbusError,
>)
    ensures
        decoding(result) == decode_rtu_over_tcp(payload@),
        payload@.len() < TCP_MIN_LEN ==> result == Err::<ModbusPacketInfo, ModbusError>(
            ModbusError::InvalidLength,
        ),
        payload@.len() >= TCP_MIN_LEN ==> decoding(result) == decode_rtu(
            payload@.skip(TCP_HEADER_LEN as int),
        ),
{
    let len: usize = payload.len();
    if len < TCP_MIN_LEN {
        return Err(ModbusError::InvalidLength);
    }
    proof {
        lemma_rtu_over_tcp_is_rtu_behind_header(payload@);
        assert(payload@.subrange(TCP_HEADER_LEN as int, len as int) == payload@.skip(
            TCP_HEADER_LEN as int,
        ));
    }
    parse_modbus_rtu(&payload[TCP_HEADER_LEN..len])
}

} // verus!

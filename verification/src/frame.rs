//! The decoded frame, the error taxonomy, and the rules shared by all variants.

use vstd::prelude::*;

verus! {

/// Why a buffer was rejected.
#[derive(Debug, Clone, Copy, PartialEq, Eq, Structural)]
pub enum ModbusError {
    /// The buffer is shorter than the variant's smallest frame.
    InvalidLength,
    /// The function code byte is 0 or above 127.
    InvalidFunctionCode,
    /// Reserved for a checksum mismatch. No decoder computes a checksum, so
    /// none reports this.
    InvalidCRC,
}

/// A decoded frame.
#[derive(Debug)]
pub struct ModbusPacketInfo {
    /// RTU station address, or TCP unit identifier.
    pub address: u8,
    /// Function code, between 1 and 127 in every frame that a decoder returns.
    pub function_code: u8,
    /// The payload bytes.
    pub data: Vec<u8>,
    /// The trailing checksum as transmitted; `None` for plain TCP frames.
    pub crc: Option<u16>,
}

/// The mathematical content of a [`ModbusPacketInfo`].
pub struct DecodedFrame {
    /// RTU station address, or TCP unit identifier.
    pub address: u8,
    /// Function code.
    pub function_code: u8,
    /// The payload bytes, in the order received.
    pub data: Seq<u8>,
    /// The trailing checksum as transmitted, where the variant has one.
    pub crc: Option<u16>,
}

impl View for ModbusPacketInfo {
    type V = DecodedFrame;

    open spec fn view(&self) -> DecodedFrame {
        DecodedFrame {
            address: self.address,
            function_code: self.function_code,
            data: self.data@,
            crc: self.crc,
        }
    }
}

/// What a decoder's result says, with the frame taken by its view.
pub open spec fn decoding(result: Result<ModbusPacketInfo, ModbusError>) -> Result<
    DecodedFrame,
    ModbusError,
> {
    match result {
        Ok(packet) => Ok(packet@),
        Err(e) => Err(e),
    }
}

/// Function codes 1 to 127 are accepted; 0 and 128 to 255 are not.
pub open spec fn valid_function_code(code: u8) -> bool {
    1 <= code <= 127
}

/// The 16-bit value whose low byte is `lo` and whose high byte is `hi`.
pub open spec fn le_u16(lo: u8, hi: u8) -> u16 {
    (lo + 256 * hi) as u16
}

/// Tests a function code byte.
pub fn is_valid_function_code(code: u8) -> (ok: bool)
    ensures
        ok == valid_function_code(code),
{
    code != 0 && code <= 127
}

/// Joins two bytes, low byte first, into a 16-bit value.
pub fn u16_from_le(lo: u8, hi: u8) -> (value: u16)
    ensures
        value == le_u16(lo, hi),
        value == lo + 256 * hi,
{
    let low: u16 = lo as u16;
    let high: u16 = hi as u16;
    low + 256 * high
}

} // verus!

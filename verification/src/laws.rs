//! What holds of the three decoders on every buffer, proved from the spec
//! functions that their contracts are stated over.

use crate::frame::{le_u16, valid_function_code, ModbusError};
use crate::rtu::decode_rtu;
use crate::rtu_over_tcp::decode_rtu_over_tcp;
use crate::tcp::decode_tcp;
use vstd::prelude::*;

verus! {

/// A buffer shorter than a variant's smallest frame (4 bytes for RTU, 8 for
/// TCP and for RTU over TCP) is rejected as `InvalidLength`.
pub proof fn lemma_short_buffer_is_invalid_length(bytes: Seq<u8>)
    ensures
        bytes.len() < 4 ==> decode_rtu(bytes) matches Err(ModbusError::InvalidLength),
        bytes.len() < 8 ==> decode_tcp(bytes) matches Err(ModbusError::InvalidLength),
        bytes.len() < 8 ==> decode_rtu_over_tcp(bytes) matches Err(ModbusError::InvalidLength),
{
}

/// An RTU buffer of at least 4 bytes whose function code byte is 0 or at
/// least 128 is rejected as `InvalidFunctionCode`, whatever else it holds.
pub proof fn lemma_rtu_bad_function_code(bytes: Seq<u8>)
    requires
        bytes.len() >= 4,
        bytes[1] == 0 || bytes[1] >= 128,
    ensures
        decode_rtu(bytes) matches Err(ModbusError::InvalidFunctionCode),
{
}

/// A TCP buffer of at least 8 bytes whose function code byte is 0 or at
/// least 128 is rejected as `InvalidFunctionCode`, whatever else it holds.
pub proof fn lemma_tcp_bad_function_code(bytes: Seq<u8>)
    requires
        bytes.len() >= 8,
        bytes[7] == 0 || bytes[7] >= 128,
    ensures
        decode_tcp(bytes) matches Err(ModbusError::InvalidFunctionCode),
{
}

/// An RTU-over-TCP buffer that is long enough for its header and for the
/// shortest RTU frame, and whose function code byte is 0 or at least 128, is
/// rejected as `InvalidFunctionCode`. With 8 or 9 bytes the RTU frame behind
/// the header is too short, and the length is reported first.
pub proof fn lemma_rtu_over_tcp_bad_function_code(bytes: Seq<u8>)
    requires
        bytes.len() >= 10,
        bytes[7] == 0 || bytes[7] >= 128,
    ensures
        decode_rtu_over_tcp(bytes) matches Err(ModbusError::InvalidFunctionCode),
{
}

/// In a valid RTU buffer the payload is what lies between the two leading
/// bytes and the two trailing bytes, and the checksum is the two trailing
/// bytes read low byte first.
pub proof fn lemma_rtu_payload_and_checksum(bytes: Seq<u8>)
    requires
        bytes.len() >= 4,
        1 <= bytes[1] <= 127,
    ensures
        decode_rtu(bytes) matches Ok(frame) && {
            &&& frame.address == bytes[0]
            &&& frame.function_code == bytes[1]
            &&& frame.data == bytes.subrange(2, bytes.len() - 2)
            &&& frame.data.len() == bytes.len() - 4
            &&& forall|i: int| 0 <= i < frame.data.len() ==> frame.data[i] == bytes[i + 2]
            &&& frame.crc == Some(le_u16(bytes[bytes.len() - 2], bytes[bytes.len() - 1]))
            &&& frame.crc matches Some(crc) && crc == bytes[bytes.len() - 2] + 256
                * bytes[bytes.len() - 1]
        },
{
}

/// In a valid TCP buffer the payload is every byte from offset 8 on, and
/// there is no checksum.
pub proof fn lemma_tcp_payload_and_no_checksum(bytes: Seq<u8>)
    requires
        bytes.len() >= 8,
        1 <= bytes[7] <= 127,
    ensures
        decode_tcp(bytes) matches Ok(frame) && {
            &&& frame.address == bytes[6]
            &&& frame.function_code == bytes[7]
            &&& frame.data == bytes.skip(8)
            &&& frame.data.len() == bytes.len() - 8
            &&& forall|i: int| 0 <= i < frame.data.len() ==> frame.data[i] == bytes[i + 8]
            &&& frame.crc is None
        },
{
}

/// Decoding as TCP does not depend on the six header bytes: two buffers that
/// differ only there, in the declared length or in the identifiers, decode
/// alike.
pub proof fn lemma_tcp_header_is_ignored(a: Seq<u8>, b: Seq<u8>)
    requires
        a.len() == b.len(),
        forall|i: int| 6 <= i < a.len() ==> a[i] == b[i],
    ensures
        decode_tcp(a) == decode_tcp(b),
{
    if a.len() >= 8 {
        assert(a.subrange(8, a.len() as int) =~= b.subrange(8, b.len() as int));
    }
}

/// From 8 bytes on, decoding a buffer as RTU over TCP is decoding what
/// follows its six header bytes as RTU.
pub proof fn lemma_rtu_over_tcp_is_rtu_behind_header(bytes: Seq<u8>)
    requires
        bytes.len() >= 8,
    ensures
        decode_rtu_over_tcp(bytes) == decode_rtu(bytes.skip(6)),
{
    let inner = bytes.skip(6);
    if inner.len() >= 4 {
        assert(inner.subrange(2, inner.len() - 2) =~= bytes.subrange(8, bytes.len() - 2));
    }
}

/// A decoder accepts a buffer exactly when it is long enough and its function
/// code is between 1 and 127. The frame it then gives carries that function
/// code, and a checksum unless the variant is plain TCP.
pub proof fn lemma_accepted_buffers(bytes: Seq<u8>)
    ensures
        decode_rtu(bytes) is Ok <==> bytes.len() >= 4 && 1 <= bytes[1] <= 127,
        decode_tcp(bytes) is Ok <==> bytes.len() >= 8 && 1 <= bytes[7] <= 127,
        decode_rtu_over_tcp(bytes) is Ok <==> bytes.len() >= 10 && 1 <= bytes[7] <= 127,
        decode_rtu(bytes) matches Ok(frame) ==> valid_function_code(frame.function_code)
            && frame.crc is Some,
        decode_tcp(bytes) matches Ok(frame) ==> valid_function_code(frame.function_code)
            && frame.crc is None,
        decode_rtu_over_tcp(bytes) matches Ok(frame) ==> valid_function_code(frame.function_code)
            && frame.crc is Some,
{
}

/// No decoder reports `InvalidCRC`: the checksum is extracted, never checked.
pub proof fn lemma_checksum_is_never_rejected(bytes: Seq<u8>)
    ensures
        !(decode_rtu(bytes) matches Err(ModbusError::InvalidCRC)),
        !(decode_tcp(bytes) matches Err(ModbusError::InvalidCRC)),
        !(decode_rtu_over_tcp(bytes) matches Err(ModbusError::InvalidCRC)),
{
}

} // verus!

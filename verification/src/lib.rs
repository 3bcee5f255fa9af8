//! Decoding of Modbus frames in three wire variants: RTU, TCP and RTU carried
//! over a TCP-style header.
//!
//! Each decoder is a pure function from a byte buffer to a decoded frame or a
//! classified error. What a decoder returns is fixed by a spec function over
//! `Seq<u8>`, stated in the module of the variant; `laws` holds what follows
//! for every buffer.

pub mod frame;
pub mod laws;
pub mod rtu;
pub mod rtu_over_tcp;
pub mod tcp;

pub use frame::{DecodedFrame, ModbusError, ModbusPacketInfo};
pub use rtu::parse_modbus_rtu;
pub use rtu_over_tcp::parse_modbus_rtu_over_tcp;
pub use tcp::parse_modbus_tcp;

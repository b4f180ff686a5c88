//! Driver for the basic temperature chip.
//!
//! Stateless: every read selects the chip's fixed bus address, reads 2 bytes
//! from the pointer register, assembles a 12-bit two's-complement raw value
//! and reports it in sixteenths of a degree Celsius (the chip's resolution,
//! 0.0625 degrees per least-significant bit).

use vstd::prelude::*;

verus! {

use crate::transport::{Transport, TransportError};

/// Fixed bus address of the chip.
pub const TMP102_ADDR: u16 = 0x48;

/// The temperature register's pointer byte.
pub const TMP102_REG_TEMPERATURE: u8 = 0x00;

/// A reading in whole degrees, kept for callers that only want a coarse
/// value.
#[derive(Clone, Copy, PartialEq, Eq, Structural, Debug)]
pub struct TMP102Data {
    pub temp: i8,
}

/// The 12-bit raw value assembled from the 2-byte register read: the first
/// byte whole, the top half of the second.
pub open spec fn spec_tmp102_raw(b0: u8, b1: u8) -> int {
    b0 * 16 + b1 / 16
}

/// Two's-complement interpretation of the 12-bit raw value, in sixteenths of
/// a degree Celsius: values with bit 11 set are negative.
pub open spec fn spec_tmp102_sixteenths(raw: int) -> int {
    if raw < 0x800 {
        raw
    } else {
        raw - 0x1000
    }
}

/// Decode one 2-byte register read into sixteenths of a degree Celsius.
/// Multiply by 0.0625 for degrees.
pub fn decode_tmp102(b0: u8, b1: u8) -> (t: i16)
    ensures
        t as int == spec_tmp102_sixteenths(spec_tmp102_raw(b0, b1)),
        -2048 <= t <= 2047,
{
    let raw: u16 = (b0 as u16) * 16 + (b1 as u16) / 16;
    if raw < 0x800 {
        raw as i16
    } else {
        (raw as i32 - 0x1000) as i16
    }
}

/// Driver instance for the basic temperature chip: owns its transport and
/// nothing else; every read is independent and idempotent.
pub struct TMP102<T: Transport> {
    /// The bus the chip is reached through.
    pub bus: T,
}

impl<T: Transport> TMP102<T> {
    /// A driver for the chip's fixed address.
    pub fn new(bus: T) -> TMP102<T> {
        TMP102 { bus }
    }

    /// Select the chip, read 2 bytes from the temperature register, and
    /// decode them. The result is in sixteenths of a degree Celsius.
    pub fn read(&mut self) -> (r: Result<i16, TransportError>)
        ensures
            r matches Ok(t) ==> (exists|b0: u8, b1: u8|
                t as int == spec_tmp102_sixteenths(spec_tmp102_raw(b0, b1))) && -2048 <= t <= 2047,
    {
        match self.bus.set_target(TMP102_ADDR) {
            Ok(()) => {}
            Err(e) => {
                return Err(e);
            }
        }
        let buf = match self.bus.write_then_read(TMP102_REG_TEMPERATURE, 2) {
            Ok(b) => b,
            Err(e) => {
                return Err(e);
            }
        };
        if buf.len() != 2 {
            return Err(TransportError);
        }
        let t = decode_tmp102(buf[0], buf[1]);
        proof {
            let b0 = buf[0];
            let b1 = buf[1];
            assert(t as int == spec_tmp102_sixteenths(spec_tmp102_raw(b0, b1)));
        }
        Ok(t)
    }
}

} // verus!

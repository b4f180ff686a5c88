//! The synchronous register transport the drivers speak through.
//!
//! The bus is an external collaborator: open the connection, select a target
//! address, exchange fixed-length byte buffers. None of that can be reasoned
//! about here, so the trait below carries no contracts at all. Driver
//! contracts state what holds of every possible reply; tests drive the
//! drivers with scripted implementations, and the surrounding application
//! supplies the real bus.

use vstd::prelude::*;

verus! {

/// A failed bus exchange. The drivers never retry: a failure surfaces
/// immediately as an error of the operation that met it. Whatever detail the
/// underlying bus reported stays on the caller's side of the trait.
#[derive(Clone, Copy, PartialEq, Eq, Structural, Debug)]
pub struct TransportError;

/// Request/response exchanges over a byte-addressed bus, plus the timed waits
/// the datasheets demand between control operations.
///
/// No method carries a contract: a reply may be anything, and the drivers are
/// verified for every value that comes back.
pub trait Transport {
    /// Select the bus address that subsequent exchanges talk to.
    fn set_target(&mut self, address: u16) -> Result<(), TransportError>;

    /// Raw write of `data` to the selected target.
    fn write(&mut self, data: &[u8]) -> Result<(), TransportError>;

    /// Write the register byte, then `data`, as one exchange.
    fn write_block(&mut self, register: u8, data: &[u8]) -> Result<(), TransportError>;

    /// Write the register byte, then read `len` bytes back.
    fn write_then_read(&mut self, register: u8, len: usize) -> Result<Vec<u8>, TransportError>;

    /// Read one byte from a register.
    fn read_byte(&mut self, register: u8) -> Result<u8, TransportError>;

    /// Read a 16-bit word from a register.
    fn read_word(&mut self, register: u8) -> Result<u16, TransportError>;

    /// Write a 16-bit word to a register.
    fn write_word(&mut self, register: u8, value: u16) -> Result<(), TransportError>;

    /// Block for at least `us` microseconds. Settle waits are mandatory
    /// minimum delays, not cancellable.
    fn wait_us(&mut self, us: u64);
}

} // verus!

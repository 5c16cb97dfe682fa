//! Addressing of the two-kilobyte ferroelectric memory chip.
//!
//! The chip is addressed by an eleven-bit memory address: its top three
//! bits ride inside the bus address byte as the page, its low byte goes
//! out as the word address. Reads longer than the chip rejects are
//! refused outright rather than wrapped.

use vstd::prelude::*;

use crate::arbiter::BusError;

verus! {

/// The chip's fixed bus-address high bits.
pub const FM24CL16B_ADDR: u8 = 0x0a;

/// A failure while reading the memory.
#[derive(Debug, Copy, Clone, PartialEq, Eq, Structural)]
pub enum Error {
    I2cError(BusError),
    /// The caller's buffer is larger than the memory.
    InvalidBufferSize,
}

impl crate::PeripheralError for Error {

}

/// An eleven-bit memory address.
#[derive(Debug, Clone, Copy, PartialEq, Eq, Structural)]
pub struct MemoryAddress(pub u16);

impl MemoryAddress {
    /// The largest valid address.
    pub const MAX: u16 = 2047;

    /// A validated address: values beyond the memory are rejected.
    pub fn new(value: u16) -> (r: Result<MemoryAddress, &'static str>)
        ensures
            value <= 2047 <==> r is Ok,
            r matches Ok(a) ==> a.0 == value,
    {
        if value > MemoryAddress::MAX {
            Err("value exceeds maximum of 2047")
        } else {
            Ok(MemoryAddress(value))
        }
    }

    /// The address advanced by a read of this many bytes, wrapping as the
    /// chip's internal counter does.
    pub fn advance(&self, count: u16) -> (r: MemoryAddress)
        ensures
            r.0 == ((self.0 + count) % 0x10000) % 2047,
    {
        let sum: u32 = self.0 as u32 + count as u32;
        let wrapped: u16 = (sum % 0x10000) as u16;
        MemoryAddress(wrapped % 2047)
    }
}

/// The bus address byte that reaches an address's page: the chip's fixed
/// bits over the address's top three bits.
pub open spec fn address_byte_of(address: MemoryAddress) -> u8 {
    (FM24CL16B_ADDR << 3u8) | (((address.0 >> 8u16) & 0x07u16) as u8)
}

/// Builds the bus address byte that reaches an address's page.
pub fn create_address(address: &MemoryAddress) -> (r: u8)
    ensures
        r == address_byte_of(*address),
{
    let page = #[verifier::truncate] (((address.0 >> 8) & 0x07) as u8);
    (FM24CL16B_ADDR << 3) | page
}

/// The word byte of an address: its low eight bits.
pub fn create_word(address: &MemoryAddress) -> (r: u8)
    ensures
        r == (address.0 & 0xffu16) as u8,
{
    #[verifier::truncate]
    ((address.0 & 0xff) as u8)
}

/// Validates a read buffer: the chip serves at most its whole memory in
/// one read.
pub fn check_buffer_len(len: usize) -> (r: Result<(), Error>)
    ensures
        r is Ok <==> len <= 2048,
        r is Err ==> r == Err::<(), Error>(Error::InvalidBufferSize),
{
    if len > 2048 {
        Err(Error::InvalidBufferSize)
    } else {
        Ok(())
    }
}

/// The memory driver's mirror of the chip's internal address counter,
/// kept so chained reads can be planned without touching the bus.
pub struct Fm24cl16b {
    pub memory_address: MemoryAddress,
}

impl Fm24cl16b {
    /// At power-on the chip's counter is taken to sit at address zero.
    pub fn new() -> (r: Fm24cl16b)
        ensures
            r.memory_address.0 == 0,
    {
        Fm24cl16b { memory_address: MemoryAddress(0) }
    }

    /// Plans a read of `len` bytes at the chip's internal address: hands
    /// back the bus address byte to read from and advances the mirrored
    /// counter as the chip's own will. A buffer larger than the memory
    /// is refused and nothing moves.
    pub fn read_current(&mut self, len: usize) -> (r: Result<u8, Error>)
        ensures
            len > 2048 ==> r == Err::<u8, Error>(Error::InvalidBufferSize) && *final(self)
                == *old(self),
            len <= 2048 ==> {
                &&& r == Ok::<u8, Error>(address_byte_of(old(self).memory_address))
                &&& final(self).memory_address.0 == ((old(self).memory_address.0 + len)
                    % 0x10000) % 2047
            },
    {
        if len > 2048 {
            return Err(Error::InvalidBufferSize);
        }
        let address = create_address(&self.memory_address);
        self.memory_address = self.memory_address.advance(len as u16);
        Ok(address)
    }

    /// Plans a read of `len` bytes from a fresh address: hands back the
    /// bus address byte and the word byte that set the chip's counter,
    /// which then advances past the read. An oversized buffer is refused
    /// after the counter has already been retargeted, as the chip's own
    /// counter would have been.
    pub fn read_random(&mut self, new_address: MemoryAddress, len: usize) -> (r: Result<
        (u8, u8),
        Error,
    >)
        ensures
            final(self).memory_address.0 == if len > 2048 {
                new_address.0 as int
            } else {
                ((new_address.0 + len) % 0x10000) % 2047
            },
            len > 2048 ==> r == Err::<(u8, u8), Error>(Error::InvalidBufferSize),
            len <= 2048 ==> r == Ok::<(u8, u8), Error>(
                (address_byte_of(new_address), (new_address.0 & 0xffu16) as u8),
            ),
    {
        let address = create_address(&new_address);
        let word = create_word(&new_address);
        self.memory_address = new_address;
        if len > 2048 {
            return Err(Error::InvalidBufferSize);
        }
        self.memory_address = self.memory_address.advance(len as u16);
        Ok((address, word))
    }
}

} // verus!

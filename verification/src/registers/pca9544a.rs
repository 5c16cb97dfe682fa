//! The control register of the four-channel bus multiplexer chip.
//!
//! One byte controls the chip: bit 2 enables the multiplexer, bits 1..0
//! pick the channel, and the low nibble also mirrors the interrupt
//! inputs when read back.

use vstd::prelude::*;

use crate::arbiter::BusError;

verus! {

/// A multiplexer channel, or none while the multiplexer is disabled.
#[derive(Debug, Copy, Clone, PartialEq, Eq, Structural)]
pub enum Channel {
    Disabled,
    Channel0,
    Channel1,
    Channel2,
    Channel3,
}

/// A failure while talking to the multiplexer chip itself.
#[derive(Debug, Copy, Clone, PartialEq, Eq, Structural)]
pub enum Error {
    I2cError(BusError),
}

impl crate::PeripheralError for Error {

}

/// The control byte that selects a channel: the enable bit plus the two
/// channel-select bits.
pub open spec fn channel_bits(channel: Channel) -> u8 {
    match channel {
        Channel::Disabled => 0,
        Channel::Channel0 => 4,
        Channel::Channel1 => 5,
        Channel::Channel2 => 6,
        Channel::Channel3 => 7,
    }
}

/// The channel a control byte's low three bits name: bit 2 clear means
/// none is selected, else bits 1..0 pick one of the four.
pub open spec fn channel_of_bits(bits: u8) -> Channel {
    if bits & 4 == 0 {
        Channel::Disabled
    } else if bits & 2 == 0 && bits & 1 == 0 {
        Channel::Channel0
    } else if bits & 2 == 0 {
        Channel::Channel1
    } else if bits & 1 == 0 {
        Channel::Channel2
    } else {
        Channel::Channel3
    }
}

/// The interrupt flags mirrored in the low nibble of the control byte.
#[derive(Debug, Copy, Clone, PartialEq, Eq, Structural)]
pub struct InterruptFlags {
    pub bits: u8,
}

/// The multiplexer's one control register.
#[derive(Debug, Copy, Clone, PartialEq, Eq, Structural)]
pub struct ControlRegister(pub u8);

impl ControlRegister {
    /// Sets the bits that route the given channel; selecting a channel
    /// raises the enable bit and its channel bits, selecting none drops
    /// the enable bit. Other bits keep their value.
    pub fn set_channel(&mut self, channel: Channel)
        ensures
            final(self).0 == match channel {
                Channel::Disabled => old(self).0 & 0xfbu8,
                Channel::Channel0 => old(self).0 | 4u8,
                Channel::Channel1 => old(self).0 | 5u8,
                Channel::Channel2 => old(self).0 | 6u8,
                Channel::Channel3 => old(self).0 | 7u8,
            },
    {
        match channel {
            Channel::Disabled => {
                self.0 = self.0 & 0xfb;
            },
            Channel::Channel0 => {
                self.0 = self.0 | 4;
            },
            Channel::Channel1 => {
                self.0 = self.0 | 5;
            },
            Channel::Channel2 => {
                self.0 = self.0 | 6;
            },
            Channel::Channel3 => {
                self.0 = self.0 | 7;
            },
        }
    }

    /// The channel this register currently routes.
    pub fn get_channel(&self) -> (r: Channel)
        ensures
            r == channel_of_bits(self.0),
    {
        if self.0 & 4 == 0 {
            Channel::Disabled
        } else if self.0 & 2 == 0 && self.0 & 1 == 0 {
            Channel::Channel0
        } else if self.0 & 2 == 0 {
            Channel::Channel1
        } else if self.0 & 1 == 0 {
            Channel::Channel2
        } else {
            Channel::Channel3
        }
    }

    /// The interrupt flags read from the register's low nibble.
    pub fn get_interrupt_flags(&self) -> (r: InterruptFlags)
        ensures
            r.bits == self.0 & 0x0fu8,
    {
        InterruptFlags { bits: self.0 & 0x0f }
    }
}

/// The control byte that selects a channel, ready to write to the chip.
pub fn channel_control_byte(channel: Channel) -> (r: u8)
    ensures
        r == channel_bits(channel),
{
    match channel {
        Channel::Disabled => 0,
        Channel::Channel0 => 4,
        Channel::Channel1 => 5,
        Channel::Channel2 => 6,
        Channel::Channel3 => 7,
    }
}

} // verus!

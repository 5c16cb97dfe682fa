//! Decoding the 32-bit readout of the thermocouple converter chip.
//!
//! One transfer yields four bytes, big-endian: the thermocouple count in
//! bits 31..18 (sign plus thirteen data bits), a fault flag in bit 16,
//! the reference-junction count in bits 15..4, and the three fault
//! detail bits at the bottom. Decoding is pure; the transfer itself is
//! the caller's.

use vstd::prelude::*;

use crate::arbiter::BusError;
use crate::signed_field;

verus! {

/// Details of a detected thermocouple fault.
#[derive(Debug, Clone, Copy, PartialEq, Eq, Structural)]
pub struct FaultInfo {
    pub short_to_vcc: bool,
    pub short_to_gnd: bool,
    pub open_circuit: bool,
}

/// Why a readout yielded no temperature.
#[derive(Debug, Clone, Copy, PartialEq, Eq, Structural)]
pub enum Error {
    SpiError(BusError),
    FaultDetected(FaultInfo),
}

impl crate::PeripheralError for Error {

}

/// A readout failure, resolved to the kind of fault where the chip says.
#[derive(Debug, Clone, Copy, PartialEq, Eq, Structural)]
pub enum ThermocoupleError {
    /// The bus transfer itself failed.
    SpiError,
    /// The chip-select line could not be driven.
    ChipSelectError,
    /// The fault flag was set, kind unresolved.
    Fault,
    /// The thermocouple is shorted to the supply.
    VccShortFault,
    /// The thermocouple is shorted to ground.
    GroundShortFault,
    /// No thermocouple is attached.
    MissingThermocoupleFault,
}

/// The temperature unit a converted reading is expressed in.
#[derive(Debug, Clone, Copy, PartialEq, Eq, Structural)]
pub enum Unit {
    Celsius,
    Fahrenheit,
    Kelvin,
}

/// Which of the chip's two temperatures a raw count came from.
#[derive(Debug, Clone, Copy, PartialEq, Eq, Structural)]
pub enum Reading {
    /// The attached thermocouple.
    Thermocouple,
    /// The internal reference junction.
    Internal,
}

/// Both temperatures of one full readout, as raw converter counts.
#[derive(Debug, Clone, Copy, PartialEq, Eq, Structural)]
pub struct FullResultRaw {
    /// The thermocouple count, quarter-degrees per bit.
    pub thermocouple: i16,
    /// The reference-junction count, sixteenths of a degree per bit.
    pub internal: i16,
}

/// The 32-bit readout as four big-endian bytes.
#[derive(Debug, Clone, Copy)]
pub struct MemoryMap(pub [u8; 4]);

/// The readout's 32-bit value.
pub open spec fn word_of(m: MemoryMap) -> u32 {
    ((m.0[0] as u32) << 24u32) | ((m.0[1] as u32) << 16u32) | ((m.0[2] as u32) << 8u32) | (
    m.0[3] as u32)
}

/// The thirteen thermocouple data bits (bits 30..18).
pub open spec fn thcpl_dat_of(m: MemoryMap) -> u16 {
    ((word_of(m) >> 18u32) & 0x1fffu32) as u16
}

/// The thermocouple sign bit (bit 31).
pub open spec fn thcpl_sign_of(m: MemoryMap) -> u8 {
    (word_of(m) >> 31u32) as u8
}

/// The fault flag (bit 16).
pub open spec fn fault_of(m: MemoryMap) -> u8 {
    ((word_of(m) >> 16u32) & 1u32) as u8
}

/// The whole-degree temperature of a readout: a quarter of the data
/// bits, negated when the sign bit is up.
pub open spec fn temp_of(m: MemoryMap) -> i16 {
    if thcpl_sign_of(m) == 0 {
        (thcpl_dat_of(m) / 4) as i16
    } else {
        (-((thcpl_dat_of(m) / 4) as i16)) as i16
    }
}

impl MemoryMap {
    /// The fault flag (bit 16).
    pub fn fault(&self) -> (r: u8)
        ensures
            r == fault_of(*self),
    {
        let b0 = self.0[0];
        let b1 = self.0[1];
        let b2 = self.0[2];
        let b3 = self.0[3];
        proof {
            assert((((((b0 as u32) << 24u32) | ((b1 as u32) << 16u32) | ((b2 as u32) << 8u32) | (
            b3 as u32)) >> 16u32) & 1u32) as u8 == (b1 & 1u8)) by (bit_vector);
        }
        b1 & 1
    }

    /// Whether the short-to-supply fault bit (bit 2) is up.
    pub fn short_to_vcc(&self) -> (r: u8)
        ensures
            r == (self.0[3] >> 2u8) & 1u8,
    {
        (self.0[3] >> 2) & 1
    }

    /// Whether the short-to-ground fault bit (bit 1) is up.
    pub fn short_to_gnd(&self) -> (r: u8)
        ensures
            r == (self.0[3] >> 1u8) & 1u8,
    {
        (self.0[3] >> 1) & 1
    }

    /// Whether the open-circuit fault bit (bit 0) is up.
    pub fn open_circuit(&self) -> (r: u8)
        ensures
            r == self.0[3] & 1u8,
    {
        self.0[3] & 1
    }

    /// The whole-degree thermocouple temperature: the thirteen data bits
    /// scaled by their quarter-degree step, with the sign applied.
    pub fn get_temp(&self) -> (r: i16)
        ensures
            r == temp_of(*self),
    {
        let b0 = self.0[0];
        let b1 = self.0[1];
        let b2 = self.0[2];
        let b3 = self.0[3];
        let data: u16 = ((((b0 as u16) << 8) | (b1 as u16)) >> 2) & 0x1fff;
        let sign: u8 = b0 >> 7;
        proof {
            assert({
                let w = ((b0 as u32) << 24u32) | ((b1 as u32) << 16u32) | ((b2 as u32) << 8u32)
                    | (b3 as u32);
                &&& ((w >> 18u32) & 0x1fffu32) as u16 == ((((b0 as u16) << 8u16) | (b1 as u16))
                    >> 2u16) & 0x1fffu16
                &&& (w >> 31u32) as u8 == (b0 >> 7u8)
                &&& ((((b0 as u16) << 8u16) | (b1 as u16)) >> 2u16) & 0x1fffu16 < 0x2000
            }) by (bit_vector);
        }
        let quarter: u16 = data / 4;
        let temp: i16 = quarter as i16;
        if sign == 0 {
            temp
        } else {
            -temp
        }
    }
}

/// Splits one readout into its temperature or its fault: no fault flag
/// yields the temperature, a fault yields the three detail bits.
pub fn parse_thcpl_temp(m: MemoryMap) -> (r: Result<i16, Error>)
    ensures
        fault_of(m) == 0 ==> r == Ok::<i16, Error>(temp_of(m)),
        fault_of(m) != 0 ==> r == Err::<i16, Error>(
            Error::FaultDetected(
                FaultInfo {
                    short_to_vcc: (m.0[3] >> 2u8) & 1u8 > 0,
                    short_to_gnd: (m.0[3] >> 1u8) & 1u8 > 0,
                    open_circuit: m.0[3] & 1u8 > 0,
                },
            ),
        ),
{
    if m.fault() == 0 {
        Ok(m.get_temp())
    } else {
        Err(
            Error::FaultDetected(
                FaultInfo {
                    short_to_vcc: m.short_to_vcc() > 0,
                    short_to_gnd: m.short_to_gnd() > 0,
                    open_circuit: m.open_circuit() > 0,
                },
            ),
        )
    }
}

/// The sixteen-bit word of two big-endian bytes.
pub open spec fn word16(b0: u8, b1: u8) -> u16 {
    ((b0 as u16) << 8u16) | (b1 as u16)
}

/// The thermocouple count of the first readout word: fourteen bits,
/// sign included, above the reserved and fault bits.
pub open spec fn thermocouple_count(b0: u8, b1: u8) -> int {
    signed_field((word16(b0, b1) >> 2u16) & 0x3fffu16, 14)
}

/// The reference-junction count of the second readout word: twelve
/// bits, sign included, above the fault detail bits.
pub open spec fn internal_count(b2: u8, b3: u8) -> int {
    signed_field((word16(b2, b3) >> 4u16) & 0x0fffu16, 12)
}

/// Decodes the thermocouple count of one readout; a raised fault flag
/// yields the undifferentiated fault instead.
pub fn decode_thermocouple_raw(buffer: &[u8; 4]) -> (r: Result<i16, ThermocoupleError>)
    ensures
        buffer[1] & 1u8 != 0 ==> r == Err::<i16, ThermocoupleError>(ThermocoupleError::Fault),
        buffer[1] & 1u8 == 0 ==> (r matches Ok(t) && t as int == thermocouple_count(
            buffer[0],
            buffer[1],
        )),
{
    let b0 = buffer[0];
    let b1 = buffer[1];
    if b1 & 1 != 0 {
        return Err(ThermocoupleError::Fault);
    }
    let raw: u16 = ((b0 as u16) << 8) | (b1 as u16);
    let bits: u16 = (raw >> 2) & 0x3fff;
    proof {
        assert((1u16 << ((16 - 14) as u16)) as i16 == 4 && bits < (1u16 << 14u16)) by (bit_vector)
            requires
                bits == (raw >> 2u16) & 0x3fffu16,
        ;
    }
    Ok(crate::bits_to_i16(bits, 14, 4, 2))
}

/// Decodes both counts of one readout; a raised fault flag is resolved
/// to the specific fault named by the detail bits.
pub fn decode_all_raw(buffer: &[u8; 4]) -> (r: Result<FullResultRaw, ThermocoupleError>)
    ensures
        buffer[1] & 1u8 == 0 ==> (r matches Ok(full) && full.thermocouple as int
            == thermocouple_count(buffer[0], buffer[1]) && full.internal as int == internal_count(
            buffer[2],
            buffer[3],
        )),
        buffer[1] & 1u8 != 0 ==> r == Err::<FullResultRaw, ThermocoupleError>(
            {
                let second = word16(buffer[2], buffer[3]);
                if second & 1u16 != 0 {
                    ThermocoupleError::MissingThermocoupleFault
                } else if (second >> 1u16) & 1u16 != 0 {
                    ThermocoupleError::GroundShortFault
                } else if (second >> 2u16) & 1u16 != 0 {
                    ThermocoupleError::VccShortFault
                } else {
                    ThermocoupleError::Fault
                }
            },
        ),
{
    let b0 = buffer[0];
    let b1 = buffer[1];
    let b2 = buffer[2];
    let b3 = buffer[3];
    let fault = b1 & 1 != 0;
    if fault {
        let raw: u16 = ((b2 as u16) << 8) | (b3 as u16);
        if raw & 1 != 0 {
            return Err(ThermocoupleError::MissingThermocoupleFault);
        } else if (raw >> 1) & 1 != 0 {
            return Err(ThermocoupleError::GroundShortFault);
        } else if (raw >> 2) & 1 != 0 {
            return Err(ThermocoupleError::VccShortFault);
        } else {
            return Err(ThermocoupleError::Fault);
        }
    }
    let first: u16 = ((b0 as u16) << 8) | (b1 as u16);
    let second: u16 = ((b2 as u16) << 8) | (b3 as u16);
    let first_bits: u16 = (first >> 2) & 0x3fff;
    let second_bits: u16 = (second >> 4) & 0x0fff;
    proof {
        assert((1u16 << ((16 - 14) as u16)) as i16 == 4 && first_bits < (1u16 << 14u16))
            by (bit_vector)
            requires
                first_bits == (first >> 2u16) & 0x3fffu16,
        ;
        assert((1u16 << ((16 - 12) as u16)) as i16 == 16 && second_bits < (1u16 << 12u16))
            by (bit_vector)
            requires
                second_bits == (second >> 4u16) & 0x0fffu16,
        ;
    }
    let thermocouple = crate::bits_to_i16(first_bits, 14, 4, 2);
    let internal = crate::bits_to_i16(second_bits, 12, 16, 4);
    Ok(FullResultRaw { thermocouple, internal })
}

} // verus!

//! The configuration register and command set of a 16-bit analog
//! converter chip.
//!
//! One configuration byte packs the input multiplexer (bits 7..5), the
//! gain (bit 4), the data rate (bits 3..2), the conversion mode (bit 1)
//! and the voltage reference (bit 0). The chip is driven by one-byte
//! commands, with the conversion result read back as a big-endian
//! sixteen-bit value.

use vstd::prelude::*;

use crate::arbiter::BusError;
use crate::arbiter::Operation;
use crate::arbiter::OperationModel;

verus! {

/// A failure while talking to the converter.
#[derive(Debug, Copy, Clone, PartialEq, Eq, Structural)]
pub enum Error {
    I2cError(BusError),
}

impl crate::PeripheralError for Error {

}

/// Which inputs the converter compares.
#[allow(non_camel_case_types)]
#[derive(Debug, Clone, Copy, PartialEq, Eq, Structural)]
pub enum MuxConfig {
    AIN0_AIN1,
    AIN2_AIN3,
    AIN1_AIN2,
    AIN0_AGND,
    AIN1_AGND,
    AIN2_AGND,
    AIN3_AGND,
    AVDD_DIV_2,
}

/// The converter's gain setting.
#[derive(Debug, Clone, Copy, PartialEq, Eq, Structural)]
pub enum GainSetting {
    _0,
    _4,
}

/// Samples per second.
#[allow(non_camel_case_types)]
#[derive(Debug, Clone, Copy, PartialEq, Eq, Structural)]
pub enum DataRate {
    _20SPS,
    _90SPS,
    _330SPS,
    _1000SPS,
}

/// One-shot or continuous conversion.
#[derive(Debug, Clone, Copy, PartialEq, Eq, Structural)]
pub enum ConversionMode {
    SingleShot,
    Continuous,
}

/// The reference the conversion is measured against.
#[derive(Debug, Clone, Copy, PartialEq, Eq, Structural)]
pub enum VoltageReference {
    Internal2_048,
    External,
}

/// The three multiplexer bits of a mux setting.
pub open spec fn mux_code(mux: MuxConfig) -> u8 {
    match mux {
        MuxConfig::AIN0_AIN1 => 0,
        MuxConfig::AIN2_AIN3 => 1,
        MuxConfig::AIN1_AIN2 => 2,
        MuxConfig::AIN0_AGND => 3,
        MuxConfig::AIN1_AGND => 4,
        MuxConfig::AIN2_AGND => 5,
        MuxConfig::AIN3_AGND => 6,
        MuxConfig::AVDD_DIV_2 => 7,
    }
}

/// The gain bit of a gain setting.
pub open spec fn gain_code(gain: GainSetting) -> u8 {
    match gain {
        GainSetting::_0 => 0,
        GainSetting::_4 => 1,
    }
}

/// The two data-rate bits of a rate setting.
pub open spec fn data_rate_code(rate: DataRate) -> u8 {
    match rate {
        DataRate::_20SPS => 0,
        DataRate::_90SPS => 1,
        DataRate::_330SPS => 2,
        DataRate::_1000SPS => 3,
    }
}

/// The conversion-mode bit.
pub open spec fn conversion_mode_code(mode: ConversionMode) -> u8 {
    match mode {
        ConversionMode::SingleShot => 0,
        ConversionMode::Continuous => 1,
    }
}

/// The voltage-reference bit.
pub open spec fn vref_code(vref: VoltageReference) -> u8 {
    match vref {
        VoltageReference::Internal2_048 => 0,
        VoltageReference::External => 1,
    }
}

/// The converter's configuration register.
#[derive(Debug, Clone, Copy, PartialEq, Eq, Structural)]
pub struct ConfigRegister(pub u8);

impl ConfigRegister {
    /// The power-on configuration: all fields zero.
    pub fn new() -> (r: ConfigRegister)
        ensures
            r.0 == 0,
    {
        ConfigRegister(0)
    }

    /// Routes the multiplexer: bits 7..5 take the mux code, the rest keep
    /// their value.
    pub fn set_mux(&mut self, mux_config: MuxConfig)
        ensures
            final(self).0 == (old(self).0 & 0x1fu8) | (mux_code(mux_config) << 5u8),
    {
        let code = match mux_config {
            MuxConfig::AIN0_AIN1 => 0,
            MuxConfig::AIN2_AIN3 => 1,
            MuxConfig::AIN1_AIN2 => 2,
            MuxConfig::AIN0_AGND => 3,
            MuxConfig::AIN1_AGND => 4,
            MuxConfig::AIN2_AGND => 5,
            MuxConfig::AIN3_AGND => 6,
            MuxConfig::AVDD_DIV_2 => 7,
        };
        self.0 = (self.0 & 0x1f) | (code << 5);
    }

    /// Sets the gain bit (bit 4).
    pub fn set_gain(&mut self, gain: GainSetting)
        ensures
            final(self).0 == (old(self).0 & 0xefu8) | (gain_code(gain) << 4u8),
    {
        let code = match gain {
            GainSetting::_0 => 0,
            GainSetting::_4 => 1,
        };
        self.0 = (self.0 & 0xef) | (code << 4);
    }

    /// Sets the data-rate bits (bits 3..2).
    pub fn set_data_rate(&mut self, data_rate: DataRate)
        ensures
            final(self).0 == (old(self).0 & 0xf3u8) | (data_rate_code(data_rate) << 2u8),
    {
        let code = match data_rate {
            DataRate::_20SPS => 0,
            DataRate::_90SPS => 1,
            DataRate::_330SPS => 2,
            DataRate::_1000SPS => 3,
        };
        self.0 = (self.0 & 0xf3) | (code << 2);
    }

    /// Sets the conversion-mode bit (bit 1).
    pub fn set_conversion_mode(&mut self, conversion_mode: ConversionMode)
        ensures
            final(self).0 == (old(self).0 & 0xfdu8) | (conversion_mode_code(conversion_mode)
                << 1u8),
    {
        let code = match conversion_mode {
            ConversionMode::SingleShot => 0,
            ConversionMode::Continuous => 1,
        };
        self.0 = (self.0 & 0xfd) | (code << 1);
    }

    /// Sets the voltage-reference bit (bit 0).
    pub fn set_vref(&mut self, voltage_reference: VoltageReference)
        ensures
            final(self).0 == (old(self).0 & 0xfeu8) | vref_code(voltage_reference),
    {
        let code = match voltage_reference {
            VoltageReference::Internal2_048 => 0,
            VoltageReference::External => 1,
        };
        self.0 = (self.0 & 0xfe) | code;
    }
}

/// The reset command byte.
pub const RESET_COMMAND: u8 = 0x06;

/// The read-data command byte.
pub const READ_DATA_COMMAND: u8 = 0x10;

/// The start-conversion command byte.
pub const START_CONVERSION_COMMAND: u8 = 0x08;

/// The write-configuration command byte.
pub const WRITE_CONFIG_COMMAND: u8 = 0x40;

/// The bus operation that resets the converter.
pub fn reset_operation() -> (r: Operation)
    ensures
        r@ == (OperationModel::Write { data: seq![RESET_COMMAND] }),
{
    let mut data: Vec<u8> = Vec::new();
    data.push(RESET_COMMAND);
    proof {
        assert(data@ =~= seq![RESET_COMMAND]);
    }
    Operation::Write { data }
}

/// The bus operation that writes a configuration register.
pub fn configure_operation(config: ConfigRegister) -> (r: Operation)
    ensures
        r@ == (OperationModel::Write { data: seq![WRITE_CONFIG_COMMAND, config.0] }),
{
    let mut data: Vec<u8> = Vec::new();
    data.push(WRITE_CONFIG_COMMAND);
    data.push(config.0);
    proof {
        assert(data@ =~= seq![WRITE_CONFIG_COMMAND, config.0]);
    }
    Operation::Write { data }
}

/// The bus operation that starts a conversion.
pub fn start_conversion_operation() -> (r: Operation)
    ensures
        r@ == (OperationModel::Write { data: seq![START_CONVERSION_COMMAND] }),
{
    let mut data: Vec<u8> = Vec::new();
    data.push(START_CONVERSION_COMMAND);
    proof {
        assert(data@ =~= seq![START_CONVERSION_COMMAND]);
    }
    Operation::Write { data }
}

/// The bus operation that asks for the latest conversion: the read-data
/// command, then two result bytes back, in one transaction.
pub fn read_data_operation() -> (r: Operation)
    ensures
        r@ == (OperationModel::WriteRead { data: seq![READ_DATA_COMMAND], read_len: 2 }),
{
    let mut data: Vec<u8> = Vec::new();
    data.push(READ_DATA_COMMAND);
    proof {
        assert(data@ =~= seq![READ_DATA_COMMAND]);
    }
    Operation::WriteRead { data, read_len: 2 }
}

/// The signed sixteen-bit value of two big-endian result bytes.
pub open spec fn reading_of_bytes(b0: u8, b1: u8) -> i16 {
    (((b0 as u16) << 8u16) | (b1 as u16)) as i16
}

/// Decodes the two big-endian bytes of a conversion result.
pub fn decode_reading(b0: u8, b1: u8) -> (r: i16)
    ensures
        r == reading_of_bytes(b0, b1),
{
    #[verifier::truncate]
    ((((b0 as u16) << 8) | (b1 as u16)) as i16)
}

} // verus!

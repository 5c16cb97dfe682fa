//! The sixteen-bit configuration register of the pressure-sensing analog
//! converter, and the frame that programs it.

use vstd::prelude::*;

verus! {

/// The converter's gain setting, as the three programmable-gain bits.
#[derive(Debug, Copy, Clone, PartialEq, Eq, Structural)]
pub enum GainSetting {
    V6_111,
    V4_096,
    V2_048,
    V1_024,
    V0_512,
    V0_256,
}

/// Samples per second, as the three data-rate bits.
#[derive(Debug, Copy, Clone, PartialEq, Eq, Structural)]
pub enum SpsConfig {
    Sps8,
    Sps16,
    Sps32,
    Sps64,
    Sps128,
    Sps250,
    Sps475,
    Sps860,
}

/// The three gain bits of a gain setting.
pub open spec fn gain_code(gain: GainSetting) -> u16 {
    match gain {
        GainSetting::V6_111 => 0,
        GainSetting::V4_096 => 1,
        GainSetting::V2_048 => 2,
        GainSetting::V1_024 => 3,
        GainSetting::V0_512 => 4,
        GainSetting::V0_256 => 5,
    }
}

/// The three data-rate bits of a rate setting.
pub open spec fn sps_code(sps: SpsConfig) -> u16 {
    match sps {
        SpsConfig::Sps8 => 0,
        SpsConfig::Sps16 => 1,
        SpsConfig::Sps32 => 2,
        SpsConfig::Sps64 => 3,
        SpsConfig::Sps128 => 4,
        SpsConfig::Sps250 => 5,
        SpsConfig::Sps475 => 6,
        SpsConfig::Sps860 => 7,
    }
}

/// The converter's sixteen-bit configuration register: the operating mode
/// in bit 8, the data rate in bits 7..5 and the gain in bits 11..9.
#[derive(Debug, Clone, Copy, PartialEq, Eq, Structural)]
pub struct ConfigRegister(pub u16);

impl ConfigRegister {
    /// Sets the operating-mode bit (bit 8).
    pub fn set_mode(&mut self, mode: u16)
        requires
            mode <= 1,
        ensures
            final(self).0 == (old(self).0 & 0xfeffu16) | (mode << 8u16),
    {
        self.0 = (self.0 & 0xfeff) | (mode << 8);
    }

    /// Sets the data-rate bits (bits 7..5).
    pub fn set_dr(&mut self, sps: SpsConfig)
        ensures
            final(self).0 == (old(self).0 & 0xff1fu16) | (sps_code(sps) << 5u16),
    {
        let code: u16 = match sps {
            SpsConfig::Sps8 => 0,
            SpsConfig::Sps16 => 1,
            SpsConfig::Sps32 => 2,
            SpsConfig::Sps64 => 3,
            SpsConfig::Sps128 => 4,
            SpsConfig::Sps250 => 5,
            SpsConfig::Sps475 => 6,
            SpsConfig::Sps860 => 7,
        };
        self.0 = (self.0 & 0xff1f) | (code << 5);
    }

    /// Sets the gain bits (bits 11..9).
    pub fn set_pga(&mut self, gain: GainSetting)
        ensures
            final(self).0 == (old(self).0 & 0xf1ffu16) | (gain_code(gain) << 9u16),
    {
        let code: u16 = match gain {
            GainSetting::V6_111 => 0,
            GainSetting::V4_096 => 1,
            GainSetting::V2_048 => 2,
            GainSetting::V1_024 => 3,
            GainSetting::V0_512 => 4,
            GainSetting::V0_256 => 5,
        };
        self.0 = (self.0 & 0xf1ff) | (code << 9);
    }

    /// The boot configuration: continuous mode, the default data rate and
    /// the default gain.
    pub fn initialize() -> (r: ConfigRegister)
        ensures
            r.0 == (gain_code(GainSetting::V4_096) << 9u16) | (sps_code(SpsConfig::Sps475)
                << 5u16),
    {
        let mut cfg = ConfigRegister(0);
        cfg.set_mode(0);
        cfg.set_dr(SpsConfig::Sps475);
        cfg.set_pga(GainSetting::V4_096);
        proof {
            assert((((0u16 & 0xfeff) | (0u16 << 8u16)) & 0xff1f) | (6u16 << 5u16) == 0xc0u16)
                by (bit_vector);
            assert(((0xc0u16 & 0xf1ff) | (1u16 << 9u16)) == ((1u16 << 9u16) | (6u16 << 5u16)))
                by (bit_vector);
        }
        cfg
    }
}

/// The frame that programs the converter over the bus: the register
/// pointer, then a fixed, known-good configuration pair — the driver
/// pins the wire bytes rather than serializing the register it was
/// handed.
pub fn write_config(cfg: ConfigRegister) -> (r: [u8; 3])
    ensures
        r@ == seq![1u8, 0x40u8, 0xc0u8],
{
    let r: [u8; 3] = [0b0000_0001, 0b0100_0000, 0b1100_0000];
    proof {
        assert(r@ =~= seq![1u8, 0x40u8, 0xc0u8]);
    }
    r
}

/// The signed sixteen-bit value of two big-endian conversion bytes.
pub open spec fn raw_reading(b0: u8, b1: u8) -> i16 {
    (((b0 as u16) << 8u16) | (b1 as u16)) as i16
}

/// Decodes the two big-endian bytes of a conversion result.
pub fn decode_reading(b0: u8, b1: u8) -> (r: i16)
    ensures
        r == raw_reading(b0, b1),
{
    #[verifier::truncate]
    ((((b0 as u16) << 8) | (b1 as u16)) as i16)
}

} // verus!

//! The register file of the eight-bit port-expander chip.
//!
//! The chip exposes four one-byte registers — input, output, polarity
//! inversion and configuration — addressed by a command byte, plus a bus
//! address byte whose lowest bit switches between write and read.

use vstd::prelude::*;

use crate::arbiter::BusError;
use crate::arbiter::Operation;
use crate::arbiter::OperationModel;

verus! {

/// A failure while talking to the expander.
#[derive(Debug, Copy, Clone, PartialEq, Eq, Structural)]
pub enum Error {
    I2cError(BusError),
}

impl crate::PeripheralError for Error {

}

/// The command byte that addresses one of the four registers.
#[derive(Debug, Clone, Copy, PartialEq, Eq, Structural)]
pub enum CommandBytes {
    InputPort,
    OutputPort,
    Polarity,
    Config,
}

/// The wire code of a register command.
pub open spec fn command_code(command: CommandBytes) -> u8 {
    match command {
        CommandBytes::InputPort => 0,
        CommandBytes::OutputPort => 1,
        CommandBytes::Polarity => 2,
        CommandBytes::Config => 3,
    }
}

/// One register's eight pin bits.
#[derive(Debug, Clone, Copy, PartialEq, Eq, Structural)]
pub struct RegisterValues {
    pub bits: u8,
}

impl RegisterValues {
    /// Whether the given pin's bit is up.
    pub fn pin(&self, index: usize) -> (r: bool)
        requires
            index < 8,
        ensures
            r == ((self.bits >> (index as u8)) & 1u8 == 1u8),
    {
        (self.bits >> index) & 1 == 1
    }
}

/// The bus address byte: a fixed high nibble, three strap bits, and the
/// read bit at the bottom.
#[derive(Debug, Clone, Copy, PartialEq, Eq, Structural)]
pub struct AddressByte(pub u8);

impl AddressByte {
    /// The address byte of the chip strapped to all-zero address pins:
    /// the fixed high nibble alone.
    pub fn new() -> (r: AddressByte)
        ensures
            r.0 == 0x40,
    {
        AddressByte(0x40)
    }

    /// The same address byte with the read bit set or cleared.
    pub fn with_read(self, value: bool) -> (r: AddressByte)
        ensures
            r.0 == if value {
                self.0 | 1u8
            } else {
                self.0 & 0xfeu8
            },
    {
        if value {
            AddressByte(self.0 | 1)
        } else {
            AddressByte(self.0 & 0xfe)
        }
    }
}

/// The input register's pin states.
#[derive(Debug, Clone, Copy, PartialEq, Eq, Structural)]
pub struct InputRegister(pub u8);

/// The output register's driven levels.
#[derive(Debug, Clone, Copy, PartialEq, Eq, Structural)]
pub struct OutputRegister(pub u8);

/// Which input pins are polarity-inverted.
#[derive(Debug, Clone, Copy, PartialEq, Eq, Structural)]
pub struct PolarityInversionRegister(pub u8);

/// Which pins are configured as inputs.
#[derive(Debug, Clone, Copy, PartialEq, Eq, Structural)]
pub struct ConfigurationRegister(pub u8);

/// The whole register file, as read or as intended.
#[derive(Debug, Clone, Copy, PartialEq, Eq, Structural)]
pub struct TCA9534Registers {
    pub input_register: InputRegister,
    pub output_register: OutputRegister,
    pub polarity_inversion_register: PolarityInversionRegister,
    pub config_register: ConfigurationRegister,
}

impl TCA9534Registers {
    /// The power-on configuration the driver assumes: every pin an input,
    /// every output latched high, no polarity inversion.
    pub fn new() -> (r: TCA9534Registers)
        ensures
            r.input_register.0 == 0,
            r.output_register.0 == 0xff,
            r.polarity_inversion_register.0 == 0,
            r.config_register.0 == 0xff,
    {
        TCA9534Registers {
            input_register: InputRegister(0),
            output_register: OutputRegister(0xff),
            polarity_inversion_register: PolarityInversionRegister(0),
            config_register: ConfigurationRegister(0xff),
        }
    }

    /// The register file as the four bytes a bulk read yields.
    pub fn to_bytes(self) -> (r: [u8; 4])
        ensures
            r@ == seq![
                self.input_register.0,
                self.output_register.0,
                self.polarity_inversion_register.0,
                self.config_register.0,
            ],
    {
        let r: [u8; 4] = [
            self.input_register.0,
            self.output_register.0,
            self.polarity_inversion_register.0,
            self.config_register.0,
        ];
        proof {
            assert(r@ =~= seq![
                self.input_register.0,
                self.output_register.0,
                self.polarity_inversion_register.0,
                self.config_register.0,
            ]);
        }
        r
    }

    /// The register file a four-byte bulk read decodes to.
    pub fn from_bytes(bytes: &[u8; 4]) -> (r: TCA9534Registers)
        ensures
            r.input_register.0 == bytes[0],
            r.output_register.0 == bytes[1],
            r.polarity_inversion_register.0 == bytes[2],
            r.config_register.0 == bytes[3],
    {
        TCA9534Registers {
            input_register: InputRegister(bytes[0]),
            output_register: OutputRegister(bytes[1]),
            polarity_inversion_register: PolarityInversionRegister(bytes[2]),
            config_register: ConfigurationRegister(bytes[3]),
        }
    }
}

/// The bus operation that reads one register: its command byte out, one
/// register byte back, in one transaction.
pub fn get_register_operation(command: CommandBytes) -> (r: Operation)
    ensures
        r@ == (OperationModel::WriteRead { data: seq![command_code(command)], read_len: 1 }),
{
    let code = match command {
        CommandBytes::InputPort => 0,
        CommandBytes::OutputPort => 1,
        CommandBytes::Polarity => 2,
        CommandBytes::Config => 3,
    };
    let mut data: Vec<u8> = Vec::new();
    data.push(code);
    proof {
        assert(data@ =~= seq![command_code(command)]);
    }
    Operation::WriteRead { data, read_len: 1 }
}

/// The bus operation that writes one register: its command byte, then
/// the register bits.
pub fn set_register_operation(command: CommandBytes, register: RegisterValues) -> (r: Operation)
    ensures
        r@ == (OperationModel::Write { data: seq![command_code(command), register.bits] }),
{
    let code = match command {
        CommandBytes::InputPort => 0,
        CommandBytes::OutputPort => 1,
        CommandBytes::Polarity => 2,
        CommandBytes::Config => 3,
    };
    let mut data: Vec<u8> = Vec::new();
    data.push(code);
    data.push(register.bits);
    proof {
        assert(data@ =~= seq![command_code(command), register.bits]);
    }
    Operation::Write { data }
}

} // verus!

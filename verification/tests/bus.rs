//! The bus arbiter's serialization and coalescing behavior, and the
//! register codecs of the attached chips.

use axis_core::arbiter::BusArbiter;
use axis_core::arbiter::BusError;
use axis_core::arbiter::DeviceHandle;
use axis_core::arbiter::FrameKind;
use axis_core::arbiter::MuxCache;
use axis_core::arbiter::Operation;
use axis_core::arbiter::TransferOutcome;
use axis_core::bits_to_i16;
use axis_core::dimmer::DimmerSetting;
use axis_core::dimmer::ZeroCrossDimmer;
use axis_core::registers::ads1115;
use axis_core::registers::ads1119;
use axis_core::registers::ds3231m;
use axis_core::registers::fm24cl16b;
use axis_core::registers::max31855;
use axis_core::registers::pca9544a;
use axis_core::registers::pca9544a::Channel;
use axis_core::registers::tca9534;

fn select_count(arbiter: &BusArbiter) -> usize {
    let mut n: usize = 0;
    let mut i: usize = 0;
    while i < arbiter.log.len() {
        if arbiter.log[i].kind == FrameKind::SelectWrite {
            n += 1;
        }
        i += 1;
    }
    n
}

#[test]
fn same_channel_transactions_share_one_select() {
    let mut arbiter = BusArbiter::new(0x70);
    let device = DeviceHandle::new(Some(Channel::Channel1), 0x40);
    let first = device
        .read(&mut arbiter, 2, TransferOutcome::Success { response: vec![1, 2] })
        .expect("first read");
    assert_eq!(first, vec![1, 2]);
    assert_eq!(select_count(&arbiter), 1);
    assert_eq!(arbiter.log.len(), 2);
    // the second transaction on the same channel skips the redundant select
    let second = device
        .read(&mut arbiter, 2, TransferOutcome::Success { response: vec![3, 4] })
        .expect("second read");
    assert_eq!(second, vec![3, 4]);
    assert_eq!(select_count(&arbiter), 1);
    assert_eq!(arbiter.log.len(), 3);
    assert_eq!(arbiter.cache, MuxCache::Selected(Channel::Channel1));
}

#[test]
fn transactions_on_two_channels_never_interleave() {
    let mut arbiter = BusArbiter::new(0x70);
    let sensor = DeviceHandle::new(Some(Channel::Channel1), 0x40);
    let clock = DeviceHandle::new(Some(Channel::Channel0), 0x68);

    // while one transaction is under way, no other can begin
    let transaction = arbiter
        .try_begin(sensor, Operation::Read { len: 2 })
        .expect("the bus is free");
    assert!(arbiter.try_begin(clock, Operation::Read { len: 18 }).is_none());
    arbiter
        .complete(transaction, TransferOutcome::Success { response: vec![1, 2] })
        .expect("completes");

    let transaction = arbiter
        .try_begin(clock, Operation::Read { len: 18 })
        .expect("free again");
    arbiter
        .complete(transaction, TransferOutcome::Success { response: vec![0; 18] })
        .expect("completes");

    // the log holds the first transaction's whole block, then the second's
    let kinds: Vec<FrameKind> = arbiter.log.iter().map(|f| f.kind).collect();
    assert_eq!(
        kinds,
        vec![
            FrameKind::SelectWrite,
            FrameKind::DataRead,
            FrameKind::SelectWrite,
            FrameKind::DataRead,
        ]
    );
    assert_eq!(arbiter.log[0].address, 0x70);
    assert_eq!(arbiter.log[0].data, vec![5]); // channel 1: enable plus 0b01
    assert_eq!(arbiter.log[1].address, 0x40);
    assert_eq!(arbiter.log[2].address, 0x70);
    assert_eq!(arbiter.log[2].data, vec![4]); // channel 0: enable alone
    assert_eq!(arbiter.log[3].address, 0x68);
}

#[test]
fn failures_invalidate_the_channel_cache() {
    let mut arbiter = BusArbiter::new(0x70);
    let device = DeviceHandle::new(Some(Channel::Channel2), 0x21);
    let r = arbiter.perform(
        device,
        Operation::Write { data: vec![0x03, 0xff] },
        TransferOutcome::MultiplexerFault,
    );
    assert_eq!(r, Err(BusError::MultiplexerFault));
    assert_eq!(arbiter.cache, MuxCache::Unknown);
    // the failed select issued no transfer frame
    assert_eq!(arbiter.log.len(), 1);
    assert_eq!(arbiter.log[0].kind, FrameKind::SelectWrite);

    let r = arbiter.perform(
        device,
        Operation::Write { data: vec![0x03, 0xff] },
        TransferOutcome::DeviceFault,
    );
    assert_eq!(r, Err(BusError::DeviceFault));
    assert_eq!(arbiter.cache, MuxCache::Unknown);
    // the unknown cache forces a fresh select on the next transaction
    arbiter
        .perform(
            device,
            Operation::Write { data: vec![0x03, 0xff] },
            TransferOutcome::Success { response: vec![] },
        )
        .expect("succeeds");
    assert_eq!(select_count(&arbiter), 3);
    assert_eq!(arbiter.cache, MuxCache::Selected(Channel::Channel2));
}

#[test]
fn bare_bus_devices_bypass_channel_select() {
    let mut arbiter = BusArbiter::new(0x70);
    let device = DeviceHandle::new(None, 0x48);
    let r = device
        .write_read(
            &mut arbiter,
            vec![0x10],
            2,
            TransferOutcome::Success { response: vec![0x09, 0x24] },
        )
        .expect("succeeds");
    assert_eq!(r, vec![0x09, 0x24]);
    assert_eq!(select_count(&arbiter), 0);
    assert_eq!(arbiter.log.len(), 1);
    assert_eq!(arbiter.log[0].kind, FrameKind::DataWriteRead);
    assert_eq!(arbiter.log[0].data, vec![0x10]);
    assert_eq!(arbiter.log[0].read_len, 2);
    // the cache is untouched by a device with no multiplexer
    assert_eq!(arbiter.cache, MuxCache::Selected(Channel::Disabled));
}

#[test]
fn control_register_routes_channels() {
    let mut register = pca9544a::ControlRegister(0);
    register.set_channel(Channel::Channel3);
    assert_eq!(register.0, 7);
    assert_eq!(register.get_channel(), Channel::Channel3);
    register.set_channel(Channel::Disabled);
    assert_eq!(register.get_channel(), Channel::Disabled);
    let mut each = pca9544a::ControlRegister(0);
    each.set_channel(Channel::Channel0);
    assert_eq!(each.0, 4);
    assert_eq!(pca9544a::channel_control_byte(Channel::Channel1), 5);
    assert_eq!(pca9544a::channel_control_byte(Channel::Channel2), 6);
    assert_eq!(pca9544a::channel_control_byte(Channel::Disabled), 0);
}

#[test]
fn control_register_reads_interrupt_flags() {
    let register = pca9544a::ControlRegister(0xa5);
    assert_eq!(register.get_interrupt_flags().bits, 0x05);
}

#[test]
fn ads1119_config_packs_its_fields() {
    let mut config = ads1119::ConfigRegister::new();
    assert_eq!(config.0, 0);
    config.set_mux(ads1119::MuxConfig::AIN0_AGND);
    assert_eq!(config.0, 0b011_0_00_0_0);
    config.set_vref(ads1119::VoltageReference::External);
    assert_eq!(config.0, 0b011_0_00_0_1);
    config.set_conversion_mode(ads1119::ConversionMode::Continuous);
    assert_eq!(config.0, 0b011_0_00_1_1);
    config.set_gain(ads1119::GainSetting::_4);
    assert_eq!(config.0, 0b011_1_00_1_1);
    config.set_data_rate(ads1119::DataRate::_1000SPS);
    assert_eq!(config.0, 0b011_1_11_1_1);
}

#[test]
fn ads1119_operations_spell_their_commands() {
    match ads1119::reset_operation() {
        Operation::Write { data } => assert_eq!(data, vec![0x06]),
        _ => panic!("a write"),
    }
    match ads1119::start_conversion_operation() {
        Operation::Write { data } => assert_eq!(data, vec![0x08]),
        _ => panic!("a write"),
    }
    match ads1119::configure_operation(ads1119::ConfigRegister(0x63)) {
        Operation::Write { data } => assert_eq!(data, vec![0x40, 0x63]),
        _ => panic!("a write"),
    }
    match ads1119::read_data_operation() {
        Operation::WriteRead { data, read_len } => {
            assert_eq!(data, vec![0x10]);
            assert_eq!(read_len, 2);
        },
        _ => panic!("a write-then-read"),
    }
    assert_eq!(ads1119::decode_reading(0x09, 0x24), 0x0924);
    assert_eq!(ads1119::decode_reading(0xff, 0xfe), -2);
}

#[test]
fn ads1115_initialize_and_write_config() {
    let config = ads1115::ConfigRegister::initialize();
    assert_eq!(config.0, 0x02c0);
    assert_eq!(ads1115::write_config(config), [0x01, 0x40, 0xc0]);
    assert_eq!(ads1115::decode_reading(0x80, 0x00), i16::MIN);
}

#[test]
fn clock_registers_decode_binary_coded_decimal() {
    let mut raw = [0u8; 18];
    raw[0] = 0x59; // 59 seconds
    raw[1] = 0x34; // 34 minutes
    raw[2] = 0x17; // 17 hours, 24-hour mode
    raw[3] = 0x03; // wednesday
    raw[4] = 0x31; // the 31st
    let registers = ds3231m::TimekeepingRegisters(raw);
    let dt = registers.get_date_time();
    assert_eq!(dt.time.second, 59);
    assert_eq!(dt.time.minute, 34);
    assert_eq!(dt.time.hour, 17);
    assert!(!dt.time.am_pm);
    assert_eq!(dt.day, ds3231m::Day::Wednesday);
    assert_eq!(dt.date, 31);
}

#[test]
fn clock_twelve_hour_mode_drops_the_twenty() {
    let mut raw = [0u8; 18];
    raw[2] = 0x31; // 11 hours with the 12-hour flag up
    let registers = ds3231m::TimekeepingRegisters(raw);
    let time = registers.get_time();
    assert!(time.am_pm);
    assert_eq!(time.hour, 11);
    assert_eq!(registers.get_day(), ds3231m::Day::Unknown);
}

#[test]
fn thermocouple_readout_decodes_temperature_and_sign() {
    // +400.00 degrees: count 1600, no faults anywhere
    let plus = max31855::MemoryMap([0x19, 0x00, 0x00, 0x00]);
    assert_eq!(plus.fault(), 0);
    assert_eq!(plus.get_temp(), 400);
    assert_eq!(max31855::parse_thcpl_temp(plus), Ok(400));
    // the sign bit negates the scaled count
    let minus = max31855::MemoryMap([0x99, 0x00, 0x00, 0x00]);
    assert_eq!(minus.get_temp(), -400);
}

#[test]
fn thermocouple_readout_resolves_faults() {
    let shorted = max31855::MemoryMap([0x19, 0x01, 0x00, 0x04]);
    assert_eq!(shorted.fault(), 1);
    assert_eq!(
        max31855::parse_thcpl_temp(shorted),
        Err(max31855::Error::FaultDetected(max31855::FaultInfo {
            short_to_vcc: true,
            short_to_gnd: false,
            open_circuit: false,
        }))
    );
}

#[test]
fn full_readout_decodes_both_counts() {
    // thermocouple count 100, internal count 401
    let buffer: [u8; 4] = [0x01, 0x90, 0x19, 0x10];
    let full = max31855::decode_all_raw(&buffer).expect("no fault");
    assert_eq!(full.thermocouple, 100);
    assert_eq!(full.internal, 401);
    // a negative internal count sign-extends
    let negative: [u8; 4] = [0x00, 0x00, 0xff, 0xf0];
    let full = max31855::decode_all_raw(&negative).expect("no fault");
    assert_eq!(full.thermocouple, 0);
    assert_eq!(full.internal, -1);
}

#[test]
fn full_readout_names_the_fault() {
    let missing: [u8; 4] = [0, 1, 0, 1];
    assert_eq!(
        max31855::decode_all_raw(&missing),
        Err(max31855::ThermocoupleError::MissingThermocoupleFault)
    );
    let ground: [u8; 4] = [0, 1, 0, 2];
    assert_eq!(
        max31855::decode_all_raw(&ground),
        Err(max31855::ThermocoupleError::GroundShortFault)
    );
    let vcc: [u8; 4] = [0, 1, 0, 4];
    assert_eq!(max31855::decode_all_raw(&vcc), Err(max31855::ThermocoupleError::VccShortFault));
    let bare: [u8; 4] = [0, 1, 0, 0];
    assert_eq!(max31855::decode_all_raw(&bare), Err(max31855::ThermocoupleError::Fault));
    let fine: [u8; 4] = [0, 0, 0, 0];
    assert!(max31855::decode_thermocouple_raw(&fine).is_ok());
    assert_eq!(
        max31855::decode_thermocouple_raw(&missing),
        Err(max31855::ThermocoupleError::Fault)
    );
}

#[test]
fn bits_to_i16_sign_extends_sensor_fields() {
    // a fourteen-bit field scaled by four
    assert_eq!(bits_to_i16(0x0190, 14, 4, 2), 400);
    assert_eq!(bits_to_i16(0x3fff, 14, 4, 2), -1);
    assert_eq!(bits_to_i16(0x2000, 14, 4, 2), -8192);
    // a twelve-bit field scaled by sixteen
    assert_eq!(bits_to_i16(0x0191, 12, 16, 4), 401);
    assert_eq!(bits_to_i16(0x0fff, 12, 16, 4), -1);
    // the full sixteen bits pass through
    assert_eq!(bits_to_i16(0xffff, 16, 1, 0), -1);
    assert_eq!(bits_to_i16(0x7fff, 16, 1, 0), 0x7fff);
}

#[test]
fn expander_registers_round_trip_through_bytes() {
    let registers = tca9534::TCA9534Registers::new();
    assert_eq!(registers.to_bytes(), [0x00, 0xff, 0x00, 0xff]);
    let decoded = tca9534::TCA9534Registers::from_bytes(&[1, 2, 3, 4]);
    assert_eq!(decoded.to_bytes(), [1, 2, 3, 4]);
}

#[test]
fn expander_address_byte_carries_the_read_bit() {
    let address = tca9534::AddressByte::new();
    assert_eq!(address.0, 0x40);
    assert_eq!(address.with_read(true).0, 0x41);
    assert_eq!(address.with_read(true).with_read(false).0, 0x40);
}

#[test]
fn expander_operations_pair_command_and_register() {
    match tca9534::get_register_operation(tca9534::CommandBytes::Config) {
        Operation::WriteRead { data, read_len } => {
            assert_eq!(data, vec![3]);
            assert_eq!(read_len, 1);
        },
        _ => panic!("a write-then-read"),
    }
    match tca9534::set_register_operation(
        tca9534::CommandBytes::OutputPort,
        tca9534::RegisterValues { bits: 0xa5 },
    ) {
        Operation::Write { data } => assert_eq!(data, vec![1, 0xa5]),
        _ => panic!("a write"),
    }
    let values = tca9534::RegisterValues { bits: 0b0000_0100 };
    assert!(values.pin(2));
    assert!(!values.pin(3));
}

#[test]
fn memory_addresses_validate_and_wrap() {
    assert!(fm24cl16b::MemoryAddress::new(2047).is_ok());
    assert!(fm24cl16b::MemoryAddress::new(2048).is_err());
    let address = fm24cl16b::MemoryAddress::new(0x0234).expect("valid");
    // page bits ride in the bus address byte, the rest in the word byte
    assert_eq!(fm24cl16b::create_address(&address), 0b01010_010);
    assert_eq!(fm24cl16b::create_word(&address), 0x34);
    let advanced = address.advance(18);
    assert_eq!(advanced.0, 0x0234 + 18);
    let wrapped = fm24cl16b::MemoryAddress::new(2040).expect("valid").advance(10);
    assert_eq!(wrapped.0, (2040 + 10) % 2047);
    assert!(fm24cl16b::check_buffer_len(2048).is_ok());
    assert_eq!(
        fm24cl16b::check_buffer_len(2049),
        Err(fm24cl16b::Error::InvalidBufferSize)
    );
}

#[test]
fn dimmer_accumulator_fires_on_wraparound() {
    let mut dimmer = ZeroCrossDimmer::new();
    // off never drives the output
    assert!(!dimmer.on_zero_cross());
    assert_eq!(dimmer.acc, 0);
    // half duty: every second crossing wraps the accumulator
    dimmer.set_command(DimmerSetting::Level(0x8000));
    assert!(!dimmer.on_zero_cross());
    assert!(dimmer.on_zero_cross());
    assert!(!dimmer.on_zero_cross());
    assert!(dimmer.on_zero_cross());
    // full duty: every crossing fires after the first
    let mut full = ZeroCrossDimmer::new();
    full.set_command(DimmerSetting::Level(0xffff));
    assert!(!full.on_zero_cross());
    assert!(full.on_zero_cross());
    assert!(full.on_zero_cross());
}

#[test]
fn memory_driver_mirrors_the_chip_counter() {
    let mut memory = fm24cl16b::Fm24cl16b::new();
    assert_eq!(memory.memory_address.0, 0);
    // a read at the internal address targets page zero and advances
    let address = memory.read_current(16).expect("fits");
    assert_eq!(address, 0b01010_000);
    assert_eq!(memory.memory_address.0, 16);
    // an oversized read is refused and the counter holds still
    assert_eq!(memory.read_current(2049), Err(fm24cl16b::Error::InvalidBufferSize));
    assert_eq!(memory.memory_address.0, 16);
    // a read from a fresh address retargets the counter, then advances it
    let target = fm24cl16b::MemoryAddress::new(0x0345).expect("valid");
    let (address, word) = memory.read_random(target, 4).expect("fits");
    assert_eq!(address, 0b01010_011);
    assert_eq!(word, 0x45);
    assert_eq!(memory.memory_address.0, 0x0345 + 4);
    // an oversized random read still leaves the counter retargeted
    let target = fm24cl16b::MemoryAddress::new(7).expect("valid");
    assert!(memory.read_random(target, 4096).is_err());
    assert_eq!(memory.memory_address.0, 7);
}

use isw_rs::error::{AccessError, ConfigError, IswError};
use isw_rs::isw_raw_access::{RegisterSpace, SimulatedRegisters};
use isw_rs::isw_rs_base::{
    classify_backlight, decode_threshold, encode_threshold, fan_rpm, fan_speed, register_value,
    IswRsBase, Quantity, UsbBacklightKind, FAN_DIVISOR_CONSTANT, IO_FILE,
};

const TEXT: &str = "\
[MSI_ADDRESS_DEFAULT]
address_profile = MSI_ADDRESS_DEFAULT
battery_charging_threshold_address = 0xef
realtime_cpu_temp_address = 0x68
realtime_gpu_temp_address = 0x80
realtime_cpu_fan_speed_address = 0x71
realtime_gpu_fan_speed_address = 0x89
realtime_cpu_fan_rpm_address = 0xcc
realtime_gpu_fan_rpm_address = 0xca
cooler_boost_address = 0x98
usb_backlight_address = 0xf7

[COOLER_BOOST]
address_profile = MSI_ADDRESS_DEFAULT
cooler_boost_off = 0
cooler_boost_on = 128

[USB_BACKLIGHT]
address_profile = MSI_ADDRESS_DEFAULT
usb_backlight_off = 128
usb_backlight_half = 193
usb_backlight_full = 129
";

fn controller() -> IswRsBase<SimulatedRegisters> {
    IswRsBase::new(SimulatedRegisters::new(256), "isw.conf".to_string(), TEXT).unwrap()
}

fn controller_with(text: &str) -> IswRsBase<SimulatedRegisters> {
    IswRsBase::new(SimulatedRegisters::new(256), "isw.conf".to_string(), text).unwrap()
}

fn missing(section: &str, key: &str) -> IswError {
    IswError::Config(ConfigError::MissingKey { section: section.to_string(), key: key.to_string() })
}

fn put(isw: &mut IswRsBase<SimulatedRegisters>, address: u64, value: u16) {
    assert_eq!(isw.raw_access.write_hw(address, value), Ok(()));
}

#[test]
fn cooler_boost_reads_back_what_was_set() {
    let mut isw = controller();
    assert_eq!(isw.set_cooler_boost(true), Ok(()));
    assert_eq!(isw.get_cooler_boost(), Ok(true));
    assert_eq!(isw.raw_access.read_hw(0x98), Ok(128));
    assert_eq!(isw.set_cooler_boost(false), Ok(()));
    assert_eq!(isw.get_cooler_boost(), Ok(false));
    assert_eq!(isw.raw_access.read_hw(0x98), Ok(0));
}

#[test]
fn cooler_boost_is_on_only_for_the_encoding_for_on() {
    let mut isw = controller();
    for raw in [0u16, 1, 127, 129, 0x8080, 0xFFFF] {
        put(&mut isw, 0x98, raw);
        assert_eq!(isw.get_cooler_boost(), Ok(false));
    }
    put(&mut isw, 0x98, 128);
    assert_eq!(isw.get_cooler_boost(), Ok(true));
}

#[test]
fn cooler_boost_with_equal_encodings_always_reads_on() {
    let text = TEXT.replace("cooler_boost_off = 0", "cooler_boost_off = 128");
    let mut isw = controller_with(&text);
    assert_eq!(isw.set_cooler_boost(false), Ok(()));
    assert_eq!(isw.get_cooler_boost(), Ok(true));
}

#[test]
fn battery_threshold_round_trips() {
    let mut isw = controller();
    for t in 20u8..=100 {
        assert_eq!(isw.set_battery_threshold(t), Ok(()));
        assert_eq!(isw.raw_access.read_hw(0xef), Ok(t as u16 + 128));
        assert_eq!(isw.get_battery_threshold(), Ok(t));
    }
}

#[test]
fn battery_threshold_out_of_range_is_refused() {
    let mut isw = controller();
    assert_eq!(isw.set_battery_threshold(60), Ok(()));
    let before = isw.raw_access.clone();
    for t in [0u8, 1, 19, 101, 128, 255] {
        assert_eq!(isw.set_battery_threshold(t), Err(IswError::OutOfRange));
        assert_eq!(isw.raw_access, before);
    }
    assert_eq!(isw.get_battery_threshold(), Ok(60));
}

#[test]
fn battery_threshold_is_checked_before_the_configuration() {
    let mut isw = controller_with("");
    assert_eq!(isw.set_battery_threshold(19), Err(IswError::OutOfRange));
    assert_eq!(
        isw.set_battery_threshold(20),
        Err(missing("MSI_ADDRESS_DEFAULT", "battery_charging_threshold_address"))
    );
}

#[test]
fn battery_threshold_of_a_foreign_value_wraps_in_eight_bits() {
    let mut isw = controller();
    for (raw, t) in [(0u16, 128u8), (127, 255), (128, 0), (148, 20), (228, 100), (255, 127), (256, 128), (404, 20), (0xFFFF, 127)] {
        put(&mut isw, 0xef, raw);
        assert_eq!(isw.get_battery_threshold(), Ok(t));
        assert_eq!(decode_threshold(raw), t);
    }
}

#[test]
fn threshold_codes_carry_the_bias() {
    assert_eq!(encode_threshold(19), None);
    assert_eq!(encode_threshold(20), Some(148));
    assert_eq!(encode_threshold(100), Some(228));
    assert_eq!(encode_threshold(101), None);
    for t in 20u8..=100 {
        assert_eq!(decode_threshold(encode_threshold(t).unwrap()), t);
    }
}

#[test]
fn usb_backlight_is_classified_by_its_encodings() {
    let mut isw = controller();
    put(&mut isw, 0xf7, 193);
    assert_eq!(isw.get_usb_backlight(), Ok(UsbBacklightKind::Half));
    put(&mut isw, 0xf7, 129);
    assert_eq!(isw.get_usb_backlight(), Ok(UsbBacklightKind::Full));
    put(&mut isw, 0xf7, 128);
    assert_eq!(isw.get_usb_backlight(), Ok(UsbBacklightKind::Off));
    for raw in [0u16, 1, 127, 130, 192, 194, 0x0180, 0xFFFF] {
        put(&mut isw, 0xf7, raw);
        assert_eq!(isw.get_usb_backlight(), Ok(UsbBacklightKind::Unrecognized));
    }
}

#[test]
fn usb_backlight_reads_back_what_was_set() {
    let mut isw = controller();
    for (state, raw) in [(UsbBacklightKind::Off, 128u16), (UsbBacklightKind::Half, 193), (UsbBacklightKind::Full, 129)] {
        assert_eq!(isw.set_usb_backlight(state), Ok(()));
        assert_eq!(isw.raw_access.read_hw(0xf7), Ok(raw));
        assert_eq!(isw.get_usb_backlight(), Ok(state));
    }
}

#[test]
fn usb_backlight_unrecognized_is_an_invalid_argument() {
    let mut isw = controller();
    let before = isw.raw_access.clone();
    assert_eq!(isw.set_usb_backlight(UsbBacklightKind::Unrecognized), Err(IswError::InvalidArgument));
    assert_eq!(isw.raw_access, before);
    let mut bare = controller_with("");
    assert_eq!(bare.set_usb_backlight(UsbBacklightKind::Unrecognized), Err(IswError::InvalidArgument));
}

#[test]
fn equal_encodings_are_classified_off_before_half_before_full() {
    assert_eq!(classify_backlight(5, 5, 5, 5), UsbBacklightKind::Off);
    assert_eq!(classify_backlight(5, 4, 5, 5), UsbBacklightKind::Half);
    assert_eq!(classify_backlight(5, 4, 3, 5), UsbBacklightKind::Full);
    assert_eq!(classify_backlight(5, 4, 3, 2), UsbBacklightKind::Unrecognized);
    assert_eq!(classify_backlight(0, 1, 2, 3), UsbBacklightKind::Unrecognized);
    assert_eq!(classify_backlight(0, 0, 2, 3), UsbBacklightKind::Off);
}

#[test]
fn fan_rpm_divides_the_constant() {
    assert_eq!(FAN_DIVISOR_CONSTANT, 478000);
    assert_eq!(fan_rpm(478000), 1);
    assert_eq!(fan_rpm(0), 0);
    assert_eq!(fan_rpm(239000), 2);
    assert_eq!(fan_rpm(478001), 0);
    assert_eq!(fan_rpm(u32::MAX), 0);
    assert_eq!(fan_rpm(239), 2000);
    assert_eq!(fan_rpm(100), 4780);
    assert_eq!(fan_rpm(8), 59750);
    assert_eq!(fan_rpm(7), (478000u32 / 7) as u16);
    assert_eq!(fan_rpm(7), 2749);
    assert_eq!(fan_rpm(1), 19248);
}

#[test]
fn fan_rpm_is_read_from_the_period_counter() {
    let mut isw = controller();
    assert_eq!(isw.get_cpu_fan_rpm(), Ok(0));
    put(&mut isw, 0xcc, 239);
    assert_eq!(isw.get_cpu_fan_rpm(), Ok(2000));
    assert_eq!(isw.get_gpu_fan_rpm(), Ok(0));
    put(&mut isw, 0xcb, 0x0001);
    assert_eq!(isw.get_gpu_fan_rpm(), Ok((478000u32 / 0x0100) as u16));
    assert_eq!(isw.get_cpu_fan_rpm(), Ok(0));
    put(&mut isw, 0xcc, 239);
    put(&mut isw, 0xca, 478);
    assert_eq!(isw.get_gpu_fan_rpm(), Ok(1000));
    put(&mut isw, 0xca, 0xFFFF);
    assert_eq!(isw.get_gpu_fan_rpm(), Ok(7));
}

#[test]
fn a_counter_beyond_sixteen_bits_is_read_by_its_low_half() {
    let mut isw = controller();
    put(&mut isw, 0xcc, (478000u32 % 0x1_0000) as u16);
    assert_eq!(isw.raw_access.read_hw(0xcc), Ok(19248));
    assert_eq!(isw.get_cpu_fan_rpm(), Ok(24));
    put(&mut isw, 0xca, (239000u32 % 0x1_0000) as u16);
    assert_eq!(isw.get_gpu_fan_rpm(), Ok((478000u32 / 42392) as u16));
    assert_eq!(isw.get_gpu_fan_rpm(), Ok(11));
}

#[test]
fn fan_speed_is_the_low_byte() {
    assert_eq!(fan_speed(0x1234), 0x34);
    assert_eq!(fan_speed(0x00FF), 0xFF);
    assert_eq!(fan_speed(0xFF00), 0);
    let mut isw = controller();
    put(&mut isw, 0x71, 0x1234);
    assert_eq!(isw.get_cpu_fan_speed(), Ok(0x34));
    put(&mut isw, 0x89, 0xAB64);
    assert_eq!(isw.get_gpu_fan_speed(), Ok(100));
}

#[test]
fn temperature_is_the_register_as_it_stands() {
    let mut isw = controller();
    put(&mut isw, 0x68, 42);
    put(&mut isw, 0x80, 0x0137);
    assert_eq!(isw.get_cpu_temp(), Ok(42));
    assert_eq!(isw.get_gpu_temp(), Ok(0x0137));
    assert_eq!(isw.get_cpu_temp().map(|t| t as f64), Ok(42.0));
}

#[test]
fn sensors_are_read_by_name() {
    let mut isw = controller();
    put(&mut isw, 0x68, 42);
    put(&mut isw, 0x71, 0x0150);
    put(&mut isw, 0xcc, 478);
    assert_eq!(isw.read_quantity(Quantity::CpuTemp), Ok(42));
    assert_eq!(isw.read_quantity(Quantity::CpuFanSpeed), Ok(0x50));
    assert_eq!(isw.read_quantity(Quantity::CpuFanRpm), Ok(1000));
    assert_eq!(isw.read_quantity(Quantity::GpuTemp), Ok(0));
    assert_eq!(isw.get_data("realtime_cpu_fan_speed_address".to_string()), Ok(0x0150));
    assert_eq!(isw.get_temp("realtime_cpu_temp_address".to_string()), Ok(42));
    assert_eq!(isw.get_fan_speed("realtime_cpu_fan_speed_address".to_string()), Ok(0x50));
    assert_eq!(isw.get_fan_rpm("realtime_cpu_fan_rpm_address".to_string()), Ok(1000));
}

#[test]
fn encodings_are_cut_to_sixteen_bits() {
    assert_eq!(register_value(0x1_0080), 0x0080);
    assert_eq!(register_value(0xFFFF), 0xFFFF);
    assert_eq!(register_value(u64::MAX), 0xFFFF);
    let text = TEXT.replace("cooler_boost_on = 128", "cooler_boost_on = 0x10080");
    let mut isw = controller_with(&text);
    assert_eq!(isw.set_cooler_boost(true), Ok(()));
    assert_eq!(isw.raw_access.read_hw(0x98), Ok(0x0080));
    assert_eq!(isw.get_cooler_boost(), Ok(true));
}

#[test]
fn raw_registers_are_read_and_written() {
    let mut isw = controller();
    assert_eq!(isw.write_register(0x10, 0xBEEF), Ok(()));
    assert_eq!(isw.read_register(0x10), Ok(0xBEEF));
    assert_eq!(isw.raw_access.cells[0x10], 0xEF);
    assert_eq!(isw.raw_access.cells[0x11], 0xBE);
    assert_eq!(isw.read_register(256), Err(IswError::Access(AccessError::Transfer)));
    assert_eq!(isw.write_register(257, 1), Err(IswError::Access(AccessError::Seek { address: 257 })));
}

#[test]
fn access_failures_come_through_unchanged() {
    let mut isw = controller();
    isw.raw_access.offline = true;
    assert_eq!(isw.get_cooler_boost(), Err(IswError::Access(AccessError::Open)));
    assert_eq!(isw.set_cooler_boost(true), Err(IswError::Access(AccessError::Open)));
    assert_eq!(isw.get_usb_backlight(), Err(IswError::Access(AccessError::Open)));
    assert_eq!(isw.set_usb_backlight(UsbBacklightKind::Half), Err(IswError::Access(AccessError::Open)));
    assert_eq!(isw.get_battery_threshold(), Err(IswError::Access(AccessError::Open)));
    assert_eq!(isw.set_battery_threshold(50), Err(IswError::Access(AccessError::Open)));
    assert_eq!(isw.get_cpu_temp(), Err(IswError::Access(AccessError::Open)));
    assert_eq!(isw.get_gpu_fan_speed(), Err(IswError::Access(AccessError::Open)));
    assert_eq!(isw.get_gpu_fan_rpm(), Err(IswError::Access(AccessError::Open)));
}

#[test]
fn an_address_beyond_the_space_fails_to_seek() {
    let text = TEXT.replace("cooler_boost_address = 0x98", "cooler_boost_address = 0x1000");
    let mut isw = controller_with(&text);
    assert_eq!(isw.get_cooler_boost(), Err(IswError::Access(AccessError::Seek { address: 0x1000 })));
    assert_eq!(isw.set_cooler_boost(true), Err(IswError::Access(AccessError::Seek { address: 0x1000 })));
    let text = TEXT.replace("cooler_boost_address = 0x98", "cooler_boost_address = 255");
    let mut isw = controller_with(&text);
    assert_eq!(isw.get_cooler_boost(), Err(IswError::Access(AccessError::Transfer)));
}

#[test]
fn configuration_failures_come_through_unchanged() {
    let mut isw = controller_with("[COOLER_BOOST]\ncooler_boost_on = 1\n");
    assert_eq!(isw.get_cooler_boost(), Err(missing("COOLER_BOOST", "cooler_boost_address")));
    assert_eq!(isw.set_cooler_boost(false), Err(missing("COOLER_BOOST", "cooler_boost_off")));
    assert_eq!(isw.set_cooler_boost(true), Err(missing("COOLER_BOOST", "cooler_boost_address")));
    assert_eq!(isw.get_usb_backlight(), Err(missing("USB_BACKLIGHT", "usb_backlight_address")));
    assert_eq!(isw.get_battery_threshold(), Err(missing("MSI_ADDRESS_DEFAULT", "battery_charging_threshold_address")));
    assert_eq!(isw.get_cpu_temp(), Err(missing("MSI_ADDRESS_DEFAULT", "realtime_cpu_temp_address")));
    let text = TEXT.replace("usb_backlight_full = 129", "usb_backlight_full = full");
    let mut isw = controller_with(&text);
    assert_eq!(isw.get_usb_backlight(), Err(IswError::Config(ConfigError::Parse)));
    assert_eq!(isw.set_usb_backlight(UsbBacklightKind::Full), Err(IswError::Config(ConfigError::Parse)));
    assert_eq!(isw.set_usb_backlight(UsbBacklightKind::Half), Ok(()));
}

#[test]
fn a_malformed_configuration_makes_no_controller() {
    match IswRsBase::new(SimulatedRegisters::new(4), "isw.conf".to_string(), "[COOLER_BOOST\n") {
        Err(IswError::Config(ConfigError::Load { reason })) => assert!(!reason.is_empty()),
        Err(other) => panic!("unexpected {:?}", other),
        Ok(_) => panic!("unexpected controller"),
    }
}

#[test]
fn failures_have_messages() {
    assert_eq!(IswError::InvalidArgument.message(), "No viable option provided");
    assert_eq!(IswError::OutOfRange.message(), "No viable threshold provided");
    assert_eq!(IswError::Access(AccessError::Transfer).message(), "Could not transfer two bytes");
    assert_eq!(missing("S", "k").message(), "Could not get <S> of <k>");
    assert_eq!(
        IswError::UnrecognizedOption { option: "dim".to_string() }.message(),
        "Unrecognized option dim"
    );
    assert_eq!(IO_FILE, "dump.sys2");
}

struct Drifting {
    reads: std::cell::Cell<u16>,
}

impl RegisterSpace for Drifting {
    fn read_hw(&self, _base_address: u64) -> Result<u16, AccessError> {
        let next = self.reads.get() + 1;
        self.reads.set(next);
        Ok(next)
    }

    fn write_hw(&mut self, _base_address: u64, _value: u16) -> Result<(), AccessError> {
        Err(AccessError::Transfer)
    }
}

#[test]
fn a_register_space_that_changes_under_the_reader_is_read_as_it_is() {
    let space = Drifting { reads: std::cell::Cell::new(40) };
    let mut isw = IswRsBase::new(space, "isw.conf".to_string(), TEXT).unwrap();
    assert_eq!(isw.get_cpu_temp(), Ok(41));
    assert_eq!(isw.get_cpu_temp(), Ok(42));
    assert_eq!(isw.set_cooler_boost(true), Err(IswError::Access(AccessError::Transfer)));
    assert_eq!(isw.set_battery_threshold(10), Err(IswError::OutOfRange));
}

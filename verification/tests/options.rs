use isw_rs::error::{AccessError, ConfigError, IswError};
use isw_rs::isw_parse::{
    parse_backlight, parse_boost, run_step, CPUHandler, GPUHandler, MiscHandler, Opts, Raw,
    ReadHandler, StateGetter, Step, WriteHandler, DEFAULT_CONFIG,
};
use isw_rs::isw_raw_access::{RegisterSpace, SimulatedRegisters};
use isw_rs::isw_rs_base::{IswRsBase, UsbBacklightKind};

const TEXT: &str = "\
[MSI_ADDRESS_DEFAULT]
address_profile = MSI_ADDRESS_DEFAULT
battery_charging_threshold_address = 0xef
realtime_cpu_temp_address = 0x68
realtime_gpu_temp_address = 0x80
realtime_cpu_fan_speed_address = 0x71
realtime_gpu_fan_speed_address = 0x89
realtime_cpu_fan_rpm_address = 0xcc
realtime_gpu_fan_rpm_address = 0xca
cooler_boost_address = 0x98
usb_backlight_address = 0xf7

[COOLER_BOOST]
address_profile = MSI_ADDRESS_DEFAULT
cooler_boost_off = 0
cooler_boost_on = 128

[USB_BACKLIGHT]
address_profile = MSI_ADDRESS_DEFAULT
usb_backlight_off = 128
usb_backlight_half = 193
usb_backlight_full = 129
";

fn controller() -> IswRsBase<SimulatedRegisters> {
    IswRsBase::new(SimulatedRegisters::new(256), "isw.conf".to_string(), TEXT).unwrap()
}

fn misc(boost: Option<&str>, usb_backlight: Option<&str>, battery: Option<u8>, socket: Option<bool>) -> Raw {
    Raw::MISC(MiscHandler {
        boost: boost.map(|w| w.to_string()),
        usb_backlight: usb_backlight.map(|w| w.to_string()),
        battery,
        socket,
    })
}

fn refuse(word: &str) -> Step {
    Step::Refuse { option: word.to_string() }
}

#[test]
fn raw_access_is_one_step() {
    assert_eq!(Raw::Write(WriteHandler { address: 152, value: 128 }).steps(), vec![Step::Write { address: 152, value: 128 }]);
    assert_eq!(Raw::Read(ReadHandler { address: 152 }).steps(), vec![Step::Read { address: 152 }]);
}

#[test]
fn states_are_read_battery_first() {
    let all = StateGetter { boost: true, usb_backlight: true, battery: true };
    assert_eq!(Raw::Get(all).steps(), vec![Step::GetBattery, Step::GetBacklight, Step::GetBoost]);
    let some = StateGetter { boost: true, usb_backlight: false, battery: true };
    assert_eq!(Raw::Get(some).steps(), vec![Step::GetBattery, Step::GetBoost]);
    let none = StateGetter { boost: false, usb_backlight: false, battery: false };
    assert_eq!(Raw::Get(none).steps(), vec![]);
}

#[test]
fn sensors_are_read_rpm_first() {
    let all = CPUHandler { temperature: true, rpm: true, speed: true };
    assert_eq!(Raw::CPU(all).steps(), vec![Step::CpuRpm, Step::CpuSpeed, Step::CpuTemp]);
    let one = CPUHandler { temperature: false, rpm: false, speed: true };
    assert_eq!(Raw::CPU(one).steps(), vec![Step::CpuSpeed]);
    let all = GPUHandler { temperature: true, rpm: true, speed: true };
    assert_eq!(Raw::GPU(all).steps(), vec![Step::GpuRpm, Step::GpuSpeed, Step::GpuTemp]);
    let two = GPUHandler { temperature: true, rpm: true, speed: false };
    assert_eq!(Raw::GPU(two).steps(), vec![Step::GpuRpm, Step::GpuTemp]);
}

#[test]
fn states_are_set_boost_first() {
    assert_eq!(
        misc(Some("on"), Some("half"), Some(60), Some(true)).steps(),
        vec![Step::SetBoost(true), Step::SetBacklight(UsbBacklightKind::Half), Step::SetBattery(60), Step::Socket]
    );
    assert_eq!(misc(Some("off"), None, None, None).steps(), vec![Step::SetBoost(false)]);
    assert_eq!(misc(None, Some("full"), None, Some(false)).steps(), vec![Step::SetBacklight(UsbBacklightKind::Full)]);
    assert_eq!(misc(None, Some("off"), Some(7), None).steps(), vec![Step::SetBacklight(UsbBacklightKind::Off), Step::SetBattery(7)]);
    assert_eq!(misc(None, None, None, None).steps(), vec![]);
}

#[test]
fn a_word_that_names_no_state_is_refused_in_its_place() {
    assert_eq!(misc(Some("ON"), Some("half"), None, None).steps(), vec![refuse("ON"), Step::SetBacklight(UsbBacklightKind::Half)]);
    assert_eq!(misc(Some("on"), Some("dim"), Some(50), None).steps(), vec![Step::SetBoost(true), refuse("dim"), Step::SetBattery(50)]);
    assert_eq!(misc(Some(""), Some(""), None, None).steps(), vec![refuse(""), refuse("")]);
}

#[test]
fn options_take_the_steps_of_what_they_hold() {
    let opts = Opts { config: DEFAULT_CONFIG.to_string(), raw: Raw::Read(ReadHandler { address: 1 }) };
    assert_eq!(opts.steps(), vec![Step::Read { address: 1 }]);
    assert_eq!(DEFAULT_CONFIG, "isw.conf");
}

#[test]
fn option_words_are_spelled_in_lower_case() {
    assert_eq!(parse_boost("on"), Some(true));
    assert_eq!(parse_boost("off"), Some(false));
    assert_eq!(parse_boost("On"), None);
    assert_eq!(parse_boost(""), None);
    assert_eq!(parse_backlight("off"), UsbBacklightKind::Off);
    assert_eq!(parse_backlight("half"), UsbBacklightKind::Half);
    assert_eq!(parse_backlight("full"), UsbBacklightKind::Full);
    assert_eq!(parse_backlight("none"), UsbBacklightKind::Unrecognized);
    assert_eq!(parse_backlight("Full"), UsbBacklightKind::Unrecognized);
}

#[test]
fn reading_steps_report_a_line() {
    let mut isw = controller();
    isw.raw_access.write_hw(0x68, 42).unwrap();
    isw.raw_access.write_hw(0x80, 57).unwrap();
    isw.raw_access.write_hw(0x71, 0x0130).unwrap();
    isw.raw_access.write_hw(0x89, 0x0231).unwrap();
    isw.raw_access.write_hw(0xcc, 239).unwrap();
    isw.raw_access.write_hw(0xca, 478).unwrap();
    isw.raw_access.write_hw(0xef, 208).unwrap();
    isw.raw_access.write_hw(0xf7, 193).unwrap();
    isw.raw_access.write_hw(0x98, 128).unwrap();
    let expected = [
        (Step::Read { address: 0x68 }, "Value: 42"),
        (Step::GetBattery, "Battery threshold: 80"),
        (Step::GetBacklight, "USB-Backlight is at half-strength"),
        (Step::GetBoost, "Coolerboost is on"),
        (Step::CpuRpm, "CPU-Fan rpm: 2000"),
        (Step::CpuSpeed, "CPU-Fan speed: 48"),
        (Step::CpuTemp, "CPU temperature: 42"),
        (Step::GpuRpm, "GPU-Fan rpm: 1000"),
        (Step::GpuSpeed, "GPU-Fan speed: 49"),
        (Step::GpuTemp, "GPU temperature: 57"),
        (Step::Socket, ""),
    ];
    let before = isw.raw_access.clone();
    for (step, line) in expected {
        assert_eq!(run_step(&mut isw, &step), Ok(line.to_string()));
        assert_eq!(isw.raw_access, before);
    }
}

#[test]
fn every_backlight_strength_and_boost_state_has_its_line() {
    let mut isw = controller();
    for (raw, line) in [(128u16, "USB-Backlight is off"), (193, "USB-Backlight is at half-strength"), (129, "USB-Backlight is at full-strength"), (7, "No USB-Backlight detected")] {
        isw.raw_access.write_hw(0xf7, raw).unwrap();
        assert_eq!(run_step(&mut isw, &Step::GetBacklight), Ok(line.to_string()));
    }
    assert_eq!(run_step(&mut isw, &Step::GetBoost), Ok("Coolerboost is off".to_string()));
}

#[test]
fn writing_steps_report_nothing() {
    let mut isw = controller();
    assert_eq!(run_step(&mut isw, &Step::Write { address: 4, value: 0x0102 }), Ok(String::new()));
    assert_eq!(isw.raw_access.read_hw(4), Ok(0x0102));
    assert_eq!(run_step(&mut isw, &Step::SetBoost(true)), Ok(String::new()));
    assert_eq!(isw.get_cooler_boost(), Ok(true));
    assert_eq!(run_step(&mut isw, &Step::SetBacklight(UsbBacklightKind::Full)), Ok(String::new()));
    assert_eq!(isw.get_usb_backlight(), Ok(UsbBacklightKind::Full));
    assert_eq!(run_step(&mut isw, &Step::SetBattery(75)), Ok(String::new()));
    assert_eq!(isw.get_battery_threshold(), Ok(75));
}

#[test]
fn failing_steps_report_the_failure() {
    let mut isw = controller();
    let before = isw.raw_access.clone();
    assert_eq!(run_step(&mut isw, &refuse("dim")), Err(IswError::UnrecognizedOption { option: "dim".to_string() }));
    assert_eq!(run_step(&mut isw, &Step::SetBattery(101)), Err(IswError::OutOfRange));
    assert_eq!(run_step(&mut isw, &Step::SetBacklight(UsbBacklightKind::Unrecognized)), Err(IswError::InvalidArgument));
    assert_eq!(run_step(&mut isw, &Step::Read { address: 300 }), Err(IswError::Access(AccessError::Seek { address: 300 })));
    assert_eq!(run_step(&mut isw, &Step::Write { address: 255, value: 1 }), Err(IswError::Access(AccessError::Transfer)));
    assert_eq!(isw.raw_access, before);
    let mut bare = IswRsBase::new(SimulatedRegisters::new(8), "isw.conf".to_string(), "").unwrap();
    assert_eq!(
        run_step(&mut bare, &Step::CpuTemp),
        Err(IswError::Config(ConfigError::MissingKey {
            section: "MSI_ADDRESS_DEFAULT".to_string(),
            key: "realtime_cpu_temp_address".to_string(),
        }))
    );
}

#[test]
fn a_run_takes_its_steps_in_order() {
    let mut isw = controller();
    let mut lines = Vec::new();
    for step in misc(Some("on"), Some("full"), Some(90), None).steps() {
        lines.push(run_step(&mut isw, &step));
    }
    for step in Raw::Get(StateGetter { boost: true, usb_backlight: true, battery: true }).steps() {
        lines.push(run_step(&mut isw, &step));
    }
    assert_eq!(
        lines,
        vec![
            Ok(String::new()),
            Ok(String::new()),
            Ok(String::new()),
            Ok("Battery threshold: 90".to_string()),
            Ok("USB-Backlight is at full-strength".to_string()),
            Ok("Coolerboost is on".to_string()),
        ]
    );
}

//! The controller's operations: cooler boost, USB backlight, battery
//! charging threshold and the temperature and fan sensors. Each operation
//! resolves its address and encodings from the configuration, makes one
//! register access and interprets what it read.

use crate::error::{AccessError, ConfigError, ConfigErrorView, IswError, IswErrorView};
use crate::isw_config_ops::{
    base_address, config_result, ini_read_result, numeric_property, IswConfigOps,
};
use crate::isw_raw_access::{
    law_store_then_load, read_outcome, RegisterSpace, SimulatedRegisters,
};
use vstd::prelude::*;
use vstd::string::*;

verus! {

pub const MSI_ADDRESS_DEFAULT: &'static str = "MSI_ADDRESS_DEFAULT";

pub const COOLER_BOOST: &'static str = "COOLER_BOOST";

pub const COOLER_BOOST_OFF: &'static str = "cooler_boost_off";

pub const COOLER_BOOST_ON: &'static str = "cooler_boost_on";

pub const COOLER_BOOST_ADDRESS_IDENTIFIER: &'static str = "cooler_boost_address";

pub const BATTERY_CHARGING_THRESHOLD_ADDRESS_IDENTIFIER: &'static str =
    "battery_charging_threshold_address";

pub const USB_BACKLIGHT: &'static str = "USB_BACKLIGHT";

pub const USB_BACKLIGHT_ADDRESS_IDENTIFIER: &'static str = "usb_backlight_address";

pub const USB_BACKLIGHT_OFF: &'static str = "usb_backlight_off";

pub const USB_BACKLIGHT_HALF: &'static str = "usb_backlight_half";

pub const USB_BACKLIGHT_FULL: &'static str = "usb_backlight_full";

pub const GPU_TEMP_ADDRESS_IDENTIFIER: &'static str = "realtime_gpu_temp_address";

pub const CPU_TEMP_ADDRESS_IDENTIFIER: &'static str = "realtime_cpu_temp_address";

pub const GPU_FAN_SPEED_ADDRESS_IDENTIFIER: &'static str = "realtime_gpu_fan_speed_address";

pub const CPU_FAN_SPEED_ADDRESS_IDENTIFIER: &'static str = "realtime_cpu_fan_speed_address";

pub const GPU_FAN_RPM_ADDRESS_IDENTIFIER: &'static str = "realtime_gpu_fan_rpm_address";

pub const CPU_FAN_RPM_ADDRESS_IDENTIFIER: &'static str = "realtime_cpu_fan_rpm_address";

/// The register file that the controller is reached through by default.
pub const IO_FILE: &'static str = "dump.sys2";

/// The fan's period counter divides this constant into revolutions per minute.
pub const FAN_DIVISOR_CONSTANT: u32 = 478000;

/// The smallest battery charging threshold, in percent.
pub const THRESHOLD_MIN: u8 = 20;

/// The largest battery charging threshold, in percent.
pub const THRESHOLD_MAX: u8 = 100;

/// What a threshold is stored with on top of its percentage.
pub const THRESHOLD_BIAS: u16 = 128;

/// The strength of the USB backlight.
#[derive(Clone, Copy, Debug, PartialEq, Eq, Structural)]
pub enum UsbBacklightKind {
    Off,
    Half,
    Full,
    /// None of the three: a register value that matches no encoding, or a
    /// request that names no strength.
    Unrecognized,
}

/// One register write: the value and the address it goes to.
pub struct RegisterWrite {
    pub address: u64,
    pub value: u16,
}

/// The sensors of the controller.
#[derive(Clone, Copy, Debug, PartialEq, Eq, Structural)]
pub enum Quantity {
    CpuTemp,
    GpuTemp,
    CpuFanSpeed,
    GpuFanSpeed,
    CpuFanRpm,
    GpuFanRpm,
}

/// The sixteen bits of a configured encoding that a register takes.
pub open spec fn low16(value: u64) -> u16 {
    (value as int % 0x1_0000) as u16
}

/// The backlight strength that a register value stands for, given the
/// three configured encodings. Where encodings coincide, off goes before
/// half and half before full.
pub open spec fn backlight_kind(raw: u16, off: u16, half: u16, full: u16) -> UsbBacklightKind {
    if raw == off {
        UsbBacklightKind::Off
    } else if raw == half {
        UsbBacklightKind::Half
    } else if raw == full {
        UsbBacklightKind::Full
    } else {
        UsbBacklightKind::Unrecognized
    }
}

/// A battery charging threshold that can be set.
pub open spec fn threshold_in_range(t: u8) -> bool {
    THRESHOLD_MIN <= t <= THRESHOLD_MAX
}

/// The register value that stands for the threshold `t`.
pub open spec fn threshold_code(t: u8) -> u16 {
    (t + THRESHOLD_BIAS) as u16
}

/// The threshold that a register value stands for: the value less the
/// bias, counted in eight bits, so that a value below the bias wraps round.
pub open spec fn threshold_of(raw: u16) -> u8 {
    ((raw + 256 - THRESHOLD_BIAS) % 256) as u8
}

/// The fan speed in a register value: its low byte.
pub open spec fn fan_speed_of(raw: u16) -> u16 {
    (raw % 256) as u16
}

/// The revolutions per minute for a period counter: the constant divided
/// by the counter, cut to sixteen bits; zero for a fan that stands still.
pub open spec fn fan_rpm_of(raw: u32) -> u16 {
    if raw == 0 {
        0
    } else {
        ((FAN_DIVISOR_CONSTANT as int / raw as int) % 0x1_0000) as u16
    }
}

/// The sixteen bits of a configured encoding that a register takes.
pub fn register_value(value: u64) -> (r: u16)
    ensures
        r == low16(value),
{
    (value % 0x1_0000) as u16
}

/// Tells which backlight strength a register value stands for.
pub fn classify_backlight(raw: u16, off: u16, half: u16, full: u16) -> (r: UsbBacklightKind)
    ensures
        r == backlight_kind(raw, off, half, full),
{
    if raw == off {
        UsbBacklightKind::Off
    } else if raw == half {
        UsbBacklightKind::Half
    } else if raw == full {
        UsbBacklightKind::Full
    } else {
        UsbBacklightKind::Unrecognized
    }
}

/// The register value for the threshold `t`, if `t` can be set.
pub fn encode_threshold(t: u8) -> (r: Option<u16>)
    ensures
        r == (if threshold_in_range(t) {
            Some(threshold_code(t))
        } else {
            None
        }),
{
    if t < THRESHOLD_MIN || t > THRESHOLD_MAX {
        None
    } else {
        Some(t as u16 + THRESHOLD_BIAS)
    }
}

/// The threshold that a register value stands for.
pub fn decode_threshold(raw: u16) -> (r: u8)
    ensures
        r == threshold_of(raw),
{
    ((raw % 256 + 256 - THRESHOLD_BIAS) % 256) as u8
}

/// The fan speed in a register value.
pub fn fan_speed(raw: u16) -> (r: u16)
    ensures
        r == fan_speed_of(raw),
{
    let masked = raw & 0x00FF;
    assert(raw & 0x00FF == raw % 256) by (bit_vector);
    masked
}

/// The revolutions per minute for a period counter.
pub fn fan_rpm(raw: u32) -> (r: u16)
    ensures
        r == fan_rpm_of(raw),
{
    if raw == 0 {
        return 0;
    }
    ((FAN_DIVISOR_CONSTANT / raw) % 0x1_0000) as u16
}

/// `num::cast` from `u16` to `u32`: every value has room, and is kept.
#[verifier::external_body]
fn cast_to_u32(raw: u16) -> (r: Option<u32>)
    ensures
        r == Some(raw as u32),
{
    num::cast(raw)
}

/// `num::cast` from `u16` to `u16`: the value itself.
#[verifier::external_body]
fn cast_to_u16(raw: u16) -> (r: Option<u16>)
    ensures
        r == Some(raw),
{
    num::cast(raw)
}

/// A configuration failure as a failure of the controller.
pub open spec fn lift_config<T>(r: Result<T, ConfigErrorView>) -> Result<T, IswErrorView> {
    match r {
        Ok(v) => Ok(v),
        Err(e) => Err(IswErrorView::Config(e)),
    }
}

/// An access failure as a failure of the controller.
pub open spec fn lift_access<T>(r: Result<T, AccessError>) -> Result<T, IswErrorView> {
    match r {
        Ok(v) => Ok(v),
        Err(e) => Err(IswErrorView::Access(e)),
    }
}

/// A result of the controller with the texts of its error as character
/// sequences.
pub open spec fn isw_result<T>(r: Result<T, IswError>) -> Result<T, IswErrorView> {
    match r {
        Ok(v) => Ok(v),
        Err(e) => Err(e@),
    }
}

/// What an operation makes of a read's result: `interpret` of the value
/// read, or the read's failure.
pub open spec fn interpreted<T>(raw: Result<u16, IswErrorView>, interpret: spec_fn(u16) -> T) -> Result<
    T,
    IswErrorView,
> {
    match raw {
        Ok(v) => Ok(interpret(v)),
        Err(e) => Err(e),
    }
}

/// How an operation that reads relates its result to the space: where
/// the address did not resolve, it fails with that; else it makes one
/// read at the address, and its result is what `interpret` makes of the
/// value read, or the read's failure.
pub open spec fn read_applied<R: RegisterSpace, T>(
    address: Result<u64, IswErrorView>,
    space: R,
    r: Result<T, IswErrorView>,
    interpret: spec_fn(u16) -> T,
) -> bool {
    match address {
        Err(e) => r == Err::<T, IswErrorView>(e),
        Ok(a) => exists|raw: Result<u16, AccessError>| #[trigger]
            space.reads(a, raw) && r == interpreted(lift_access(raw), interpret),
    }
}

/// How an operation that writes relates the space before it to the space
/// after it and to its result: where the write did not resolve, the
/// operation fails with that and touches nothing; else it makes the one
/// write and reports how that went.
pub open spec fn write_applied<R: RegisterSpace>(
    plan: Result<RegisterWrite, IswErrorView>,
    before: R,
    after: R,
    r: Result<(), IswErrorView>,
) -> bool {
    match plan {
        Err(e) => r == Err::<(), IswErrorView>(e) && after == before,
        Ok(w) => match r {
            Ok(_) => before.writes(w.address, w.value, Ok(()), &after),
            Err(IswErrorView::Access(e)) => before.writes(w.address, w.value, Err(e), &after),
            Err(_) => false,
        },
    }
}

/// `r` is the value of the register at `address`.
pub open spec fn register_reads<R: RegisterSpace>(
    space: R,
    address: u64,
    r: Result<u16, IswErrorView>,
) -> bool {
    read_applied(Ok(address), space, r, |raw: u16| raw)
}

/// The address of a sensor, resolved through the default address profile.
pub open spec fn sensor_address(
    entries: Map<(Seq<char>, Seq<char>), Seq<char>>,
    address_of: Seq<char>,
) -> Result<u64, IswErrorView> {
    lift_config(base_address(entries, MSI_ADDRESS_DEFAULT@, address_of))
}

/// The write that switches the cooler boost on or off.
pub open spec fn cooler_boost_write(
    entries: Map<(Seq<char>, Seq<char>), Seq<char>>,
    on: bool,
) -> Result<RegisterWrite, IswErrorView> {
    let key = if on {
        COOLER_BOOST_ON@
    } else {
        COOLER_BOOST_OFF@
    };
    match numeric_property(entries, COOLER_BOOST@, key) {
        Err(e) => Err(IswErrorView::Config(e)),
        Ok(value) => match base_address(
            entries,
            COOLER_BOOST@,
            COOLER_BOOST_ADDRESS_IDENTIFIER@,
        ) {
            Err(e) => Err(IswErrorView::Config(e)),
            Ok(address) => Ok(RegisterWrite { address, value: low16(value) }),
        },
    }
}

/// The address of the cooler boost and the register value that stands for on.
pub open spec fn cooler_boost_read(entries: Map<(Seq<char>, Seq<char>), Seq<char>>) -> Result<
    (u64, u16),
    IswErrorView,
> {
    match base_address(entries, COOLER_BOOST@, COOLER_BOOST_ADDRESS_IDENTIFIER@) {
        Err(e) => Err(IswErrorView::Config(e)),
        Ok(address) => match numeric_property(entries, COOLER_BOOST@, COOLER_BOOST_ON@) {
            Err(e) => Err(IswErrorView::Config(e)),
            Ok(on) => Ok((address, low16(on))),
        },
    }
}

/// `r` tells whether the cooler boost is on: its register holds the
/// encoding for on.
pub open spec fn cooler_boost_reads<R: RegisterSpace>(
    entries: Map<(Seq<char>, Seq<char>), Seq<char>>,
    space: R,
    r: Result<bool, IswErrorView>,
) -> bool {
    match cooler_boost_read(entries) {
        Err(e) => r == Err::<bool, IswErrorView>(e),
        Ok(plan) => read_applied(Ok(plan.0), space, r, |raw: u16| raw == plan.1),
    }
}

/// The configuration key of a backlight strength's encoding.
pub open spec fn backlight_key(state: UsbBacklightKind) -> Seq<char> {
    match state {
        UsbBacklightKind::Off => USB_BACKLIGHT_OFF@,
        UsbBacklightKind::Half => USB_BACKLIGHT_HALF@,
        _ => USB_BACKLIGHT_FULL@,
    }
}

/// The write that sets the USB backlight to `state`.
pub open spec fn usb_backlight_write(
    entries: Map<(Seq<char>, Seq<char>), Seq<char>>,
    state: UsbBacklightKind,
) -> Result<RegisterWrite, IswErrorView> {
    if state == UsbBacklightKind::Unrecognized {
        Err(IswErrorView::InvalidArgument)
    } else {
        match base_address(entries, USB_BACKLIGHT@, USB_BACKLIGHT_ADDRESS_IDENTIFIER@) {
            Err(e) => Err(IswErrorView::Config(e)),
            Ok(address) => match numeric_property(entries, USB_BACKLIGHT@, backlight_key(state)) {
                Err(e) => Err(IswErrorView::Config(e)),
                Ok(value) => Ok(RegisterWrite { address, value: low16(value) }),
            },
        }
    }
}

/// The three register values that stand for the backlight strengths.
pub struct BacklightCodes {
    pub off: u16,
    pub half: u16,
    pub full: u16,
}

/// The address of the USB backlight and its three encodings.
pub open spec fn usb_backlight_read(entries: Map<(Seq<char>, Seq<char>), Seq<char>>) -> Result<
    (u64, BacklightCodes),
    IswErrorView,
> {
    match base_address(entries, USB_BACKLIGHT@, USB_BACKLIGHT_ADDRESS_IDENTIFIER@) {
        Err(e) => Err(IswErrorView::Config(e)),
        Ok(address) => match numeric_property(entries, USB_BACKLIGHT@, USB_BACKLIGHT_HALF@) {
            Err(e) => Err(IswErrorView::Config(e)),
            Ok(half) => match numeric_property(entries, USB_BACKLIGHT@, USB_BACKLIGHT_FULL@) {
                Err(e) => Err(IswErrorView::Config(e)),
                Ok(full) => match numeric_property(entries, USB_BACKLIGHT@, USB_BACKLIGHT_OFF@) {
                    Err(e) => Err(IswErrorView::Config(e)),
                    Ok(off) => Ok(
                        (
                            address,
                            BacklightCodes {
                                off: low16(off),
                                half: low16(half),
                                full: low16(full),
                            },
                        ),
                    ),
                },
            },
        },
    }
}

/// `r` is the strength of the USB backlight: what its register's value
/// stands for.
pub open spec fn usb_backlight_reads<R: RegisterSpace>(
    entries: Map<(Seq<char>, Seq<char>), Seq<char>>,
    space: R,
    r: Result<UsbBacklightKind, IswErrorView>,
) -> bool {
    match usb_backlight_read(entries) {
        Err(e) => r == Err::<UsbBacklightKind, IswErrorView>(e),
        Ok(plan) => read_applied(
            Ok(plan.0),
            space,
            r,
            |raw: u16| backlight_kind(raw, plan.1.off, plan.1.half, plan.1.full),
        ),
    }
}

/// The address of the battery charging threshold.
pub open spec fn threshold_address(entries: Map<(Seq<char>, Seq<char>), Seq<char>>) -> Result<
    u64,
    IswErrorView,
> {
    lift_config(
        numeric_property(
            entries,
            MSI_ADDRESS_DEFAULT@,
            BATTERY_CHARGING_THRESHOLD_ADDRESS_IDENTIFIER@,
        ),
    )
}

/// The write that sets the battery charging threshold to `t` percent.
pub open spec fn battery_threshold_write(
    entries: Map<(Seq<char>, Seq<char>), Seq<char>>,
    t: u8,
) -> Result<RegisterWrite, IswErrorView> {
    if !threshold_in_range(t) {
        Err(IswErrorView::OutOfRange)
    } else {
        match threshold_address(entries) {
            Err(e) => Err(e),
            Ok(address) => Ok(RegisterWrite { address, value: threshold_code(t) }),
        }
    }
}

/// `r` is the battery charging threshold that the register holds.
pub open spec fn battery_threshold_reads<R: RegisterSpace>(
    entries: Map<(Seq<char>, Seq<char>), Seq<char>>,
    space: R,
    r: Result<u8, IswErrorView>,
) -> bool {
    read_applied(threshold_address(entries), space, r, |raw: u16| threshold_of(raw))
}

/// `r` is the value of the sensor register that `address_of` names.
pub open spec fn sensor_reads<R: RegisterSpace>(
    entries: Map<(Seq<char>, Seq<char>), Seq<char>>,
    space: R,
    address_of: Seq<char>,
    r: Result<u16, IswErrorView>,
) -> bool {
    read_applied(sensor_address(entries, address_of), space, r, |raw: u16| raw)
}

/// `r` is the fan speed of the sensor register that `address_of` names.
pub open spec fn fan_speed_reads<R: RegisterSpace>(
    entries: Map<(Seq<char>, Seq<char>), Seq<char>>,
    space: R,
    address_of: Seq<char>,
    r: Result<u16, IswErrorView>,
) -> bool {
    read_applied(sensor_address(entries, address_of), space, r, |raw: u16| fan_speed_of(raw))
}

/// `r` is the revolutions per minute of the sensor register that
/// `address_of` names.
pub open spec fn fan_rpm_reads<R: RegisterSpace>(
    entries: Map<(Seq<char>, Seq<char>), Seq<char>>,
    space: R,
    address_of: Seq<char>,
    r: Result<u16, IswErrorView>,
) -> bool {
    read_applied(
        sensor_address(entries, address_of),
        space,
        r,
        |raw: u16| fan_rpm_of(raw as u32),
    )
}

/// `r` is the reading of a sensor.
pub open spec fn quantity_reads<R: RegisterSpace>(
    entries: Map<(Seq<char>, Seq<char>), Seq<char>>,
    space: R,
    quantity: Quantity,
    r: Result<u16, IswErrorView>,
) -> bool {
    match quantity {
        Quantity::CpuTemp => sensor_reads(entries, space, CPU_TEMP_ADDRESS_IDENTIFIER@, r),
        Quantity::GpuTemp => sensor_reads(entries, space, GPU_TEMP_ADDRESS_IDENTIFIER@, r),
        Quantity::CpuFanSpeed => fan_speed_reads(
            entries,
            space,
            CPU_FAN_SPEED_ADDRESS_IDENTIFIER@,
            r,
        ),
        Quantity::GpuFanSpeed => fan_speed_reads(
            entries,
            space,
            GPU_FAN_SPEED_ADDRESS_IDENTIFIER@,
            r,
        ),
        Quantity::CpuFanRpm => fan_rpm_reads(entries, space, CPU_FAN_RPM_ADDRESS_IDENTIFIER@, r),
        Quantity::GpuFanRpm => fan_rpm_reads(entries, space, GPU_FAN_RPM_ADDRESS_IDENTIFIER@, r),
    }
}

/// A read that the space admits is a read applied.
proof fn lemma_read_admitted<R: RegisterSpace, T>(
    space: R,
    address: u64,
    raw: Result<u16, AccessError>,
    interpret: spec_fn(u16) -> T,
)
    requires
        space.reads(address, raw),
    ensures
        read_applied(Ok(address), space, interpreted(lift_access(raw), interpret), interpret),
{
    let target: Result<u64, IswErrorView> = Ok(address);
    match target {
        Ok(a) => {
            assert(space.reads(a, raw) && interpreted(lift_access(raw), interpret)
                == interpreted(lift_access(raw), interpret));
        },
        Err(e) => {},
    }
}

/// What holds of a read's result holds of what an operation makes of it.
proof fn lemma_read_interpreted<R: RegisterSpace, T>(
    space: R,
    address: Result<u64, IswErrorView>,
    raw: Result<u16, IswErrorView>,
    interpret: spec_fn(u16) -> T,
)
    requires
        read_applied(address, space, raw, |v: u16| v),
    ensures
        read_applied(address, space, interpreted(raw, interpret), interpret),
{
    match address {
        Ok(a) => {
            let read = choose|read: Result<u16, AccessError>| #[trigger]
                space.reads(a, read) && raw == interpreted(lift_access(read), |v: u16| v);
            assert(space.reads(a, read) && interpreted(raw, interpret) == interpreted(
                lift_access(read),
                interpret,
            ));
        },
        Err(e) => {},
    }
}

/// Turns a configuration failure into a failure of the controller.
fn from_config<T>(r: Result<T, ConfigError>) -> (out: Result<T, IswError>)
    ensures
        isw_result(out) == lift_config(config_result(r)),
{
    match r {
        Ok(v) => Ok(v),
        Err(e) => Err(IswError::Config(e)),
    }
}

/// Turns an access failure into a failure of the controller.
fn from_access<T>(r: Result<T, AccessError>) -> (out: Result<T, IswError>)
    ensures
        isw_result(out) == lift_access(r),
{
    match r {
        Ok(v) => Ok(v),
        Err(e) => Err(IswError::Access(e)),
    }
}

/// The controller: a register space and the configuration that says where
/// in it each feature lives.
pub struct IswRsBase<R> {
    pub raw_access: R,
    m_config_ops: IswConfigOps,
}

impl<R: RegisterSpace> IswRsBase<R> {
    /// The register space of the controller.
    pub closed spec fn space(&self) -> R {
        self.raw_access
    }

    /// The configuration of the controller.
    pub closed spec fn config(&self) -> IswConfigOps {
        self.m_config_ops
    }

    /// The values of the configuration, by section and key.
    pub open spec fn entries(&self) -> Map<(Seq<char>, Seq<char>), Seq<char>> {
        self.config().entries()
    }

    /// A controller over `raw_access` with the configuration that
    /// `cfg_text`, the content of the file `cfg_file`, holds.
    pub fn new(raw_access: R, cfg_file: String, cfg_text: &str) -> (r: Result<
        IswRsBase<R>,
        IswError,
    >)
        ensures
            match ini_read_result(cfg_text@) {
                Ok(entries) => r matches Ok(isw) && isw.space() == raw_access && isw.entries()
                    == entries && isw.config().file() == cfg_file@,
                Err(reason) => r matches Err(e) && e@ == IswErrorView::Config(
                    ConfigErrorView::Load { reason },
                ),
            },
    {
        let mut s = IswRsBase { raw_access, m_config_ops: IswConfigOps::new(cfg_file) };
        match s.m_config_ops.load_config(cfg_text) {
            Ok(()) => Ok(s),
            Err(e) => Err(IswError::Config(e)),
        }
    }

    /// Reads the register at `address`.
    pub fn read_register(&self, address: u64) -> (r: Result<u16, IswError>)
        ensures
            register_reads(self.space(), address, isw_result(r)),
    {
        let raw = self.raw_access.read_hw(address);
        proof {
            lemma_read_admitted(self.raw_access, address, raw, |raw: u16| raw);
        }
        from_access(raw)
    }

    /// Writes `value` to the register at `address`.
    pub fn write_register(&mut self, address: u64, value: u16) -> (r: Result<(), IswError>)
        ensures
            final(self).config() == old(self).config(),
            write_applied(
                Ok(RegisterWrite { address, value }),
                old(self).space(),
                final(self).space(),
                isw_result(r),
            ),
    {
        from_access(self.raw_access.write_hw(address, value))
    }

    /// Sets the USB backlight to `state`. `UsbBacklightKind::Unrecognized`
    /// is refused before anything is looked up or written.
    pub fn set_usb_backlight(&mut self, state: UsbBacklightKind) -> (r: Result<(), IswError>)
        ensures
            final(self).config() == old(self).config(),
            write_applied(
                usb_backlight_write(old(self).entries(), state),
                old(self).space(),
                final(self).space(),
                isw_result(r),
            ),
    {
        let key = match state {
            UsbBacklightKind::Off => USB_BACKLIGHT_OFF,
            UsbBacklightKind::Half => USB_BACKLIGHT_HALF,
            UsbBacklightKind::Full => USB_BACKLIGHT_FULL,
            UsbBacklightKind::Unrecognized => {
                return Err(IswError::InvalidArgument);
            },
        };
        let base_address = from_config(
            self.m_config_ops.get_base_address(
                String::from_str(USB_BACKLIGHT),
                String::from_str(USB_BACKLIGHT_ADDRESS_IDENTIFIER),
            ),
        )?;
        let value = from_config(
            self.m_config_ops.get_numeric_property(
                String::from_str(USB_BACKLIGHT),
                String::from_str(key),
            ),
        )?;
        from_access(self.raw_access.write_hw(base_address, register_value(value)))
    }

    /// Reads the strength of the USB backlight.
    pub fn get_usb_backlight(&mut self) -> (r: Result<UsbBacklightKind, IswError>)
        ensures
            *final(self) == *old(self),
            usb_backlight_reads(old(self).entries(), old(self).space(), isw_result(r)),
    {
        let base_address = from_config(
            self.m_config_ops.get_base_address(
                String::from_str(USB_BACKLIGHT),
                String::from_str(USB_BACKLIGHT_ADDRESS_IDENTIFIER),
            ),
        )?;
        let half = from_config(
            self.m_config_ops.get_numeric_property(
                String::from_str(USB_BACKLIGHT),
                String::from_str(USB_BACKLIGHT_HALF),
            ),
        )?;
        let full = from_config(
            self.m_config_ops.get_numeric_property(
                String::from_str(USB_BACKLIGHT),
                String::from_str(USB_BACKLIGHT_FULL),
            ),
        )?;
        let off = from_config(
            self.m_config_ops.get_numeric_property(
                String::from_str(USB_BACKLIGHT),
                String::from_str(USB_BACKLIGHT_OFF),
            ),
        )?;
        let codes = (register_value(off), register_value(half), register_value(full));
        let read = self.read_register(base_address);
        proof {
            lemma_read_interpreted(
                self.space(),
                Ok(base_address),
                isw_result(read),
                |raw: u16| backlight_kind(raw, codes.0, codes.1, codes.2),
            );
        }
        match read {
            Ok(value) => Ok(classify_backlight(value, codes.0, codes.1, codes.2)),
            Err(e) => Err(e),
        }
    }

    /// Sets the battery charging threshold to `t` percent, which has to
    /// lie between 20 and 100.
    pub fn set_battery_threshold(&mut self, t: u8) -> (r: Result<(), IswError>)
        ensures
            final(self).config() == old(self).config(),
            write_applied(
                battery_threshold_write(old(self).entries(), t),
                old(self).space(),
                final(self).space(),
                isw_result(r),
            ),
    {
        let code = match encode_threshold(t) {
            Some(code) => code,
            None => {
                return Err(IswError::OutOfRange);
            },
        };
        let base_address = from_config(
            self.m_config_ops.get_numeric_property(
                String::from_str(MSI_ADDRESS_DEFAULT),
                String::from_str(BATTERY_CHARGING_THRESHOLD_ADDRESS_IDENTIFIER),
            ),
        )?;
        from_access(self.raw_access.write_hw(base_address, code))
    }

    /// Reads the battery charging threshold.
    pub fn get_battery_threshold(&mut self) -> (r: Result<u8, IswError>)
        ensures
            *final(self) == *old(self),
            battery_threshold_reads(old(self).entries(), old(self).space(), isw_result(r)),
    {
        let base_address = from_config(
            self.m_config_ops.get_numeric_property(
                String::from_str(MSI_ADDRESS_DEFAULT),
                String::from_str(BATTERY_CHARGING_THRESHOLD_ADDRESS_IDENTIFIER),
            ),
        )?;
        let read = self.read_register(base_address);
        proof {
            lemma_read_interpreted(
                self.space(),
                Ok(base_address),
                isw_result(read),
                |raw: u16| threshold_of(raw),
            );
        }
        match read {
            Ok(value) => Ok(decode_threshold(value)),
            Err(e) => Err(e),
        }
    }

    /// Switches the cooler boost on or off.
    pub fn set_cooler_boost(&mut self, on: bool) -> (r: Result<(), IswError>)
        ensures
            final(self).config() == old(self).config(),
            write_applied(
                cooler_boost_write(old(self).entries(), on),
                old(self).space(),
                final(self).space(),
                isw_result(r),
            ),
    {
        let base_address = from_config(
            self.m_config_ops.get_base_address(
                String::from_str(COOLER_BOOST),
                String::from_str(COOLER_BOOST_ADDRESS_IDENTIFIER),
            ),
        );
        let key = if on {
            COOLER_BOOST_ON
        } else {
            COOLER_BOOST_OFF
        };
        let value = from_config(
            self.m_config_ops.get_numeric_property(
                String::from_str(COOLER_BOOST),
                String::from_str(key),
            ),
        )?;
        from_access(self.raw_access.write_hw(base_address?, register_value(value)))
    }

    /// Reads whether the cooler boost is on.
    pub fn get_cooler_boost(&mut self) -> (r: Result<bool, IswError>)
        ensures
            *final(self) == *old(self),
            cooler_boost_reads(old(self).entries(), old(self).space(), isw_result(r)),
    {
        let base_address = from_config(
            self.m_config_ops.get_base_address(
                String::from_str(COOLER_BOOST),
                String::from_str(COOLER_BOOST_ADDRESS_IDENTIFIER),
            ),
        )?;
        let is_on = from_config(
            self.m_config_ops.get_numeric_property(
                String::from_str(COOLER_BOOST),
                String::from_str(COOLER_BOOST_ON),
            ),
        )?;
        let on = register_value(is_on);
        let read = self.read_register(base_address);
        proof {
            lemma_read_interpreted(
                self.space(),
                Ok(base_address),
                isw_result(read),
                |raw: u16| raw == on,
            );
        }
        match read {
            Ok(value) => Ok(value == on),
            Err(e) => Err(e),
        }
    }

    /// Reads a sensor.
    pub fn read_quantity(&mut self, quantity: Quantity) -> (r: Result<u16, IswError>)
        ensures
            *final(self) == *old(self),
            quantity_reads(old(self).entries(), old(self).space(), quantity, isw_result(r)),
    {
        match quantity {
            Quantity::CpuTemp => self.get_cpu_temp(),
            Quantity::GpuTemp => self.get_gpu_temp(),
            Quantity::CpuFanSpeed => self.get_cpu_fan_speed(),
            Quantity::GpuFanSpeed => self.get_gpu_fan_speed(),
            Quantity::CpuFanRpm => self.get_cpu_fan_rpm(),
            Quantity::GpuFanRpm => self.get_gpu_fan_rpm(),
        }
    }

    /// Reads the sensor register that `address_of` names.
    pub fn get_data(&self, address_of: String) -> (r: Result<u16, IswError>)
        ensures
            sensor_reads(self.entries(), self.space(), address_of@, isw_result(r)),
    {
        let base_address = from_config(
            self.m_config_ops.get_base_address(String::from_str(MSI_ADDRESS_DEFAULT), address_of),
        )?;
        self.read_register(base_address)
    }

    /// Reads a temperature: the register's value as it stands.
    pub fn get_temp(&mut self, address_of: String) -> (r: Result<u16, IswError>)
        ensures
            *final(self) == *old(self),
            sensor_reads(old(self).entries(), old(self).space(), address_of@, isw_result(r)),
    {
        self.get_data(address_of)
    }

    /// Reads the temperature of the graphics processor.
    pub fn get_gpu_temp(&mut self) -> (r: Result<u16, IswError>)
        ensures
            *final(self) == *old(self),
            sensor_reads(
                old(self).entries(),
                old(self).space(),
                GPU_TEMP_ADDRESS_IDENTIFIER@,
                isw_result(r),
            ),
    {
        self.get_temp(String::from_str(GPU_TEMP_ADDRESS_IDENTIFIER))
    }

    /// Reads the temperature of the processor.
    pub fn get_cpu_temp(&mut self) -> (r: Result<u16, IswError>)
        ensures
            *final(self) == *old(self),
            sensor_reads(
                old(self).entries(),
                old(self).space(),
                CPU_TEMP_ADDRESS_IDENTIFIER@,
                isw_result(r),
            ),
    {
        self.get_temp(String::from_str(CPU_TEMP_ADDRESS_IDENTIFIER))
    }

    /// Reads a fan speed: the low byte of the register.
    pub fn get_fan_speed(&mut self, address_of: String) -> (r: Result<u16, IswError>)
        ensures
            *final(self) == *old(self),
            fan_speed_reads(
                old(self).entries(),
                old(self).space(),
                address_of@,
                isw_result(r),
            ),
    {
        let read = self.get_data(address_of);
        proof {
            lemma_read_interpreted(
                self.space(),
                sensor_address(self.entries(), address_of@),
                isw_result(read),
                |raw: u16| fan_speed_of(raw),
            );
        }
        match read {
            Ok(value) => Ok(fan_speed(cast_to_u16(value).unwrap())),
            Err(e) => Err(e),
        }
    }

    /// Reads the speed of the graphics processor's fan.
    pub fn get_gpu_fan_speed(&mut self) -> (r: Result<u16, IswError>)
        ensures
            *final(self) == *old(self),
            fan_speed_reads(
                old(self).entries(),
                old(self).space(),
                GPU_FAN_SPEED_ADDRESS_IDENTIFIER@,
                isw_result(r),
            ),
    {
        self.get_fan_speed(String::from_str(GPU_FAN_SPEED_ADDRESS_IDENTIFIER))
    }

    /// Reads the speed of the processor's fan.
    pub fn get_cpu_fan_speed(&mut self) -> (r: Result<u16, IswError>)
        ensures
            *final(self) == *old(self),
            fan_speed_reads(
                old(self).entries(),
                old(self).space(),
                CPU_FAN_SPEED_ADDRESS_IDENTIFIER@,
                isw_result(r),
            ),
    {
        self.get_fan_speed(String::from_str(CPU_FAN_SPEED_ADDRESS_IDENTIFIER))
    }

    /// Reads a fan's revolutions per minute from its period counter.
    pub fn get_fan_rpm(&mut self, address_of: String) -> (r: Result<u16, IswError>)
        ensures
            *final(self) == *old(self),
            fan_rpm_reads(
                old(self).entries(),
                old(self).space(),
                address_of@,
                isw_result(r),
            ),
    {
        let read = self.get_data(address_of);
        proof {
            lemma_read_interpreted(
                self.space(),
                sensor_address(self.entries(), address_of@),
                isw_result(read),
                |raw: u16| fan_rpm_of(raw as u32),
            );
        }
        match read {
            Ok(value) => Ok(fan_rpm(cast_to_u32(value).unwrap())),
            Err(e) => Err(e),
        }
    }

    /// Reads the revolutions per minute of the graphics processor's fan.
    pub fn get_gpu_fan_rpm(&mut self) -> (r: Result<u16, IswError>)
        ensures
            *final(self) == *old(self),
            fan_rpm_reads(
                old(self).entries(),
                old(self).space(),
                GPU_FAN_RPM_ADDRESS_IDENTIFIER@,
                isw_result(r),
            ),
    {
        self.get_fan_rpm(String::from_str(GPU_FAN_RPM_ADDRESS_IDENTIFIER))
    }

    /// Reads the revolutions per minute of the processor's fan.
    pub fn get_cpu_fan_rpm(&mut self) -> (r: Result<u16, IswError>)
        ensures
            *final(self) == *old(self),
            fan_rpm_reads(
                old(self).entries(),
                old(self).space(),
                CPU_FAN_RPM_ADDRESS_IDENTIFIER@,
                isw_result(r),
            ),
    {
        self.get_fan_rpm(String::from_str(CPU_FAN_RPM_ADDRESS_IDENTIFIER))
    }
}

/// On a simulated register space, the one outcome that a read admits is
/// what the space holds at the address, or the failure with which the
/// space answers there.
pub proof fn law_simulated_read<T>(
    address: u64,
    space: SimulatedRegisters,
    r: Result<T, IswErrorView>,
    interpret: spec_fn(u16) -> T,
)
    requires
        read_applied(Ok(address), space, r, interpret),
    ensures
        r == interpreted(
            lift_access(read_outcome(space.cells@, space.fault(address), address)),
            interpret,
        ),
{
}

/// On a simulated register space, the cooler boost reads as on after it
/// was switched on, and as off after it was switched off. For off, the
/// encoding for on has to be configured and to differ from the encoding
/// for off in the sixteen bits that a register takes.
pub proof fn law_cooler_boost_round_trip(
    entries: Map<(Seq<char>, Seq<char>), Seq<char>>,
    before: SimulatedRegisters,
    after: SimulatedRegisters,
    on: bool,
    r: Result<bool, IswErrorView>,
)
    requires
        write_applied(cooler_boost_write(entries, on), before, after, Ok(())),
        cooler_boost_reads(entries, after, r),
        !on ==> (numeric_property(entries, COOLER_BOOST@, COOLER_BOOST_ON@) matches Ok(v_on)
            && numeric_property(entries, COOLER_BOOST@, COOLER_BOOST_OFF@) matches Ok(v_off)
            && low16(v_on) != low16(v_off)),
    ensures
        r == Ok::<bool, IswErrorView>(on),
{
    let w = cooler_boost_write(entries, on)->Ok_0;
    assert(before.fault(w.address) is None);
    law_store_then_load(before.cells@, w.address as int, w.value);
}

/// On a simulated register space, the USB backlight reads as the strength
/// that it was set to, where the three encodings differ from one another
/// in the sixteen bits that a register takes.
pub proof fn law_usb_backlight_round_trip(
    entries: Map<(Seq<char>, Seq<char>), Seq<char>>,
    before: SimulatedRegisters,
    after: SimulatedRegisters,
    state: UsbBacklightKind,
    r: Result<UsbBacklightKind, IswErrorView>,
)
    requires
        write_applied(usb_backlight_write(entries, state), before, after, Ok(())),
        usb_backlight_reads(entries, after, r),
        usb_backlight_read(entries) matches Ok(plan) && plan.1.off != plan.1.half && plan.1.off
            != plan.1.full && plan.1.half != plan.1.full,
    ensures
        r == Ok::<UsbBacklightKind, IswErrorView>(state),
{
    let w = usb_backlight_write(entries, state)->Ok_0;
    assert(before.fault(w.address) is None);
    law_store_then_load(before.cells@, w.address as int, w.value);
}

/// On a simulated register space, a battery charging threshold between 20
/// and 100 that was set is the threshold that is then read.
pub proof fn law_battery_threshold_round_trip(
    entries: Map<(Seq<char>, Seq<char>), Seq<char>>,
    before: SimulatedRegisters,
    after: SimulatedRegisters,
    t: u8,
    r: Result<u8, IswErrorView>,
)
    requires
        threshold_in_range(t),
        write_applied(battery_threshold_write(entries, t), before, after, Ok(())),
        battery_threshold_reads(entries, after, r),
    ensures
        r == Ok::<u8, IswErrorView>(t),
{
    let w = battery_threshold_write(entries, t)->Ok_0;
    assert(before.fault(w.address) is None);
    law_store_then_load(before.cells@, w.address as int, w.value);
}

/// A battery charging threshold below 20 or above 100 is refused as out of
/// range, whatever the configuration, and the register space stays as it was.
pub proof fn law_battery_threshold_refused<R: RegisterSpace>(
    entries: Map<(Seq<char>, Seq<char>), Seq<char>>,
    before: R,
    after: R,
    t: u8,
    r: Result<(), IswErrorView>,
)
    requires
        t < 20 || t > 100,
        write_applied(battery_threshold_write(entries, t), before, after, r),
    ensures
        r == Err::<(), IswErrorView>(IswErrorView::OutOfRange),
        after == before,
{
}

/// The threshold that a threshold's register value stands for is that
/// threshold.
pub proof fn law_threshold_code_round_trip(t: u8)
    requires
        threshold_in_range(t),
    ensures
        threshold_of(threshold_code(t)) == t,
{
}

/// With three encodings that differ from one another, a register value
/// stands for off, half or full exactly when it equals that encoding, and
/// for none of them exactly when it equals none.
pub proof fn law_backlight_classification(raw: u16, off: u16, half: u16, full: u16)
    requires
        off != half,
        off != full,
        half != full,
    ensures
        backlight_kind(raw, off, half, full) == UsbBacklightKind::Off <==> raw == off,
        backlight_kind(raw, off, half, full) == UsbBacklightKind::Half <==> raw == half,
        backlight_kind(raw, off, half, full) == UsbBacklightKind::Full <==> raw == full,
        backlight_kind(raw, off, half, full) == UsbBacklightKind::Unrecognized <==> (raw != off
            && raw != half && raw != full),
{
}

/// A fan that stands still turns at zero revolutions per minute, and no
/// counter divides by zero.
pub proof fn law_stalled_fan()
    ensures
        fan_rpm_of(0) == 0,
{
}

} // verus!

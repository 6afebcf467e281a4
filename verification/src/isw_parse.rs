//! The command line's options as plain values, the steps that they ask
//! for, in the order in which they are taken, and what one step does to
//! the controller and reports.

use crate::error::{IswError, IswErrorView};
use crate::isw_raw_access::RegisterSpace;
use crate::isw_rs_base::{
    battery_threshold_reads, battery_threshold_write, cooler_boost_reads, cooler_boost_write,
    isw_result, quantity_reads, register_reads, usb_backlight_reads, usb_backlight_write,
    write_applied, IswRsBase, Quantity, RegisterWrite, UsbBacklightKind,
};
use crate::text::{append_decimal, decimal, same_text};
use vstd::prelude::*;
use vstd::string::*;

verus! {

/// The configuration file that is read where none is named.
pub const DEFAULT_CONFIG: &'static str = "isw.conf";

/// The options of one run.
#[derive(Clone, Debug, PartialEq, Eq)]
pub struct Opts {
    /// The configuration file to use.
    pub config: String,
    /// What to do.
    pub raw: Raw,
}

/// What a run does.
#[derive(Clone, Debug, PartialEq, Eq)]
pub enum Raw {
    /// Write to the controller.
    Write(WriteHandler),
    /// Read from the controller.
    Read(ReadHandler),
    /// Read states from the controller.
    Get(StateGetter),
    /// Read the processor's sensors.
    CPU(CPUHandler),
    /// Read the graphics processor's sensors.
    GPU(GPUHandler),
    /// Set states, or serve the sensors over the socket.
    MISC(MiscHandler),
}

/// A raw write.
#[derive(Clone, Debug, PartialEq, Eq)]
pub struct WriteHandler {
    /// The address that the value is written to.
    pub address: u64,
    /// The value to write.
    pub value: u16,
}

/// The states to set.
#[derive(Clone, Debug, PartialEq, Eq)]
pub struct MiscHandler {
    /// `on` switches the cooler boost on, `off` switches it off.
    pub boost: Option<String>,
    /// The USB backlight: `off`, `half` or `full`.
    pub usb_backlight: Option<String>,
    /// The battery charging threshold, between 20 and 100.
    pub battery: Option<u8>,
    /// Whether to serve the sensors over the socket.
    pub socket: Option<bool>,
}

/// A raw read.
#[derive(Clone, Debug, PartialEq, Eq)]
pub struct ReadHandler {
    /// The address to read from.
    pub address: u64,
}

/// The states to read.
#[derive(Clone, Debug, PartialEq, Eq)]
pub struct StateGetter {
    /// The state of the cooler boost.
    pub boost: bool,
    /// The state of the USB backlight.
    pub usb_backlight: bool,
    /// The battery charging threshold.
    pub battery: bool,
}

/// The sensors of the processor to read.
#[derive(Clone, Debug, PartialEq, Eq)]
pub struct CPUHandler {
    pub temperature: bool,
    pub rpm: bool,
    pub speed: bool,
}

/// The sensors of the graphics processor to read.
#[derive(Clone, Debug, PartialEq, Eq)]
pub struct GPUHandler {
    pub temperature: bool,
    pub rpm: bool,
    pub speed: bool,
}

/// One thing that a run does.
#[derive(Clone, Debug, PartialEq, Eq)]
pub enum Step {
    Write { address: u64, value: u16 },
    Read { address: u64 },
    GetBattery,
    GetBacklight,
    GetBoost,
    CpuRpm,
    CpuSpeed,
    CpuTemp,
    GpuRpm,
    GpuSpeed,
    GpuTemp,
    SetBoost(bool),
    SetBacklight(UsbBacklightKind),
    SetBattery(u8),
    /// Serve the sensors over the socket until the socket fails.
    Socket,
    /// Fail: `option` is a word that names no state.
    Refuse { option: String },
}

/// A `Step` with its text as a character sequence.
pub enum StepView {
    Write { address: u64, value: u16 },
    Read { address: u64 },
    GetBattery,
    GetBacklight,
    GetBoost,
    CpuRpm,
    CpuSpeed,
    CpuTemp,
    GpuRpm,
    GpuSpeed,
    GpuTemp,
    SetBoost(bool),
    SetBacklight(UsbBacklightKind),
    SetBattery(u8),
    Socket,
    Refuse { option: Seq<char> },
}

impl View for Step {
    type V = StepView;

    open spec fn view(&self) -> StepView {
        match *self {
            Step::Write { address, value } => StepView::Write { address, value },
            Step::Read { address } => StepView::Read { address },
            Step::GetBattery => StepView::GetBattery,
            Step::GetBacklight => StepView::GetBacklight,
            Step::GetBoost => StepView::GetBoost,
            Step::CpuRpm => StepView::CpuRpm,
            Step::CpuSpeed => StepView::CpuSpeed,
            Step::CpuTemp => StepView::CpuTemp,
            Step::GpuRpm => StepView::GpuRpm,
            Step::GpuSpeed => StepView::GpuSpeed,
            Step::GpuTemp => StepView::GpuTemp,
            Step::SetBoost(on) => StepView::SetBoost(on),
            Step::SetBacklight(kind) => StepView::SetBacklight(kind),
            Step::SetBattery(t) => StepView::SetBattery(t),
            Step::Socket => StepView::Socket,
            Step::Refuse { option } => StepView::Refuse { option: option@ },
        }
    }
}

/// The steps of a list, each by its view.
pub open spec fn steps_view(steps: Seq<Step>) -> Seq<StepView> {
    Seq::new(steps.len(), |i: int| steps[i]@)
}

/// The state of the cooler boost that a word asks for.
pub open spec fn boost_option(word: Seq<char>) -> Option<bool> {
    if word == "off"@ {
        Some(false)
    } else if word == "on"@ {
        Some(true)
    } else {
        None
    }
}

/// The strength of the USB backlight that a word asks for.
pub open spec fn backlight_option(word: Seq<char>) -> UsbBacklightKind {
    if word == "off"@ {
        UsbBacklightKind::Off
    } else if word == "half"@ {
        UsbBacklightKind::Half
    } else if word == "full"@ {
        UsbBacklightKind::Full
    } else {
        UsbBacklightKind::Unrecognized
    }
}

/// `step` if `flag` is set, and nothing otherwise.
pub open spec fn step_when(flag: bool, step: StepView) -> Seq<StepView> {
    if flag {
        seq![step]
    } else {
        Seq::<StepView>::empty()
    }
}

/// The step for the cooler boost option.
pub open spec fn boost_steps(word: Option<String>) -> Seq<StepView> {
    match word {
        None => Seq::<StepView>::empty(),
        Some(w) => match boost_option(w@) {
            Some(on) => seq![StepView::SetBoost(on)],
            None => seq![StepView::Refuse { option: w@ }],
        },
    }
}

/// The step for the USB backlight option.
pub open spec fn backlight_steps(word: Option<String>) -> Seq<StepView> {
    match word {
        None => Seq::<StepView>::empty(),
        Some(w) => if backlight_option(w@) == UsbBacklightKind::Unrecognized {
            seq![StepView::Refuse { option: w@ }]
        } else {
            seq![StepView::SetBacklight(backlight_option(w@))]
        },
    }
}

/// The step for the battery option.
pub open spec fn battery_steps(t: Option<u8>) -> Seq<StepView> {
    match t {
        None => Seq::<StepView>::empty(),
        Some(t) => seq![StepView::SetBattery(t)],
    }
}

/// The step for the socket option.
pub open spec fn socket_steps(enable: Option<bool>) -> Seq<StepView> {
    step_when(enable == Some(true), StepView::Socket)
}

/// The steps that the options ask for, in the order in which they are taken.
pub open spec fn steps_of(raw: Raw) -> Seq<StepView> {
    match raw {
        Raw::Write(w) => seq![StepView::Write { address: w.address, value: w.value }],
        Raw::Read(r) => seq![StepView::Read { address: r.address }],
        Raw::Get(g) => step_when(g.battery, StepView::GetBattery) + step_when(
            g.usb_backlight,
            StepView::GetBacklight,
        ) + step_when(g.boost, StepView::GetBoost),
        Raw::CPU(c) => step_when(c.rpm, StepView::CpuRpm) + step_when(
            c.speed,
            StepView::CpuSpeed,
        ) + step_when(c.temperature, StepView::CpuTemp),
        Raw::GPU(g) => step_when(g.rpm, StepView::GpuRpm) + step_when(
            g.speed,
            StepView::GpuSpeed,
        ) + step_when(g.temperature, StepView::GpuTemp),
        Raw::MISC(m) => boost_steps(m.boost) + backlight_steps(m.usb_backlight) + battery_steps(
            m.battery,
        ) + socket_steps(m.socket),
    }
}

/// The line that reports a backlight strength.
pub open spec fn backlight_line(kind: UsbBacklightKind) -> Seq<char> {
    match kind {
        UsbBacklightKind::Off => "USB-Backlight is off"@,
        UsbBacklightKind::Half => "USB-Backlight is at half-strength"@,
        UsbBacklightKind::Full => "USB-Backlight is at full-strength"@,
        UsbBacklightKind::Unrecognized => "No USB-Backlight detected"@,
    }
}

/// The line that reports the state of the cooler boost.
pub open spec fn boost_line(on: bool) -> Seq<char> {
    if on {
        "Coolerboost is on"@
    } else {
        "Coolerboost is off"@
    }
}

/// The line that reports a reading under a label, or the reading's failure.
pub open spec fn reported(label: Seq<char>, reading: Result<u16, IswErrorView>) -> Result<
    Seq<char>,
    IswErrorView,
> {
    match reading {
        Ok(n) => Ok(label + decimal(n as nat)),
        Err(e) => Err(e),
    }
}

/// The line that reports a battery charging threshold, or the failure to
/// read it.
pub open spec fn threshold_reported(reading: Result<u8, IswErrorView>) -> Result<
    Seq<char>,
    IswErrorView,
> {
    match reading {
        Ok(t) => Ok("Battery threshold: "@ + decimal(t as nat)),
        Err(e) => Err(e),
    }
}

/// The line that reports a backlight strength, or the failure to read it.
pub open spec fn backlight_reported(reading: Result<UsbBacklightKind, IswErrorView>) -> Result<
    Seq<char>,
    IswErrorView,
> {
    match reading {
        Ok(kind) => Ok(backlight_line(kind)),
        Err(e) => Err(e),
    }
}

/// The line that reports the state of the cooler boost, or the failure to
/// read it.
pub open spec fn boost_reported(reading: Result<bool, IswErrorView>) -> Result<
    Seq<char>,
    IswErrorView,
> {
    match reading {
        Ok(on) => Ok(boost_line(on)),
        Err(e) => Err(e),
    }
}

/// The sensor that a step reads and the label that its reading is
/// reported under.
pub open spec fn step_sensor(step: StepView) -> Option<(Quantity, Seq<char>)> {
    match step {
        StepView::CpuRpm => Some((Quantity::CpuFanRpm, "CPU-Fan rpm: "@)),
        StepView::CpuSpeed => Some((Quantity::CpuFanSpeed, "CPU-Fan speed: "@)),
        StepView::CpuTemp => Some((Quantity::CpuTemp, "CPU temperature: "@)),
        StepView::GpuRpm => Some((Quantity::GpuFanRpm, "GPU-Fan rpm: "@)),
        StepView::GpuSpeed => Some((Quantity::GpuFanSpeed, "GPU-Fan speed: "@)),
        StepView::GpuTemp => Some((Quantity::GpuTemp, "GPU temperature: "@)),
        _ => None,
    }
}

/// The write that a step makes, or the failure that takes its place; none
/// for a step that writes nothing.
pub open spec fn step_write(
    entries: Map<(Seq<char>, Seq<char>), Seq<char>>,
    step: StepView,
) -> Option<Result<RegisterWrite, IswErrorView>> {
    match step {
        StepView::Write { address, value } => Some(Ok(RegisterWrite { address, value })),
        StepView::SetBoost(on) => Some(cooler_boost_write(entries, on)),
        StepView::SetBacklight(kind) => Some(usb_backlight_write(entries, kind)),
        StepView::SetBattery(t) => Some(battery_threshold_write(entries, t)),
        StepView::Refuse { option } => Some(Err(IswErrorView::UnrecognizedOption { option })),
        _ => None,
    }
}

/// `r` is what a step that writes nothing reports: the line for what it
/// read, the failure to read it, or an empty line where there is nothing
/// to report.
pub open spec fn step_reports<R: RegisterSpace>(
    entries: Map<(Seq<char>, Seq<char>), Seq<char>>,
    space: R,
    step: StepView,
    r: Result<Seq<char>, IswErrorView>,
) -> bool {
    match step {
        StepView::Read { address } => exists|reading: Result<u16, IswErrorView>| #[trigger]
            register_reads(space, address, reading) && r == reported("Value: "@, reading),
        StepView::GetBattery => exists|reading: Result<u8, IswErrorView>| #[trigger]
            battery_threshold_reads(entries, space, reading) && r == threshold_reported(reading),
        StepView::GetBacklight => exists|reading: Result<UsbBacklightKind, IswErrorView>|
            #[trigger] usb_backlight_reads(entries, space, reading) && r == backlight_reported(
                reading,
            ),
        StepView::GetBoost => exists|reading: Result<bool, IswErrorView>| #[trigger]
            cooler_boost_reads(entries, space, reading) && r == boost_reported(reading),
        _ => match step_sensor(step) {
            Some(sensor) => exists|reading: Result<u16, IswErrorView>| #[trigger]
                quantity_reads(entries, space, sensor.0, reading) && r == reported(
                    sensor.1,
                    reading,
                ),
            None => r == Ok::<Seq<char>, IswErrorView>(Seq::<char>::empty()),
        },
    }
}

/// A step's result with its texts as character sequences.
pub open spec fn line_result(r: Result<String, IswError>) -> Result<Seq<char>, IswErrorView> {
    match r {
        Ok(line) => Ok(line@),
        Err(e) => Err(e@),
    }
}

/// A step's result without its line.
pub open spec fn without_line(r: Result<String, IswError>) -> Result<(), IswErrorView> {
    match r {
        Ok(_) => Ok(()),
        Err(e) => Err(e@),
    }
}

/// Tells which state of the cooler boost a word asks for.
pub fn parse_boost(word: &str) -> (r: Option<bool>)
    ensures
        r == boost_option(word@),
{
    if same_text(word, "off") {
        Some(false)
    } else if same_text(word, "on") {
        Some(true)
    } else {
        None
    }
}

/// Tells which strength of the USB backlight a word asks for.
pub fn parse_backlight(word: &str) -> (r: UsbBacklightKind)
    ensures
        r == backlight_option(word@),
{
    if same_text(word, "off") {
        UsbBacklightKind::Off
    } else if same_text(word, "half") {
        UsbBacklightKind::Half
    } else if same_text(word, "full") {
        UsbBacklightKind::Full
    } else {
        UsbBacklightKind::Unrecognized
    }
}

/// Adds a step to a list.
fn push_step(steps: &mut Vec<Step>, step: Step)
    ensures
        steps_view(final(steps)@) == steps_view(old(steps)@) + seq![step@],
{
    steps.push(step);
    assert(steps_view(steps@) =~= steps_view(old(steps)@) + seq![step@]);
}

/// Adds a step to a list if `flag` is set.
fn push_when(steps: &mut Vec<Step>, flag: bool, step: Step)
    ensures
        steps_view(final(steps)@) == steps_view(old(steps)@) + step_when(flag, step@),
{
    if flag {
        push_step(steps, step);
    } else {
        assert(steps_view(steps@) =~= steps_view(old(steps)@) + step_when(flag, step@));
    }
}

impl Raw {
    /// The steps that the options ask for, in the order in which they are
    /// taken.
    pub fn steps(&self) -> (r: Vec<Step>)
        ensures
            steps_view(r@) == steps_of(*self),
    {
        let mut steps: Vec<Step> = Vec::new();
        let ghost none = steps_view(steps@);
        assert(none =~= Seq::<StepView>::empty());
        match self {
            Raw::Write(w) => {
                push_step(&mut steps, Step::Write { address: w.address, value: w.value });
            },
            Raw::Read(r) => {
                push_step(&mut steps, Step::Read { address: r.address });
            },
            Raw::Get(g) => {
                push_when(&mut steps, g.battery, Step::GetBattery);
                push_when(&mut steps, g.usb_backlight, Step::GetBacklight);
                push_when(&mut steps, g.boost, Step::GetBoost);
            },
            Raw::CPU(c) => {
                push_when(&mut steps, c.rpm, Step::CpuRpm);
                push_when(&mut steps, c.speed, Step::CpuSpeed);
                push_when(&mut steps, c.temperature, Step::CpuTemp);
            },
            Raw::GPU(g) => {
                push_when(&mut steps, g.rpm, Step::GpuRpm);
                push_when(&mut steps, g.speed, Step::GpuSpeed);
                push_when(&mut steps, g.temperature, Step::GpuTemp);
            },
            Raw::MISC(m) => {
                match &m.boost {
                    None => {},
                    Some(word) => match parse_boost(word.as_str()) {
                        Some(on) => {
                            push_step(&mut steps, Step::SetBoost(on));
                        },
                        None => {
                            push_step(&mut steps, Step::Refuse { option: word.clone() });
                        },
                    },
                }
                assert(steps_view(steps@) =~= boost_steps(m.boost));
                let ghost after_boost = steps_view(steps@);
                match &m.usb_backlight {
                    None => {},
                    Some(word) => {
                        let kind = parse_backlight(word.as_str());
                        if kind == UsbBacklightKind::Unrecognized {
                            push_step(&mut steps, Step::Refuse { option: word.clone() });
                        } else {
                            push_step(&mut steps, Step::SetBacklight(kind));
                        }
                    },
                }
                assert(steps_view(steps@) =~= after_boost + backlight_steps(m.usb_backlight));
                let ghost after_backlight = steps_view(steps@);
                match m.battery {
                    None => {},
                    Some(t) => {
                        push_step(&mut steps, Step::SetBattery(t));
                    },
                }
                assert(steps_view(steps@) =~= after_backlight + battery_steps(m.battery));
                let enable = match m.socket {
                    Some(enable) => enable,
                    None => false,
                };
                push_when(&mut steps, enable, Step::Socket);
            },
        }
        assert(steps_view(steps@) =~= steps_of(*self));
        steps
    }
}

impl Opts {
    /// The steps that the options ask for, in the order in which they are
    /// taken.
    pub fn steps(&self) -> (r: Vec<Step>)
        ensures
            steps_view(r@) == steps_of(self.raw),
    {
        self.raw.steps()
    }
}

/// The line that reports `n` under `label`.
fn line_with(label: &str, n: u64) -> (r: String)
    ensures
        r@ == label@ + decimal(n as nat),
{
    let mut out = String::from_str(label);
    append_decimal(&mut out, n);
    out
}

/// The line that reports a reading of sixteen bits under `label`.
fn report(label: &str, reading: Result<u16, IswError>) -> (r: Result<String, IswError>)
    ensures
        line_result(r) == reported(label@, isw_result(reading)),
{
    match reading {
        Ok(n) => Ok(line_with(label, n as u64)),
        Err(e) => Err(e),
    }
}

/// The sensor that a step reads and the label that its reading is
/// reported under.
fn sensor_of(step: &Step) -> (r: Option<(Quantity, &'static str)>)
    ensures
        match r {
            Some(found) => step_sensor(step@) == Some((found.0, found.1@)),
            None => step_sensor(step@) is None,
        },
{
    match step {
        Step::CpuRpm => Some((Quantity::CpuFanRpm, "CPU-Fan rpm: ")),
        Step::CpuSpeed => Some((Quantity::CpuFanSpeed, "CPU-Fan speed: ")),
        Step::CpuTemp => Some((Quantity::CpuTemp, "CPU temperature: ")),
        Step::GpuRpm => Some((Quantity::GpuFanRpm, "GPU-Fan rpm: ")),
        Step::GpuSpeed => Some((Quantity::GpuFanSpeed, "GPU-Fan speed: ")),
        Step::GpuTemp => Some((Quantity::GpuTemp, "GPU temperature: ")),
        _ => None,
    }
}

/// Reads a sensor and reports it under `label`.
fn report_sensor<R: RegisterSpace>(isw: &mut IswRsBase<R>, quantity: Quantity, label: &str) -> (r:
    Result<String, IswError>)
    ensures
        *final(isw) == *old(isw),
        exists|reading: Result<u16, IswErrorView>| #[trigger]
            quantity_reads(old(isw).entries(), old(isw).space(), quantity, reading)
                && line_result(r) == reported(label@, reading),
{
    let reading = isw.read_quantity(quantity);
    let r = report(label, reading);
    assert(quantity_reads(old(isw).entries(), old(isw).space(), quantity, isw_result(reading))
        && line_result(r) == reported(label@, isw_result(reading)));
    r
}

/// Takes one step on the controller and returns the line that reports it,
/// empty where there is nothing to report. The socket step does nothing
/// here: serving is the caller's loop.
pub fn run_step<R: RegisterSpace>(isw: &mut IswRsBase<R>, step: &Step) -> (r: Result<
    String,
    IswError,
>)
    ensures
        final(isw).config() == old(isw).config(),
        match step_write(old(isw).entries(), step@) {
            Some(plan) => write_applied(
                plan,
                old(isw).space(),
                final(isw).space(),
                without_line(r),
            ) && (r matches Ok(line) ==> line@.len() == 0),
            None => final(isw).space() == old(isw).space() && step_reports(
                old(isw).entries(),
                old(isw).space(),
                step@,
                line_result(r),
            ),
        },
{
    if let Some((quantity, label)) = sensor_of(step) {
        let r = report_sensor(isw, quantity, label);
        proof {
            match step_sensor(step@) {
                Some(sensor) => {
                    let reading = choose|reading: Result<u16, IswErrorView>| #[trigger]
                        quantity_reads(old(isw).entries(), old(isw).space(), quantity, reading)
                            && line_result(r) == reported(label@, reading);
                    assert(quantity_reads(old(isw).entries(), old(isw).space(), sensor.0, reading)
                        && line_result(r) == reported(sensor.1, reading));
                },
                None => {},
            }
        }
        return r;
    }
    match step {
        Step::Write { address, value } => {
            isw.write_register(*address, *value)?;
            Ok(String::new())
        },
        Step::Read { address } => {
            let reading = isw.read_register(*address);
            let r = report("Value: ", reading);
            proof {
                match step@ {
                    StepView::Read { address: at } => {
                        assert(register_reads(old(isw).space(), at, isw_result(reading))
                            && line_result(r) == reported("Value: "@, isw_result(reading)));
                    },
                    _ => {},
                }
            }
            assert(step_reports(
                old(isw).entries(),
                old(isw).space(),
                step@,
                line_result(r),
            ));
            r
        },
        Step::GetBattery => {
            let reading = isw.get_battery_threshold();
            let r = match reading {
                Ok(t) => Ok(line_with("Battery threshold: ", t as u64)),
                Err(e) => Err(e),
            };
            assert(battery_threshold_reads(
                old(isw).entries(),
                old(isw).space(),
                isw_result(reading),
            ) && line_result(r) == threshold_reported(isw_result(reading)));
            assert(step_reports(
                old(isw).entries(),
                old(isw).space(),
                step@,
                line_result(r),
            ));
            r
        },
        Step::GetBacklight => {
            let reading = isw.get_usb_backlight();
            let r = match reading {
                Ok(kind) => Ok(
                    match kind {
                        UsbBacklightKind::Off => String::from_str("USB-Backlight is off"),
                        UsbBacklightKind::Half => String::from_str(
                            "USB-Backlight is at half-strength",
                        ),
                        UsbBacklightKind::Full => String::from_str(
                            "USB-Backlight is at full-strength",
                        ),
                        UsbBacklightKind::Unrecognized => String::from_str(
                            "No USB-Backlight detected",
                        ),
                    },
                ),
                Err(e) => Err(e),
            };
            assert(usb_backlight_reads(old(isw).entries(), old(isw).space(), isw_result(reading))
                && line_result(r) == backlight_reported(isw_result(reading)));
            assert(step_reports(
                old(isw).entries(),
                old(isw).space(),
                step@,
                line_result(r),
            ));
            r
        },
        Step::GetBoost => {
            let reading = isw.get_cooler_boost();
            let r = match reading {
                Ok(on) => Ok(
                    if on {
                        String::from_str("Coolerboost is on")
                    } else {
                        String::from_str("Coolerboost is off")
                    },
                ),
                Err(e) => Err(e),
            };
            assert(cooler_boost_reads(old(isw).entries(), old(isw).space(), isw_result(reading))
                && line_result(r) == boost_reported(isw_result(reading)));
            assert(step_reports(
                old(isw).entries(),
                old(isw).space(),
                step@,
                line_result(r),
            ));
            r
        },
        Step::SetBoost(on) => {
            isw.set_cooler_boost(*on)?;
            Ok(String::new())
        },
        Step::SetBacklight(kind) => {
            isw.set_usb_backlight(*kind)?;
            Ok(String::new())
        },
        Step::SetBattery(t) => {
            isw.set_battery_threshold(*t)?;
            Ok(String::new())
        },
        Step::Refuse { option } => Err(IswError::UnrecognizedOption { option: option.clone() }),
        _ => {
            let r = Ok(String::new());
            assert(line_result(r) == Ok::<Seq<char>, IswErrorView>(Seq::<char>::empty()));
            assert(step_reports(
                old(isw).entries(),
                old(isw).space(),
                step@,
                line_result(r),
            ));
            r
        },
    }
}

} // verus!

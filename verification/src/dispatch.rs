//! The dispatcher: one request in, one response out. A request is a JSON
//! object with the text members `cmd` and `option`; `cmd` names a sensor,
//! and the response carries the sensor's identifier and its reading.
//! Whatever goes wrong, the response is empty.

use crate::error::{IswError, IswErrorView};
use crate::isw_raw_access::RegisterSpace;
use crate::isw_rs_base::{isw_result, quantity_reads, IswRsBase, Quantity};
use crate::text::{decimal, digit_char, same_text, to_decimal};
use vstd::prelude::*;
use vstd::string::*;

verus! {

/// The request member that names the command.
pub const CMD_FIELD: &'static str = "cmd";

/// The request member that carries the command's option.
pub const OPTION_FIELD: &'static str = "option";

/// The response member that names the sensor.
pub const ID_FIELD: &'static str = "id";

/// The response member that carries the reading.
pub const VALUE_FIELD: &'static str = "value";

/// A command that asks for the processor's temperature, beside the
/// sensor's own identifier.
pub const CPU_TEMP: &'static str = "address_profile";

/// The identifiers of the sensors. Each is a command too.
pub const CPU_TEMP_ID: &'static str = "cpu_temp";

pub const GPU_TEMP_ID: &'static str = "gpu_temp";

pub const CPU_FAN_SPEED_ID: &'static str = "cpu_fan_speed";

pub const GPU_FAN_SPEED_ID: &'static str = "gpu_fan_speed";

pub const CPU_FAN_RPM_ID: &'static str = "cpu_fan_rpm";

pub const GPU_FAN_RPM_ID: &'static str = "gpu_fan_rpm";

/// The JSON value of `serde_json`, carried as an opaque value.
#[verifier::external_type_specification]
#[verifier::external_body]
pub struct ExValue(serde_json::Value);

/// The text members of a JSON value: the text for each name under which
/// `Value::get` finds a member of which `Value::as_str` gives the text. A
/// value that is no object has none, and a member that is no string is
/// left out.
pub uninterp spec fn json_texts(value: serde_json::Value) -> Map<Seq<char>, Seq<char>>;

/// What `serde_json::from_str` makes of a text as a `Value`: the text
/// members of the value, or none where the text is not one JSON value.
pub uninterp spec fn json_document(payload: Seq<char>) -> Option<Map<Seq<char>, Seq<char>>>;

/// `serde_json::from_str` to a `Value`: the value that `payload` writes,
/// and none where `payload` is not one JSON value. Which of the two, and
/// what the value holds, depends on `payload` alone.
#[verifier::external_body]
fn json_parse(payload: &str) -> (r: Option<serde_json::Value>)
    ensures
        r matches Some(value) ==> json_document(payload@) == Some(json_texts(value)),
        r is None ==> json_document(payload@) is None,
{
    match serde_json::from_str::<serde_json::Value>(payload) {
        Ok(value) => Some(value),
        Err(_) => None,
    }
}

/// `Value::get` with a name, then `Value::as_str`: the text of the member
/// `name`, and none where the value holds no text under `name`.
#[verifier::external_body]
fn json_text(value: &serde_json::Value, name: &str) -> (r: Option<String>)
    ensures
        r matches Some(text) ==> json_texts(*value).contains_key(name@) && json_texts(
            *value,
        )[name@] == text@,
        r is None ==> !json_texts(*value).contains_key(name@),
{
    Some(value.get(name)?.as_str()?.to_string())
}

/// The command and the option of a request, given the text members of
/// the JSON value that the request is (none: it is no JSON value): a
/// request has to hold a text under `cmd` and a text under `option`.
pub open spec fn request_members(document: Option<Map<Seq<char>, Seq<char>>>) -> Option<
    (Seq<char>, Seq<char>),
> {
    match document {
        None => None,
        Some(texts) => if texts.contains_key(CMD_FIELD@) && texts.contains_key(OPTION_FIELD@) {
            Some((texts[CMD_FIELD@], texts[OPTION_FIELD@]))
        } else {
            None
        },
    }
}

/// The command and the option of the request that `payload` is; none
/// where it is no request.
pub open spec fn request_of(payload: Seq<char>) -> Option<(Seq<char>, Seq<char>)> {
    request_members(json_document(payload))
}

/// A request by its texts.
pub open spec fn request_view(r: Option<ReceivedOption>) -> Option<(Seq<char>, Seq<char>)> {
    match r {
        None => None,
        Some(request) => Some((request.cmd@, request.option@)),
    }
}

/// A text that JSON writes between quotes as it stands: it holds no quote,
/// no backslash and no control character below the space.
pub open spec fn json_plain(text: Seq<char>) -> bool {
    forall|i: int|
        0 <= i < text.len() ==> (#[trigger] text[i]) != '\u{22}' && text[i] != '\u{5c}'
            && text[i] as int >= 32
}

/// `text` between quotes.
pub open spec fn quoted(text: Seq<char>) -> Seq<char> {
    seq!['\u{22}'] + text + seq!['\u{22}']
}

/// `serde_json::to_string` of a string slice: a text that needs no
/// escaping comes back between quotes, and writing it never fails.
#[verifier::external_body]
fn json_quote(text: &str) -> (r: Option<String>)
    ensures
        r is None ==> !json_plain(text@),
        r matches Some(literal) ==> (json_plain(text@) ==> literal@ == quoted(text@)),
{
    match serde_json::to_string(text) {
        Ok(literal) => Some(literal),
        Err(_) => None,
    }
}

/// A request: the command and its option.
#[derive(Clone, Debug, PartialEq, Eq)]
pub struct ReceivedOption {
    pub cmd: String,
    pub option: String,
}

/// A response: the identifier of the sensor that was read and its reading
/// as text.
#[derive(Clone, Debug, PartialEq, Eq)]
pub struct Response {
    pub id: String,
    pub value: String,
}

/// The sensor that a command names.
pub open spec fn command_of(cmd: Seq<char>) -> Option<Quantity> {
    if cmd == CPU_TEMP@ || cmd == CPU_TEMP_ID@ {
        Some(Quantity::CpuTemp)
    } else if cmd == GPU_TEMP_ID@ {
        Some(Quantity::GpuTemp)
    } else if cmd == CPU_FAN_SPEED_ID@ {
        Some(Quantity::CpuFanSpeed)
    } else if cmd == GPU_FAN_SPEED_ID@ {
        Some(Quantity::GpuFanSpeed)
    } else if cmd == CPU_FAN_RPM_ID@ {
        Some(Quantity::CpuFanRpm)
    } else if cmd == GPU_FAN_RPM_ID@ {
        Some(Quantity::GpuFanRpm)
    } else {
        None
    }
}

/// The identifier under which a sensor's reading is reported.
pub open spec fn quantity_id(quantity: Quantity) -> Seq<char> {
    match quantity {
        Quantity::CpuTemp => CPU_TEMP_ID@,
        Quantity::GpuTemp => GPU_TEMP_ID@,
        Quantity::CpuFanSpeed => CPU_FAN_SPEED_ID@,
        Quantity::GpuFanSpeed => GPU_FAN_SPEED_ID@,
        Quantity::CpuFanRpm => CPU_FAN_RPM_ID@,
        Quantity::GpuFanRpm => GPU_FAN_RPM_ID@,
    }
}

/// The identifier and the value that answer a request for a sensor, given
/// how reading the sensor went: none for a sensor that could not be read.
pub open spec fn answer_for(quantity: Quantity, reading: Result<u16, IswErrorView>) -> Option<
    (Seq<char>, Seq<char>),
> {
    match reading {
        Err(_) => None,
        Ok(value) => Some((quantity_id(quantity), decimal(value as nat))),
    }
}

/// `answer` is the identifier and the value that answer a command: none
/// for a command that names no sensor, and else what reading the sensor
/// gives.
pub open spec fn responded<R: RegisterSpace>(
    entries: Map<(Seq<char>, Seq<char>), Seq<char>>,
    space: R,
    cmd: Seq<char>,
    answer: Option<(Seq<char>, Seq<char>)>,
) -> bool {
    match command_of(cmd) {
        None => answer is None,
        Some(quantity) => exists|reading: Result<u16, IswErrorView>| #[trigger]
            quantity_reads(entries, space, quantity, reading) && answer == answer_for(
                quantity,
                reading,
            ),
    }
}

/// The JSON text of a response whose identifier and value need no
/// escaping: an object with the members `id` and `value`, in that order
/// and without any space.
pub open spec fn response_text(id: Seq<char>, value: Seq<char>) -> Seq<char> {
    "{"@ + quoted(ID_FIELD@) + ":"@ + quoted(id) + ","@ + quoted(VALUE_FIELD@) + ":"@ + quoted(
        value,
    ) + "}"@
}

/// The text of an answer: empty for none.
pub open spec fn answer_text(answer: Option<(Seq<char>, Seq<char>)>) -> Seq<char> {
    match answer {
        None => Seq::<char>::empty(),
        Some(found) => response_text(found.0, found.1),
    }
}

/// `text` is the response text for a request of which `members`, the
/// command and the option, were read: empty where the request could not
/// be read, and else the text of the command's answer.
pub open spec fn dispatched<R: RegisterSpace>(
    entries: Map<(Seq<char>, Seq<char>), Seq<char>>,
    space: R,
    members: Option<(Seq<char>, Seq<char>)>,
    text: Seq<char>,
) -> bool {
    match members {
        None => text == Seq::<char>::empty(),
        Some(request) => exists|answer: Option<(Seq<char>, Seq<char>)>| #[trigger]
            responded(entries, space, request.0, answer) && text == answer_text(answer),
    }
}

/// A response by its texts.
pub open spec fn response_view(r: Option<Response>) -> Option<(Seq<char>, Seq<char>)> {
    match r {
        None => None,
        Some(response) => Some((response.id@, response.value@)),
    }
}

/// The digits of a number need no escaping.
proof fn lemma_decimal_plain(n: nat)
    ensures
        json_plain(decimal(n)),
    decreases n,
{
    if n >= 10 {
        lemma_decimal_plain(n / 10);
        let d = decimal(n / 10);
        assert forall|i: int| 0 <= i < decimal(n).len() implies (#[trigger] decimal(n)[i])
            != '\u{22}' && decimal(n)[i] != '\u{5c}' && decimal(n)[i] as int >= 32 by {
            if i < d.len() {
                assert(decimal(n)[i] == d[i]);
            } else {
                assert(decimal(n)[i] == digit_char(n % 10));
            }
        }
    }
}

/// The identifiers of the sensors need no escaping.
proof fn lemma_ids_plain(quantity: Quantity)
    ensures
        json_plain(quantity_id(quantity)),
{
    reveal_strlit("cpu_temp");
    reveal_strlit("gpu_temp");
    reveal_strlit("cpu_fan_speed");
    reveal_strlit("gpu_fan_speed");
    reveal_strlit("cpu_fan_rpm");
    reveal_strlit("gpu_fan_rpm");
}

/// Reads a request: the text members `cmd` and `option` of the JSON
/// object that `payload` is. A text that is no JSON value, a value that
/// is no object, and an object that lacks one of the two members or holds
/// something else than a text under it are no request.
pub fn parse_request(payload: &str) -> (r: Option<ReceivedOption>)
    ensures
        request_view(r) == request_of(payload@),
{
    let value = match json_parse(payload) {
        Some(value) => value,
        None => {
            return None;
        },
    };
    let cmd = match json_text(&value, CMD_FIELD) {
        Some(cmd) => cmd,
        None => {
            return None;
        },
    };
    match json_text(&value, OPTION_FIELD) {
        Some(option) => Some(ReceivedOption { cmd, option }),
        None => None,
    }
}

/// Tells which sensor a command names.
pub fn parse_command(cmd: &str) -> (r: Option<Quantity>)
    ensures
        r == command_of(cmd@),
{
    if same_text(cmd, CPU_TEMP) || same_text(cmd, CPU_TEMP_ID) {
        Some(Quantity::CpuTemp)
    } else if same_text(cmd, GPU_TEMP_ID) {
        Some(Quantity::GpuTemp)
    } else if same_text(cmd, CPU_FAN_SPEED_ID) {
        Some(Quantity::CpuFanSpeed)
    } else if same_text(cmd, GPU_FAN_SPEED_ID) {
        Some(Quantity::GpuFanSpeed)
    } else if same_text(cmd, CPU_FAN_RPM_ID) {
        Some(Quantity::CpuFanRpm)
    } else if same_text(cmd, GPU_FAN_RPM_ID) {
        Some(Quantity::GpuFanRpm)
    } else {
        None
    }
}

/// The identifier under which a sensor's reading is reported.
pub fn id_of(quantity: Quantity) -> (r: &'static str)
    ensures
        r@ == quantity_id(quantity),
{
    match quantity {
        Quantity::CpuTemp => CPU_TEMP_ID,
        Quantity::GpuTemp => GPU_TEMP_ID,
        Quantity::CpuFanSpeed => CPU_FAN_SPEED_ID,
        Quantity::GpuFanSpeed => GPU_FAN_SPEED_ID,
        Quantity::CpuFanRpm => CPU_FAN_RPM_ID,
        Quantity::GpuFanRpm => GPU_FAN_RPM_ID,
    }
}

/// Writes a response, whose identifier and value need no escaping, as JSON.
fn encode_response(response: &Response) -> (r: String)
    requires
        json_plain(response.id@),
        json_plain(response.value@),
    ensures
        r@ == response_text(response.id@, response.value@),
{
    proof {
        reveal_strlit("id");
        reveal_strlit("value");
    }
    let quotes = (
        json_quote(ID_FIELD),
        json_quote(response.id.as_str()),
        json_quote(VALUE_FIELD),
        json_quote(response.value.as_str()),
    );
    match quotes {
        (Some(id_name), Some(id), Some(value_name), Some(value)) => {
            let mut out = String::from_str("{");
            out.append(id_name.as_str());
            out.append(":");
            out.append(id.as_str());
            out.append(",");
            out.append(value_name.as_str());
            out.append(":");
            out.append(value.as_str());
            out.append("}");
            out
        },
        _ => String::new(),
    }
}

/// The dispatcher over one controller.
pub struct Dispatch<R> {
    isw: IswRsBase<R>,
}

impl<R: RegisterSpace> Dispatch<R> {
    /// The controller that the dispatcher reads.
    pub closed spec fn controller(&self) -> IswRsBase<R> {
        self.isw
    }

    /// A dispatcher over `isw`.
    pub fn new(isw: IswRsBase<R>) -> (r: Dispatch<R>)
        ensures
            r.controller() == isw,
    {
        Dispatch { isw }
    }

    /// Gives the controller back.
    pub fn into_inner(self) -> (r: IswRsBase<R>)
        ensures
            r == self.controller(),
    {
        self.isw
    }

    /// Reads a sensor.
    pub fn read(&mut self, quantity: Quantity) -> (r: Result<u16, IswError>)
        ensures
            *final(self) == *old(self),
            quantity_reads(
                old(self).controller().entries(),
                old(self).controller().space(),
                quantity,
                isw_result(r),
            ),
    {
        self.isw.read_quantity(quantity)
    }

    /// Answers a request that was read: the response, or none where the
    /// command names no sensor or the sensor cannot be read.
    pub fn respond(&mut self, request: &ReceivedOption) -> (r: Option<Response>)
        ensures
            *final(self) == *old(self),
            responded(
                old(self).controller().entries(),
                old(self).controller().space(),
                request.cmd@,
                response_view(r),
            ),
            r matches Some(response) ==> json_plain(response.id@) && json_plain(response.value@),
    {
        let quantity = match parse_command(request.cmd.as_str()) {
            Some(quantity) => quantity,
            None => {
                return None;
            },
        };
        let reading = self.read(quantity);
        let r = match reading {
            Ok(value) => {
                proof {
                    lemma_ids_plain(quantity);
                    lemma_decimal_plain(value as nat);
                }
                Some(Response { id: String::from_str(id_of(quantity)), value: to_decimal(value as u64) })
            },
            Err(_) => None,
        };
        assert(quantity_reads(
            old(self).controller().entries(),
            old(self).controller().space(),
            quantity,
            isw_result(reading),
        ) && response_view(r) == answer_for(quantity, isw_result(reading)));
        r
    }

    /// Answers a request text with a response text; the response is empty
    /// for a request that cannot be read, for a command that names no
    /// sensor and for a sensor that cannot be read.
    pub fn dispatch(&mut self, payload: String) -> (r: String)
        ensures
            *final(self) == *old(self),
            dispatched(
                old(self).controller().entries(),
                old(self).controller().space(),
                request_of(payload@),
                r@,
            ),
    {
        let request = match parse_request(payload.as_str()) {
            Some(request) => request,
            None => {
                return String::new();
            },
        };
        let answer = self.respond(&request);
        let text = match &answer {
            None => String::new(),
            Some(response) => encode_response(response),
        };
        proof {
            match request_of(payload@) {
                Some(found) => {
                    assert(responded(
                        old(self).controller().entries(),
                        old(self).controller().space(),
                        found.0,
                        response_view(answer),
                    ) && text@ == answer_text(response_view(answer)));
                },
                None => {},
            }
        }
        text
    }
}

} // verus!

use vstd::prelude::*;

use crate::json::{
    find_member, i32_at, member, number_at, object_at, take_i32, take_number,
    take_count, take_text, take_u32, text_at, u32_at, count_at, JsonNumber, JsonValue,
};

verus! {

/// The radio link the device reports inside each heartbeat.
#[derive(Clone, Debug, PartialEq)]
pub struct Wifi {
    pub ssid: String,
    pub rssi: i32,
}

/// One device heartbeat.
#[derive(Clone, Debug, PartialEq)]
pub struct TeleState {
    pub time: String,
    pub uptime: String,
    pub uptime_sec: u64,
    pub heap: u32,
    pub sleep_mode: String,
    pub sleep: u32,
    pub load_avg: u32,
    pub mqtt_count: u32,
    pub power1: String,
    pub wifi: Wifi,
}

/// The metering counters of one sample. The quantities are kept as the JSON
/// numbers the device sent.
#[derive(Clone, Debug, PartialEq)]
pub struct Energy {
    pub total_start_time: String,
    pub total: JsonNumber,
    pub yesterday: JsonNumber,
    pub today: JsonNumber,
    pub period: JsonNumber,
    pub power: JsonNumber,
    pub apparent_power: JsonNumber,
    pub reactive_power: JsonNumber,
    pub factor: JsonNumber,
    pub voltage: JsonNumber,
    pub current: JsonNumber,
}

/// One metering sample.
#[derive(Clone, Debug, PartialEq)]
pub struct TeleSensor {
    pub time: String,
    pub energy: Energy,
}

/// Why a payload does not fit its schema.
#[derive(Clone, Copy, Debug, PartialEq, Eq, Structural)]
pub enum DecodeErrorKind {
    /// The document is not a JSON object.
    NotAnObject,
    /// A required member is absent.
    MissingField,
    /// A member is present with a value of the wrong type or range.
    InvalidType,
}

/// A decode failure and the member it concerns (empty for the whole document).
#[derive(Clone, Debug, PartialEq)]
pub struct DecodeError {
    pub kind: DecodeErrorKind,
    pub field: String,
}

/// The failure reported for member `key` that could not be read.
pub open spec fn fault_at(fields: Seq<(String, JsonValue)>, key: Seq<char>) -> (
    DecodeErrorKind,
    Seq<char>,
) {
    if member(fields, key) is None {
        (DecodeErrorKind::MissingField, key)
    } else {
        (DecodeErrorKind::InvalidType, key)
    }
}

/// The failure for a document that is not an object.
pub open spec fn not_an_object() -> (DecodeErrorKind, Seq<char>) {
    (DecodeErrorKind::NotAnObject, Seq::empty())
}

/// `e` is the failure `f`: the same kind, about the same member.
pub open spec fn error_is(e: DecodeError, f: (DecodeErrorKind, Seq<char>)) -> bool {
    e.kind == f.0 && e.field@ == f.1
}

/// The first problem of a Wifi object, in schema order; `None` when it fits.
pub open spec fn wifi_fault(fs: Seq<(String, JsonValue)>) -> Option<(DecodeErrorKind, Seq<char>)> {
    if text_at(fs, "SSId"@) is None {
        Some(fault_at(fs, "SSId"@))
    } else if i32_at(fs, "RSSI"@) is None {
        Some(fault_at(fs, "RSSI"@))
    } else {
        None
    }
}

/// Every field of `w` is the member of Wifi object `fs` that the schema maps it from.
pub open spec fn wifi_matches(w: Wifi, fs: Seq<(String, JsonValue)>) -> bool {
    &&& text_at(fs, "SSId"@) == Some(w.ssid@)
    &&& i32_at(fs, "RSSI"@) == Some(w.rssi)
}

/// The first problem of a heartbeat document, in schema order; `None` when it fits.
pub open spec fn state_fault(v: JsonValue) -> Option<(DecodeErrorKind, Seq<char>)> {
    match v {
        JsonValue::Object(f) => {
            let fs = f@;
            if text_at(fs, "Time"@) is None {
                Some(fault_at(fs, "Time"@))
            } else if text_at(fs, "Uptime"@) is None {
                Some(fault_at(fs, "Uptime"@))
            } else if count_at(fs, "UptimeSec"@) is None {
                Some(fault_at(fs, "UptimeSec"@))
            } else if u32_at(fs, "Heap"@) is None {
                Some(fault_at(fs, "Heap"@))
            } else if text_at(fs, "SleepMode"@) is None {
                Some(fault_at(fs, "SleepMode"@))
            } else if u32_at(fs, "Sleep"@) is None {
                Some(fault_at(fs, "Sleep"@))
            } else if u32_at(fs, "LoadAvg"@) is None {
                Some(fault_at(fs, "LoadAvg"@))
            } else if u32_at(fs, "MqttCount"@) is None {
                Some(fault_at(fs, "MqttCount"@))
            } else if text_at(fs, "POWER1"@) is None {
                Some(fault_at(fs, "POWER1"@))
            } else if object_at(fs, "Wifi"@) is None {
                Some(fault_at(fs, "Wifi"@))
            } else {
                wifi_fault(object_at(fs, "Wifi"@)->0)
            }
        },
        _ => Some(not_an_object()),
    }
}

/// Every field of `s` is the member of `v` that the schema maps it from.
pub open spec fn state_matches(s: TeleState, v: JsonValue) -> bool {
    match v {
        JsonValue::Object(f) => {
            let fs = f@;
            &&& text_at(fs, "Time"@) == Some(s.time@)
            &&& text_at(fs, "Uptime"@) == Some(s.uptime@)
            &&& count_at(fs, "UptimeSec"@) == Some(s.uptime_sec)
            &&& u32_at(fs, "Heap"@) == Some(s.heap)
            &&& text_at(fs, "SleepMode"@) == Some(s.sleep_mode@)
            &&& u32_at(fs, "Sleep"@) == Some(s.sleep)
            &&& u32_at(fs, "LoadAvg"@) == Some(s.load_avg)
            &&& u32_at(fs, "MqttCount"@) == Some(s.mqtt_count)
            &&& text_at(fs, "POWER1"@) == Some(s.power1@)
            &&& object_at(fs, "Wifi"@) is Some
            &&& wifi_matches(s.wifi, object_at(fs, "Wifi"@)->0)
        },
        _ => false,
    }
}

/// The first problem of an ENERGY object, in schema order; `None` when it fits.
pub open spec fn energy_fault(fs: Seq<(String, JsonValue)>) -> Option<(DecodeErrorKind, Seq<char>)> {
    if text_at(fs, "TotalStartTime"@) is None {
        Some(fault_at(fs, "TotalStartTime"@))
    } else if number_at(fs, "Total"@) is None {
        Some(fault_at(fs, "Total"@))
    } else if number_at(fs, "Yesterday"@) is None {
        Some(fault_at(fs, "Yesterday"@))
    } else if number_at(fs, "Today"@) is None {
        Some(fault_at(fs, "Today"@))
    } else if number_at(fs, "Period"@) is None {
        Some(fault_at(fs, "Period"@))
    } else if number_at(fs, "Power"@) is None {
        Some(fault_at(fs, "Power"@))
    } else if number_at(fs, "ApparentPower"@) is None {
        Some(fault_at(fs, "ApparentPower"@))
    } else if number_at(fs, "ReactivePower"@) is None {
        Some(fault_at(fs, "ReactivePower"@))
    } else if number_at(fs, "Factor"@) is None {
        Some(fault_at(fs, "Factor"@))
    } else if number_at(fs, "Voltage"@) is None {
        Some(fault_at(fs, "Voltage"@))
    } else if number_at(fs, "Current"@) is None {
        Some(fault_at(fs, "Current"@))
    } else {
        None
    }
}

/// Every field of `e` is the member of ENERGY object `fs` that the schema maps it from.
pub open spec fn energy_matches(e: Energy, fs: Seq<(String, JsonValue)>) -> bool {
    &&& text_at(fs, "TotalStartTime"@) == Some(e.total_start_time@)
    &&& number_at(fs, "Total"@) == Some(e.total)
    &&& number_at(fs, "Yesterday"@) == Some(e.yesterday)
    &&& number_at(fs, "Today"@) == Some(e.today)
    &&& number_at(fs, "Period"@) == Some(e.period)
    &&& number_at(fs, "Power"@) == Some(e.power)
    &&& number_at(fs, "ApparentPower"@) == Some(e.apparent_power)
    &&& number_at(fs, "ReactivePower"@) == Some(e.reactive_power)
    &&& number_at(fs, "Factor"@) == Some(e.factor)
    &&& number_at(fs, "Voltage"@) == Some(e.voltage)
    &&& number_at(fs, "Current"@) == Some(e.current)
}

/// The first problem of a metering document, in schema order; `None` when it fits.
pub open spec fn sensor_fault(v: JsonValue) -> Option<(DecodeErrorKind, Seq<char>)> {
    match v {
        JsonValue::Object(f) => {
            let fs = f@;
            if text_at(fs, "Time"@) is None {
                Some(fault_at(fs, "Time"@))
            } else if object_at(fs, "ENERGY"@) is None {
                Some(fault_at(fs, "ENERGY"@))
            } else {
                energy_fault(object_at(fs, "ENERGY"@)->0)
            }
        },
        _ => Some(not_an_object()),
    }
}

/// Every field of `s` is the member of `v` that the schema maps it from.
pub open spec fn sensor_matches(s: TeleSensor, v: JsonValue) -> bool {
    match v {
        JsonValue::Object(f) => {
            let fs = f@;
            &&& text_at(fs, "Time"@) == Some(s.time@)
            &&& object_at(fs, "ENERGY"@) is Some
            &&& energy_matches(s.energy, object_at(fs, "ENERGY"@)->0)
        },
        _ => false,
    }
}

fn field_error(fields: &Vec<(String, JsonValue)>, key: &str) -> (e: DecodeError)
    ensures
        error_is(e, fault_at(fields@, key@)),
{
    let kind = match find_member(fields, key) {
        Some(_) => DecodeErrorKind::InvalidType,
        None => DecodeErrorKind::MissingField,
    };
    DecodeError { kind, field: String::from_str(key) }
}

fn read_text(fields: &Vec<(String, JsonValue)>, key: &str) -> (r: Result<String, DecodeError>)
    ensures
        match text_at(fields@, key@) {
            Some(t) => r matches Ok(s) && s@ == t,
            None => r matches Err(e) && error_is(e, fault_at(fields@, key@)),
        },
{
    match find_member(fields, key) {
        Some(v) => match take_text(v) {
            Some(s) => Ok(s),
            None => Err(field_error(fields, key)),
        },
        None => Err(field_error(fields, key)),
    }
}

fn read_count(fields: &Vec<(String, JsonValue)>, key: &str) -> (r: Result<u64, DecodeError>)
    ensures
        match count_at(fields@, key@) {
            Some(t) => r == Ok::<u64, DecodeError>(t),
            None => r matches Err(e) && error_is(e, fault_at(fields@, key@)),
        },
{
    match find_member(fields, key) {
        Some(v) => match take_count(v) {
            Some(x) => Ok(x),
            None => Err(field_error(fields, key)),
        },
        None => Err(field_error(fields, key)),
    }
}

fn read_u32(fields: &Vec<(String, JsonValue)>, key: &str) -> (r: Result<u32, DecodeError>)
    ensures
        match u32_at(fields@, key@) {
            Some(t) => r == Ok::<u32, DecodeError>(t),
            None => r matches Err(e) && error_is(e, fault_at(fields@, key@)),
        },
{
    match find_member(fields, key) {
        Some(v) => match take_u32(v) {
            Some(x) => Ok(x),
            None => Err(field_error(fields, key)),
        },
        None => Err(field_error(fields, key)),
    }
}

fn read_i32(fields: &Vec<(String, JsonValue)>, key: &str) -> (r: Result<i32, DecodeError>)
    ensures
        match i32_at(fields@, key@) {
            Some(t) => r == Ok::<i32, DecodeError>(t),
            None => r matches Err(e) && error_is(e, fault_at(fields@, key@)),
        },
{
    match find_member(fields, key) {
        Some(v) => match take_i32(v) {
            Some(x) => Ok(x),
            None => Err(field_error(fields, key)),
        },
        None => Err(field_error(fields, key)),
    }
}

fn read_number(fields: &Vec<(String, JsonValue)>, key: &str) -> (r: Result<JsonNumber, DecodeError>)
    ensures
        match number_at(fields@, key@) {
            Some(t) => r == Ok::<JsonNumber, DecodeError>(t),
            None => r matches Err(e) && error_is(e, fault_at(fields@, key@)),
        },
{
    match find_member(fields, key) {
        Some(v) => match take_number(v) {
            Some(x) => Ok(x),
            None => Err(field_error(fields, key)),
        },
        None => Err(field_error(fields, key)),
    }
}

fn read_object<'a>(fields: &'a Vec<(String, JsonValue)>, key: &str) -> (r: Result<
    &'a Vec<(String, JsonValue)>,
    DecodeError,
>)
    ensures
        match object_at(fields@, key@) {
            Some(t) => r matches Ok(o) && o@ == t,
            None => r matches Err(e) && error_is(e, fault_at(fields@, key@)),
        },
{
    match find_member(fields, key) {
        Some(v) => match v {
            JsonValue::Object(o) => Ok(o),
            _ => Err(field_error(fields, key)),
        },
        None => Err(field_error(fields, key)),
    }
}

fn decode_wifi(fields: &Vec<(String, JsonValue)>) -> (r: Result<Wifi, DecodeError>)
    ensures
        r is Ok <==> wifi_fault(fields@) is None,
        r matches Ok(w) ==> wifi_matches(w, fields@),
        r matches Err(e) ==> Some((e.kind, e.field@)) == wifi_fault(fields@),
{
    let ssid = match read_text(fields, "SSId") {
        Ok(x) => x,
        Err(e) => return Err(e),
    };
    let rssi = match read_i32(fields, "RSSI") {
        Ok(x) => x,
        Err(e) => return Err(e),
    };
    Ok(Wifi { ssid, rssi })
}

/// Decodes a heartbeat document. Every member of the schema is required; the
/// first one, in schema order, that is absent or of the wrong type is reported.
pub fn decode_state(v: &JsonValue) -> (r: Result<TeleState, DecodeError>)
    ensures
        r is Ok <==> state_fault(*v) is None,
        r matches Ok(s) ==> state_matches(s, *v),
        r matches Err(e) ==> Some((e.kind, e.field@)) == state_fault(*v),
{
    let fields = match v {
        JsonValue::Object(f) => f,
        _ => return Err(DecodeError { kind: DecodeErrorKind::NotAnObject, field: String::new() }),
    };
    let time = match read_text(fields, "Time") {
        Ok(x) => x,
        Err(e) => return Err(e),
    };
    let uptime = match read_text(fields, "Uptime") {
        Ok(x) => x,
        Err(e) => return Err(e),
    };
    let uptime_sec = match read_count(fields, "UptimeSec") {
        Ok(x) => x,
        Err(e) => return Err(e),
    };
    let heap = match read_u32(fields, "Heap") {
        Ok(x) => x,
        Err(e) => return Err(e),
    };
    let sleep_mode = match read_text(fields, "SleepMode") {
        Ok(x) => x,
        Err(e) => return Err(e),
    };
    let sleep = match read_u32(fields, "Sleep") {
        Ok(x) => x,
        Err(e) => return Err(e),
    };
    let load_avg = match read_u32(fields, "LoadAvg") {
        Ok(x) => x,
        Err(e) => return Err(e),
    };
    let mqtt_count = match read_u32(fields, "MqttCount") {
        Ok(x) => x,
        Err(e) => return Err(e),
    };
    let power1 = match read_text(fields, "POWER1") {
        Ok(x) => x,
        Err(e) => return Err(e),
    };
    let wifi_fields = match read_object(fields, "Wifi") {
        Ok(x) => x,
        Err(e) => return Err(e),
    };
    let wifi = match decode_wifi(wifi_fields) {
        Ok(x) => x,
        Err(e) => return Err(e),
    };
    Ok(
        TeleState {
            time,
            uptime,
            uptime_sec,
            heap,
            sleep_mode,
            sleep,
            load_avg,
            mqtt_count,
            power1,
            wifi,
        },
    )
}

fn decode_energy(fields: &Vec<(String, JsonValue)>) -> (r: Result<Energy, DecodeError>)
    ensures
        r is Ok <==> energy_fault(fields@) is None,
        r matches Ok(e) ==> energy_matches(e, fields@),
        r matches Err(e) ==> Some((e.kind, e.field@)) == energy_fault(fields@),
{
    let total_start_time = match read_text(fields, "TotalStartTime") {
        Ok(x) => x,
        Err(e) => return Err(e),
    };
    let total = match read_number(fields, "Total") {
        Ok(x) => x,
        Err(e) => return Err(e),
    };
    let yesterday = match read_number(fields, "Yesterday") {
        Ok(x) => x,
        Err(e) => return Err(e),
    };
    let today = match read_number(fields, "Today") {
        Ok(x) => x,
        Err(e) => return Err(e),
    };
    let period = match read_number(fields, "Period") {
        Ok(x) => x,
        Err(e) => return Err(e),
    };
    let power = match read_number(fields, "Power") {
        Ok(x) => x,
        Err(e) => return Err(e),
    };
    let apparent_power = match read_number(fields, "ApparentPower") {
        Ok(x) => x,
        Err(e) => return Err(e),
    };
    let reactive_power = match read_number(fields, "ReactivePower") {
        Ok(x) => x,
        Err(e) => return Err(e),
    };
    let factor = match read_number(fields, "Factor") {
        Ok(x) => x,
        Err(e) => return Err(e),
    };
    let voltage = match read_number(fields, "Voltage") {
        Ok(x) => x,
        Err(e) => return Err(e),
    };
    let current = match read_number(fields, "Current") {
        Ok(x) => x,
        Err(e) => return Err(e),
    };
    Ok(
        Energy {
            total_start_time,
            total,
            yesterday,
            today,
            period,
            power,
            apparent_power,
            reactive_power,
            factor,
            voltage,
            current,
        },
    )
}

/// Decodes a metering document. Every member of the schema is required; the
/// first one, in schema order, that is absent or of the wrong type is reported.
pub fn decode_sensor(v: &JsonValue) -> (r: Result<TeleSensor, DecodeError>)
    ensures
        r is Ok <==> sensor_fault(*v) is None,
        r matches Ok(s) ==> sensor_matches(s, *v),
        r matches Err(e) ==> Some((e.kind, e.field@)) == sensor_fault(*v),
{
    let fields = match v {
        JsonValue::Object(f) => f,
        _ => return Err(DecodeError { kind: DecodeErrorKind::NotAnObject, field: String::new() }),
    };
    let time = match read_text(fields, "Time") {
        Ok(x) => x,
        Err(e) => return Err(e),
    };
    let energy_fields = match read_object(fields, "ENERGY") {
        Ok(x) => x,
        Err(e) => return Err(e),
    };
    let energy = match decode_energy(energy_fields) {
        Ok(x) => x,
        Err(e) => return Err(e),
    };
    Ok(TeleSensor { time, energy })
}

} // verus!

use vstd::prelude::*;

use crate::config::Topics;
use crate::json::{count_at, i32_at, number_at, object_at, string_eq, text_at, u32_at, JsonValue};
use crate::records::{
    decode_sensor, decode_state, error_is, sensor_fault, sensor_matches, state_fault,
    state_matches, DecodeError, TeleSensor, TeleState,
};
use crate::store::{row_fits, sensor_row_of, state_row_of, state_storable, SqlValue, Table};

verus! {

/// Which handler an inbound publish goes to.
#[derive(Clone, Copy, Debug, PartialEq, Eq, Structural)]
pub enum Route {
    State,
    Sensor,
    Unrecognized,
}

/// The exact-match routing of a topic.
pub open spec fn route_of(topics: Topics, topic: Seq<char>) -> Route {
    if topic == topics.state@ {
        Route::State
    } else if topic == topics.sensor@ {
        Route::Sensor
    } else {
        Route::Unrecognized
    }
}

/// What `String::from_utf8_lossy` makes of a byte sequence.
pub uninterp spec fn utf8_lossy(b: Seq<u8>) -> Seq<char>;

/// Relies on `String::from_utf8_lossy`: the text depends on the bytes alone,
/// ill-formed sequences become U+FFFD, and no bytes give no text.
#[verifier::external_body]
fn lossy_text(b: &[u8]) -> (r: String)
    ensures
        r@ == utf8_lossy(b@),
        b@.len() == 0 ==> r@.len() == 0,
{
    String::from_utf8_lossy(b).into_owned()
}

/// An inbound publish: its route, its topic, and its payload as text.
pub struct Inbound {
    pub route: Route,
    pub topic: String,
    pub text: String,
}

/// Why a payload on a known topic was dropped.
#[derive(Clone, Debug, PartialEq)]
pub enum Rejection {
    /// The payload is not JSON; the parser's message.
    Syntax(String),
    /// The payload is JSON but does not fit the schema.
    Schema(DecodeError),
}

/// What becomes of one inbound publish: one row, or one log entry.
#[derive(Clone, Debug, PartialEq)]
pub enum Outcome {
    /// Append the heartbeat to `state`.
    StoreState(TeleState),
    /// Append the sample to `sensor`.
    StoreSensor(TeleSensor),
    /// Log a decode failure with the payload text; nothing is stored.
    Rejected { route: Route, reason: Rejection, payload: String },
    /// Log the topic and payload text; nothing is stored.
    Unrecognized { topic: String, payload: String },
}

/// Classifies a publish and renders its payload as text, malformed UTF-8
/// becoming replacement characters.
pub fn inspect(topics: &Topics, topic: &str, payload: &[u8]) -> (r: Inbound)
    ensures
        r.route == route_of(*topics, topic@),
        r.topic@ == topic@,
        r.text@ == utf8_lossy(payload@),
{
    let route = if string_eq(topic, topics.state.as_str()) {
        Route::State
    } else if string_eq(topic, topics.sensor.as_str()) {
        Route::Sensor
    } else {
        Route::Unrecognized
    };
    Inbound { route, topic: String::from_str(topic), text: lossy_text(payload) }
}

/// `r` is the rejection of a payload with text `text` on `route`, for `reason`.
pub open spec fn rejected_as(r: Outcome, route: Route, reason: Rejection, text: Seq<char>) -> bool {
    &&& r matches Outcome::Rejected { route: rt, reason: rs, payload }
    &&& rt == route
    &&& payload@ == text
    &&& match (rs, reason) {
        (Rejection::Syntax(a), Rejection::Syntax(b)) => a@ == b@,
        (Rejection::Schema(a), Rejection::Schema(b)) => a.kind == b.kind && a.field@ == b.field@,
        _ => false,
    }
}

/// The outcome owed for publish `inb`, whose text the JSON reader turned into `parsed`.
pub open spec fn dispatched(inb: Inbound, parsed: Result<JsonValue, String>, r: Outcome) -> bool {
    match inb.route {
        Route::Unrecognized => r matches Outcome::Unrecognized { topic, payload } && topic@
            == inb.topic@ && payload@ == inb.text@,
        Route::State => match parsed {
            Err(m) => rejected_as(r, Route::State, Rejection::Syntax(m), inb.text@),
            Ok(v) => match state_fault(v) {
                None => r matches Outcome::StoreState(s) && state_matches(s, v),
                Some(f) => r matches Outcome::Rejected { route, reason: Rejection::Schema(e), payload }
                    && route == Route::State && error_is(e, f) && payload@ == inb.text@,
            },
        },
        Route::Sensor => match parsed {
            Err(m) => rejected_as(r, Route::Sensor, Rejection::Syntax(m), inb.text@),
            Ok(v) => match sensor_fault(v) {
                None => r matches Outcome::StoreSensor(s) && sensor_matches(s, v),
                Some(f) => r matches Outcome::Rejected { route, reason: Rejection::Schema(e), payload }
                    && route == Route::Sensor && error_is(e, f) && payload@ == inb.text@,
            },
        },
    }
}

/// Hands a publish to the handler of its route. `parsed` is what the JSON
/// reader made of `inb.text`; it is not looked at for an unrecognized topic.
pub fn dispatch(inb: Inbound, parsed: Result<JsonValue, String>) -> (r: Outcome)
    ensures
        dispatched(inb, parsed, r),
{
    match inb.route {
        Route::Unrecognized => Outcome::Unrecognized { topic: inb.topic, payload: inb.text },
        Route::State => match parsed {
            Err(m) => Outcome::Rejected {
                route: Route::State,
                reason: Rejection::Syntax(m),
                payload: inb.text,
            },
            Ok(v) => match decode_state(&v) {
                Ok(s) => Outcome::StoreState(s),
                Err(e) => Outcome::Rejected {
                    route: Route::State,
                    reason: Rejection::Schema(e),
                    payload: inb.text,
                },
            },
        },
        Route::Sensor => match parsed {
            Err(m) => Outcome::Rejected {
                route: Route::Sensor,
                reason: Rejection::Syntax(m),
                payload: inb.text,
            },
            Ok(v) => match decode_sensor(&v) {
                Ok(s) => Outcome::StoreSensor(s),
                Err(e) => Outcome::Rejected {
                    route: Route::Sensor,
                    reason: Rejection::Schema(e),
                    payload: inb.text,
                },
            },
        },
    }
}

/// Each column of a `state` row read from document `v`.
pub open spec fn state_row_reads(row: Seq<SqlValue>, v: JsonValue) -> bool {
    match v {
        JsonValue::Object(f) => {
            let fs = f@;
            let w = object_at(fs, "Wifi"@)->0;
            &&& row[0] matches SqlValue::Text(t) && Some(t@) == text_at(fs, "Time"@)
            &&& row[1] matches SqlValue::Text(t) && Some(t@) == text_at(fs, "Uptime"@)
            &&& row[2] matches SqlValue::Integer(n) && n as int == count_at(fs, "UptimeSec"@)->0 as int
            &&& row[3] == SqlValue::Integer(u32_at(fs, "Heap"@)->0 as i64)
            &&& row[4] matches SqlValue::Text(t) && Some(t@) == text_at(fs, "SleepMode"@)
            &&& row[5] == SqlValue::Integer(u32_at(fs, "Sleep"@)->0 as i64)
            &&& row[6] == SqlValue::Integer(u32_at(fs, "LoadAvg"@)->0 as i64)
            &&& row[7] == SqlValue::Integer(u32_at(fs, "MqttCount"@)->0 as i64)
            &&& row[8] matches SqlValue::Text(t) && Some(t@) == text_at(fs, "POWER1"@)
            &&& row[9] matches SqlValue::Text(t) && Some(t@) == text_at(w, "SSId"@)
            &&& row[10] == SqlValue::Integer(i32_at(w, "RSSI"@)->0 as i64)
        },
        _ => false,
    }
}

/// Each column of a `sensor` row read from document `v`.
pub open spec fn sensor_row_reads(row: Seq<SqlValue>, v: JsonValue) -> bool {
    match v {
        JsonValue::Object(f) => {
            let fs = f@;
            let e = object_at(fs, "ENERGY"@)->0;
            &&& row[0] matches SqlValue::Text(t) && Some(t@) == text_at(fs, "Time"@)
            &&& row[1] matches SqlValue::Text(t) && Some(t@) == text_at(e, "TotalStartTime"@)
            &&& row[2] == SqlValue::Real(number_at(e, "Total"@)->0)
            &&& row[3] == SqlValue::Real(number_at(e, "Yesterday"@)->0)
            &&& row[4] == SqlValue::Real(number_at(e, "Today"@)->0)
            &&& row[5] == SqlValue::Real(number_at(e, "Period"@)->0)
            &&& row[6] == SqlValue::Real(number_at(e, "Power"@)->0)
            &&& row[7] == SqlValue::Real(number_at(e, "ApparentPower"@)->0)
            &&& row[8] == SqlValue::Real(number_at(e, "ReactivePower"@)->0)
            &&& row[9] == SqlValue::Real(number_at(e, "Factor"@)->0)
            &&& row[10] == SqlValue::Real(number_at(e, "Voltage"@)->0)
            &&& row[11] == SqlValue::Real(number_at(e, "Current"@)->0)
        },
        _ => false,
    }
}

/// A document that fits the heartbeat schema, published on the heartbeat
/// topic, is stored as exactly one `state` row whose columns are the
/// document's members, the Wifi ones flattened into it.
pub proof fn heartbeat_is_stored(inb: Inbound, v: JsonValue, r: Outcome)
    requires
        inb.route == Route::State,
        state_fault(v) is None,
        dispatched(inb, Ok(v), r),
    ensures
        r matches Outcome::StoreState(s) && state_storable(s) && row_fits(
            Table::State,
            state_row_of(s),
        ) && state_row_reads(state_row_of(s), v),
{
}

/// A document that fits the metering schema, published on the metering
/// topic, is stored as exactly one `sensor` row whose columns are the
/// document's members, the ENERGY ones flattened into it.
pub proof fn sample_is_stored(inb: Inbound, v: JsonValue, r: Outcome)
    requires
        inb.route == Route::Sensor,
        sensor_fault(v) is None,
        dispatched(inb, Ok(v), r),
    ensures
        r matches Outcome::StoreSensor(s) && row_fits(Table::Sensor, sensor_row_of(s))
            && sensor_row_reads(sensor_row_of(s), v),
{
}

/// A payload on a known topic that is not JSON, or does not fit that topic's
/// schema, stores nothing and gives exactly one decode-failure entry that
/// carries the payload text.
pub proof fn misfit_is_rejected(inb: Inbound, parsed: Result<JsonValue, String>, r: Outcome)
    requires
        inb.route != Route::Unrecognized,
        match parsed {
            Err(_) => true,
            Ok(v) => if inb.route == Route::State {
                state_fault(v) is Some
            } else {
                sensor_fault(v) is Some
            },
        },
        dispatched(inb, parsed, r),
    ensures
        r matches Outcome::Rejected { route, payload, .. } && route == inb.route && payload@
            == inb.text@,
{
}

/// A publish on any other topic stores nothing and gives one
/// unrecognized-topic entry with the topic and the payload text.
pub proof fn stray_topic_is_logged(
    topics: Topics,
    topic: Seq<char>,
    payload: Seq<u8>,
    inb: Inbound,
    parsed: Result<JsonValue, String>,
    r: Outcome,
)
    requires
        topic != topics.state@,
        topic != topics.sensor@,
        inb.route == route_of(topics, topic),
        inb.topic@ == topic,
        inb.text@ == utf8_lossy(payload),
        dispatched(inb, parsed, r),
    ensures
        r matches Outcome::Unrecognized { topic: t, payload: p } && t@ == topic && p@ == utf8_lossy(
            payload,
        ),
{
}

} // verus!

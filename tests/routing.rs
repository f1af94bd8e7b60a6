use ezplug::config::{MqttConfig, Topics};
use ezplug::json::{JsonNumber, JsonValue};
use ezplug::records::DecodeErrorKind;
use ezplug::router::{dispatch, inspect, Outcome, Rejection, Route};
use ezplug::store::{
    columns, create_statement, insert_statement, sensor_row, state_row, ColumnType, SqlValue, Table,
};

fn mqtt(base: &str, period: u64) -> MqttConfig {
    MqttConfig {
        broker_ip: "127.0.0.1".to_string(),
        broker_port: 1883,
        topic_base: base.to_string(),
        client_id: "collector".to_string(),
        tele_period: period,
    }
}

fn topics() -> Topics {
    mqtt("EZPlugV2_743EEC", 10).topics()
}

fn s(t: &str) -> JsonValue {
    JsonValue::Str(t.to_string())
}

fn u(n: u64) -> JsonValue {
    JsonValue::Number(JsonNumber::PosInt(n))
}

fn obj(members: Vec<(&str, JsonValue)>) -> JsonValue {
    JsonValue::Object(members.into_iter().map(|(k, v)| (k.to_string(), v)).collect())
}

fn state_doc() -> JsonValue {
    obj(vec![
        ("Time", s("2024-01-01T10:00:00")),
        ("Uptime", s("0T01:00:00")),
        ("UptimeSec", u(3600)),
        ("Heap", u(25)),
        ("SleepMode", s("Dynamic")),
        ("Sleep", u(50)),
        ("LoadAvg", u(19)),
        ("MqttCount", u(1)),
        ("POWER1", s("ON")),
        ("Wifi", obj(vec![("SSId", s("home")), ("RSSI", JsonValue::Number(JsonNumber::NegInt(-60)))])),
    ])
}

fn energy_doc() -> JsonValue {
    obj(vec![
        ("TotalStartTime", s("2023-12-01T00:00:00")),
        ("Total", u(12)),
        ("Yesterday", u(1)),
        ("Today", u(2)),
        ("Period", JsonValue::Number(JsonNumber::Float(1.5f64.to_bits()))),
        ("Power", u(42)),
        ("ApparentPower", u(50)),
        ("ReactivePower", u(27)),
        ("Factor", JsonValue::Number(JsonNumber::Float(0.84f64.to_bits()))),
        ("Voltage", u(230)),
        ("Current", JsonValue::Number(JsonNumber::Float(0.22f64.to_bits()))),
    ])
}

#[test]
fn topics_follow_the_device_base() {
    let t = topics();
    assert_eq!(t.state, "tele/EZPlugV2_743EEC/STATE");
    assert_eq!(t.sensor, "tele/EZPlugV2_743EEC/SENSOR");
    assert_eq!(t.tele_period, "cmnd/EZPlugV2_743EEC/TelePeriod");
}

#[test]
fn tele_period_payload_is_decimal_seconds() {
    assert_eq!(mqtt("x", 10).tele_period_payload(), "10");
    assert_eq!(mqtt("x", 3600).tele_period_payload(), "3600");
    assert_eq!(mqtt("x", 0).tele_period_payload(), "0");
    assert_eq!(mqtt("x", 7).tele_period_payload(), "7");
    assert_eq!(mqtt("x", u64::MAX).tele_period_payload(), "18446744073709551615");
}

#[test]
fn topic_match_is_exact() {
    let t = topics();
    assert_eq!(inspect(&t, "tele/EZPlugV2_743EEC/STATE", b"{}").route, Route::State);
    assert_eq!(inspect(&t, "tele/EZPlugV2_743EEC/SENSOR", b"{}").route, Route::Sensor);
    assert_eq!(inspect(&t, "tele/EZPlugV2_743EEC/state", b"{}").route, Route::Unrecognized);
    assert_eq!(inspect(&t, "tele/EZPlugV2_743EEC/STATE/", b"{}").route, Route::Unrecognized);
    assert_eq!(inspect(&t, "", b"").route, Route::Unrecognized);
}

#[test]
fn payload_text_replaces_malformed_bytes() {
    let inb = inspect(&topics(), "other", b"ab\xffcd");
    assert_eq!(inb.text, "ab\u{FFFD}cd");
    assert_eq!(inb.topic, "other");
    let inb = inspect(&topics(), "other", b"");
    assert_eq!(inb.text, "");
}

#[test]
fn valid_state_on_state_topic_becomes_one_state_row() {
    let inb = inspect(&topics(), "tele/EZPlugV2_743EEC/STATE", b"{...}");
    match dispatch(inb, Ok(state_doc())) {
        Outcome::StoreState(st) => {
            let row = state_row(&st).unwrap();
            assert_eq!(
                row,
                vec![
                    SqlValue::Text("2024-01-01T10:00:00".to_string()),
                    SqlValue::Text("0T01:00:00".to_string()),
                    SqlValue::Integer(3600),
                    SqlValue::Integer(25),
                    SqlValue::Text("Dynamic".to_string()),
                    SqlValue::Integer(50),
                    SqlValue::Integer(19),
                    SqlValue::Integer(1),
                    SqlValue::Text("ON".to_string()),
                    SqlValue::Text("home".to_string()),
                    SqlValue::Integer(-60),
                ]
            );
            assert_eq!(row.len(), columns(Table::State).len());
        }
        other => panic!("unexpected outcome {:?}", other),
    }
}

#[test]
fn valid_sample_on_sensor_topic_becomes_one_sensor_row() {
    let inb = inspect(&topics(), "tele/EZPlugV2_743EEC/SENSOR", b"{...}");
    let doc = obj(vec![("Time", s("t1")), ("ENERGY", energy_doc())]);
    match dispatch(inb, Ok(doc)) {
        Outcome::StoreSensor(se) => {
            let row = sensor_row(&se);
            assert_eq!(row.len(), 12);
            assert_eq!(row[0], SqlValue::Text("t1".to_string()));
            assert_eq!(row[1], SqlValue::Text("2023-12-01T00:00:00".to_string()));
            assert_eq!(row[5], SqlValue::Real(JsonNumber::Float(1.5f64.to_bits())));
            assert_eq!(row[6], SqlValue::Real(JsonNumber::PosInt(42)));
            assert_eq!(row[9], SqlValue::Real(JsonNumber::Float(0.84f64.to_bits())));
            assert_eq!(row[10], SqlValue::Real(JsonNumber::PosInt(230)));
        }
        other => panic!("unexpected outcome {:?}", other),
    }
}

#[test]
fn state_document_on_sensor_topic_is_rejected() {
    let inb = inspect(&topics(), "tele/EZPlugV2_743EEC/SENSOR", b"payload");
    match dispatch(inb, Ok(state_doc())) {
        Outcome::Rejected { route, reason: Rejection::Schema(e), payload } => {
            assert_eq!(route, Route::Sensor);
            assert_eq!(e.kind, DecodeErrorKind::MissingField);
            assert_eq!(e.field, "ENERGY");
            assert_eq!(payload, "payload");
        }
        other => panic!("unexpected outcome {:?}", other),
    }
}

#[test]
fn non_json_payload_is_rejected_with_parser_message() {
    let inb = inspect(&topics(), "tele/EZPlugV2_743EEC/STATE", b"not json");
    match dispatch(inb, Err("expected value".to_string())) {
        Outcome::Rejected { route, reason, payload } => {
            assert_eq!(route, Route::State);
            assert_eq!(reason, Rejection::Syntax("expected value".to_string()));
            assert_eq!(payload, "not json");
        }
        other => panic!("unexpected outcome {:?}", other),
    }
}

#[test]
fn misfit_state_payload_stores_nothing() {
    let inb = inspect(&topics(), "tele/EZPlugV2_743EEC/STATE", b"{\"Time\":1}");
    let doc = obj(vec![("Time", u(1))]);
    match dispatch(inb, Ok(doc)) {
        Outcome::Rejected { route, reason: Rejection::Schema(e), payload } => {
            assert_eq!(route, Route::State);
            assert_eq!(e.kind, DecodeErrorKind::InvalidType);
            assert_eq!(e.field, "Time");
            assert_eq!(payload, "{\"Time\":1}");
        }
        other => panic!("unexpected outcome {:?}", other),
    }
}

#[test]
fn other_topic_is_logged_with_topic_and_text() {
    let inb = inspect(&topics(), "stat/EZPlugV2_743EEC/RESULT", b"{\"POWER\":\"ON\"}");
    match dispatch(inb, Ok(state_doc())) {
        Outcome::Unrecognized { topic, payload } => {
            assert_eq!(topic, "stat/EZPlugV2_743EEC/RESULT");
            assert_eq!(payload, "{\"POWER\":\"ON\"}");
        }
        other => panic!("unexpected outcome {:?}", other),
    }
}

#[test]
fn create_statements_are_idempotent_ddl() {
    assert_eq!(
        create_statement(Table::State),
        "CREATE TABLE IF NOT EXISTS state (id INTEGER PRIMARY KEY AUTOINCREMENT, \
         time TEXT NOT NULL, uptime TEXT NOT NULL, uptime_sec INTEGER NOT NULL, \
         heap INTEGER NOT NULL, sleep_mode TEXT NOT NULL, sleep INTEGER NOT NULL, \
         load_avg INTEGER NOT NULL, mqtt_count INTEGER NOT NULL, power1 TEXT NOT NULL, \
         wifi_ssid TEXT NOT NULL, wifi_rssi INTEGER NOT NULL)"
    );
    assert_eq!(
        create_statement(Table::Sensor),
        "CREATE TABLE IF NOT EXISTS sensor (id INTEGER PRIMARY KEY AUTOINCREMENT, \
         time TEXT NOT NULL, total_start_time TEXT NOT NULL, total REAL NOT NULL, \
         yesterday REAL NOT NULL, today REAL NOT NULL, period REAL NOT NULL, \
         power REAL NOT NULL, apparent_power REAL NOT NULL, reactive_power REAL NOT NULL, \
         factor REAL NOT NULL, voltage REAL NOT NULL, current REAL NOT NULL)"
    );
}

#[test]
fn insert_statements_have_one_placeholder_per_column() {
    assert_eq!(
        insert_statement(Table::State),
        "INSERT INTO state (time, uptime, uptime_sec, heap, sleep_mode, sleep, load_avg, \
         mqtt_count, power1, wifi_ssid, wifi_rssi) VALUES (?, ?, ?, ?, ?, ?, ?, ?, ?, ?, ?)"
    );
    assert_eq!(
        insert_statement(Table::Sensor),
        "INSERT INTO sensor (time, total_start_time, total, yesterday, today, period, power, \
         apparent_power, reactive_power, factor, voltage, current) \
         VALUES (?, ?, ?, ?, ?, ?, ?, ?, ?, ?, ?, ?)"
    );
}

#[test]
fn column_types_match_row_values() {
    let cols = columns(Table::Sensor);
    assert_eq!(cols[2].name, "total");
    assert_eq!(cols[2].kind, ColumnType::Real);
    assert_eq!(cols[5].kind, ColumnType::Real);
    assert_eq!(cols[10].kind, ColumnType::Real);
    assert_eq!(columns(Table::State)[2].kind, ColumnType::Integer);
}

#[test]
fn oversized_uptime_is_never_stored_wrapped() {
    let inb = inspect(&topics(), "tele/EZPlugV2_743EEC/STATE", b"{...}");
    let mut st = match dispatch(inb, Ok(state_doc())) {
        Outcome::StoreState(st) => st,
        other => panic!("unexpected outcome {:?}", other),
    };
    st.uptime_sec = i64::MAX as u64;
    assert_eq!(state_row(&st).unwrap()[2], SqlValue::Integer(i64::MAX));
    st.uptime_sec = u64::MAX;
    assert!(state_row(&st).is_none());
}

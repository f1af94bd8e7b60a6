use vstd::prelude::*;

use crate::json::JsonNumber;
use crate::records::{TeleSensor, TeleState};

verus! {

/// The two append-only tables.
#[derive(Clone, Copy, Debug, PartialEq, Eq, Structural)]
pub enum Table {
    State,
    Sensor,
}

/// The storage class of a column.
#[derive(Clone, Copy, Debug, PartialEq, Eq, Structural)]
pub enum ColumnType {
    Text,
    Integer,
    Real,
}

/// One data column; every column is `NOT NULL`.
#[derive(Clone, Copy, Debug)]
pub struct Column {
    pub name: &'static str,
    pub kind: ColumnType,
}

/// A value bound to one placeholder of an insert.
#[derive(Clone, Debug, PartialEq)]
pub enum SqlValue {
    Text(String),
    Integer(i64),
    Real(JsonNumber),
}

/// The column type a value is stored as.
pub open spec fn value_type(v: SqlValue) -> ColumnType {
    match v {
        SqlValue::Text(_) => ColumnType::Text,
        SqlValue::Integer(_) => ColumnType::Integer,
        SqlValue::Real(_) => ColumnType::Real,
    }
}

/// The SQL name of a table.
pub open spec fn table_name(t: Table) -> Seq<char> {
    match t {
        Table::State => "state"@,
        Table::Sensor => "sensor"@,
    }
}

/// The SQL spelling of a column type.
pub open spec fn sql_type_name(k: ColumnType) -> Seq<char> {
    match k {
        ColumnType::Text => "TEXT"@,
        ColumnType::Integer => "INTEGER"@,
        ColumnType::Real => "REAL"@,
    }
}

/// A column named `name` of type `kind`.
pub open spec fn column(name: &'static str, kind: ColumnType) -> Column {
    Column { name, kind }
}

/// The data columns of each table, in insert order.
pub open spec fn columns_of(t: Table) -> Seq<Column> {
    match t {
        Table::State => seq![
            column("time", ColumnType::Text),
            column("uptime", ColumnType::Text),
            column("uptime_sec", ColumnType::Integer),
            column("heap", ColumnType::Integer),
            column("sleep_mode", ColumnType::Text),
            column("sleep", ColumnType::Integer),
            column("load_avg", ColumnType::Integer),
            column("mqtt_count", ColumnType::Integer),
            column("power1", ColumnType::Text),
            column("wifi_ssid", ColumnType::Text),
            column("wifi_rssi", ColumnType::Integer),
        ],
        Table::Sensor => seq![
            column("time", ColumnType::Text),
            column("total_start_time", ColumnType::Text),
            column("total", ColumnType::Real),
            column("yesterday", ColumnType::Real),
            column("today", ColumnType::Real),
            column("period", ColumnType::Real),
            column("power", ColumnType::Real),
            column("apparent_power", ColumnType::Real),
            column("reactive_power", ColumnType::Real),
            column("factor", ColumnType::Real),
            column("voltage", ColumnType::Real),
            column("current", ColumnType::Real),
        ],
    }
}

/// `, name TYPE NOT NULL` for each column.
pub open spec fn column_defs(cols: Seq<Column>) -> Seq<char>
    decreases cols.len(),
{
    if cols.len() == 0 {
        Seq::empty()
    } else {
        column_defs(cols.drop_last()) + ", "@ + cols.last().name@ + " "@ + sql_type_name(
            cols.last().kind,
        ) + " NOT NULL"@
    }
}

/// The column names separated by `, `.
pub open spec fn name_list(cols: Seq<Column>) -> Seq<char>
    decreases cols.len(),
{
    if cols.len() == 0 {
        Seq::empty()
    } else if cols.len() == 1 {
        cols[0].name@
    } else {
        name_list(cols.drop_last()) + ", "@ + cols.last().name@
    }
}

/// `n` anonymous placeholders separated by `, `.
pub open spec fn placeholders(n: nat) -> Seq<char>
    decreases n,
{
    if n == 0 {
        Seq::empty()
    } else if n == 1 {
        "?"@
    } else {
        placeholders((n - 1) as nat) + ", ?"@
    }
}

/// The statement that creates table `t` unless it already exists.
pub open spec fn create_sql(t: Table) -> Seq<char> {
    "CREATE TABLE IF NOT EXISTS "@ + table_name(t) + " (id INTEGER PRIMARY KEY AUTOINCREMENT"@
        + column_defs(columns_of(t)) + ")"@
}

/// The statement that appends one row to table `t`.
pub open spec fn insert_sql(t: Table) -> Seq<char> {
    "INSERT INTO "@ + table_name(t) + " ("@ + name_list(columns_of(t)) + ") VALUES ("@
        + placeholders(columns_of(t).len()) + ")"@
}

/// The row of a storable heartbeat, with the Wifi fields flattened into it.
pub open spec fn state_row_of(s: TeleState) -> Seq<SqlValue> {
    seq![
        SqlValue::Text(s.time),
        SqlValue::Text(s.uptime),
        SqlValue::Integer(s.uptime_sec as i64),
        SqlValue::Integer(s.heap as i64),
        SqlValue::Text(s.sleep_mode),
        SqlValue::Integer(s.sleep as i64),
        SqlValue::Integer(s.load_avg as i64),
        SqlValue::Integer(s.mqtt_count as i64),
        SqlValue::Text(s.power1),
        SqlValue::Text(s.wifi.ssid),
        SqlValue::Integer(s.wifi.rssi as i64),
    ]
}

/// The row of a metering sample, with the ENERGY fields flattened into it.
pub open spec fn sensor_row_of(s: TeleSensor) -> Seq<SqlValue> {
    let e = s.energy;
    seq![
        SqlValue::Text(s.time),
        SqlValue::Text(e.total_start_time),
        SqlValue::Real(e.total),
        SqlValue::Real(e.yesterday),
        SqlValue::Real(e.today),
        SqlValue::Real(e.period),
        SqlValue::Real(e.power),
        SqlValue::Real(e.apparent_power),
        SqlValue::Real(e.reactive_power),
        SqlValue::Real(e.factor),
        SqlValue::Real(e.voltage),
        SqlValue::Real(e.current),
    ]
}

/// A row fits table `t` when it has one value per column, each of the
/// column's type.
pub open spec fn row_fits(t: Table, row: Seq<SqlValue>) -> bool {
    &&& row.len() == columns_of(t).len()
    &&& forall|i: int| 0 <= i < row.len() ==> value_type(#[trigger] row[i]) == columns_of(t)[i].kind
}

/// The data columns of table `t`, in insert order.
pub fn columns(t: Table) -> (r: Vec<Column>)
    ensures
        r@ == columns_of(t),
{
    let r = match t {
        Table::State => vec![
            Column { name: "time", kind: ColumnType::Text },
            Column { name: "uptime", kind: ColumnType::Text },
            Column { name: "uptime_sec", kind: ColumnType::Integer },
            Column { name: "heap", kind: ColumnType::Integer },
            Column { name: "sleep_mode", kind: ColumnType::Text },
            Column { name: "sleep", kind: ColumnType::Integer },
            Column { name: "load_avg", kind: ColumnType::Integer },
            Column { name: "mqtt_count", kind: ColumnType::Integer },
            Column { name: "power1", kind: ColumnType::Text },
            Column { name: "wifi_ssid", kind: ColumnType::Text },
            Column { name: "wifi_rssi", kind: ColumnType::Integer },
        ],
        Table::Sensor => vec![
            Column { name: "time", kind: ColumnType::Text },
            Column { name: "total_start_time", kind: ColumnType::Text },
            Column { name: "total", kind: ColumnType::Real },
            Column { name: "yesterday", kind: ColumnType::Real },
            Column { name: "today", kind: ColumnType::Real },
            Column { name: "period", kind: ColumnType::Real },
            Column { name: "power", kind: ColumnType::Real },
            Column { name: "apparent_power", kind: ColumnType::Real },
            Column { name: "reactive_power", kind: ColumnType::Real },
            Column { name: "factor", kind: ColumnType::Real },
            Column { name: "voltage", kind: ColumnType::Real },
            Column { name: "current", kind: ColumnType::Real },
        ],
    };
    assert(r@ =~= columns_of(t));
    r
}

fn table_text(t: Table) -> (r: &'static str)
    ensures
        r@ == table_name(t),
{
    match t {
        Table::State => "state",
        Table::Sensor => "sensor",
    }
}

fn type_text(k: ColumnType) -> (r: &'static str)
    ensures
        r@ == sql_type_name(k),
{
    match k {
        ColumnType::Text => "TEXT",
        ColumnType::Integer => "INTEGER",
        ColumnType::Real => "REAL",
    }
}

/// The `CREATE TABLE IF NOT EXISTS` statement of table `t`: running it on a
/// store that already has the table changes nothing.
pub fn create_statement(t: Table) -> (r: String)
    ensures
        r@ == create_sql(t),
{
    let cols = columns(t);
    let mut out = String::from_str("CREATE TABLE IF NOT EXISTS ");
    out.append(table_text(t));
    out.append(" (id INTEGER PRIMARY KEY AUTOINCREMENT");
    let ghost head = out@;
    let mut i: usize = 0;
    while i < cols.len()
        invariant
            i <= cols@.len(),
            out@ == head + column_defs(cols@.take(i as int)),
        decreases cols@.len() - i,
    {
        assert(cols@.take(i + 1).drop_last() =~= cols@.take(i as int));
        out.append(", ");
        out.append(cols[i].name);
        out.append(" ");
        out.append(type_text(cols[i].kind));
        out.append(" NOT NULL");
        i = i + 1;
    }
    assert(cols@.take(cols@.len() as int) =~= cols@);
    out.append(")");
    out
}

/// The `INSERT` statement of table `t`, with one anonymous placeholder per
/// column, bound in column order.
pub fn insert_statement(t: Table) -> (r: String)
    ensures
        r@ == insert_sql(t),
{
    let cols = columns(t);
    let mut out = String::from_str("INSERT INTO ");
    out.append(table_text(t));
    out.append(" (");
    let ghost head = out@;
    let mut i: usize = 0;
    while i < cols.len()
        invariant
            i <= cols@.len(),
            out@ == head + name_list(cols@.take(i as int)),
        decreases cols@.len() - i,
    {
        assert(cols@.take(i + 1).drop_last() =~= cols@.take(i as int));
        if i > 0 {
            out.append(", ");
        }
        out.append(cols[i].name);
        i = i + 1;
    }
    assert(cols@.take(cols@.len() as int) =~= cols@);
    out.append(") VALUES (");
    let ghost mid = out@;
    let mut j: usize = 0;
    while j < cols.len()
        invariant
            j <= cols@.len(),
            out@ == mid + placeholders(j as nat),
        decreases cols@.len() - j,
    {
        if j > 0 {
            out.append(", ?");
        } else {
            out.append("?");
        }
        j = j + 1;
    }
    out.append(")");
    out
}

/// A heartbeat that a `state` row holds unchanged: its uptime fits the signed
/// 64-bit column.
pub open spec fn state_storable(s: TeleState) -> bool {
    s.uptime_sec <= i64::MAX
}

/// The row that persists heartbeat `s`; `None` when its uptime does not fit
/// the signed 64-bit column, so that no stored value differs from the record.
pub fn state_row(s: &TeleState) -> (r: Option<Vec<SqlValue>>)
    ensures
        r is Some <==> state_storable(*s),
        r matches Some(row) ==> row@ == state_row_of(*s),
{
    if s.uptime_sec > i64::MAX as u64 {
        return None;
    }
    let r = vec![
        SqlValue::Text(s.time.clone()),
        SqlValue::Text(s.uptime.clone()),
        SqlValue::Integer(s.uptime_sec as i64),
        SqlValue::Integer(s.heap as i64),
        SqlValue::Text(s.sleep_mode.clone()),
        SqlValue::Integer(s.sleep as i64),
        SqlValue::Integer(s.load_avg as i64),
        SqlValue::Integer(s.mqtt_count as i64),
        SqlValue::Text(s.power1.clone()),
        SqlValue::Text(s.wifi.ssid.clone()),
        SqlValue::Integer(s.wifi.rssi as i64),
    ];
    assert(r@ =~= state_row_of(*s));
    Some(r)
}

/// The row that persists metering sample `s`.
pub fn sensor_row(s: &TeleSensor) -> (r: Vec<SqlValue>)
    ensures
        r@ == sensor_row_of(*s),
{
    let e = &s.energy;
    let r = vec![
        SqlValue::Text(s.time.clone()),
        SqlValue::Text(e.total_start_time.clone()),
        SqlValue::Real(e.total),
        SqlValue::Real(e.yesterday),
        SqlValue::Real(e.today),
        SqlValue::Real(e.period),
        SqlValue::Real(e.power),
        SqlValue::Real(e.apparent_power),
        SqlValue::Real(e.reactive_power),
        SqlValue::Real(e.factor),
        SqlValue::Real(e.voltage),
        SqlValue::Real(e.current),
    ];
    assert(r@ =~= sensor_row_of(*s));
    r
}

/// Every heartbeat row has one value per `state` column, of that column's type.
pub proof fn state_row_fits(s: TeleState)
    ensures
        row_fits(Table::State, state_row_of(s)),
{
}

/// Every metering row has one value per `sensor` column, of that column's type.
pub proof fn sensor_row_fits(s: TeleSensor)
    ensures
        row_fits(Table::Sensor, sensor_row_of(s)),
{
}

} // verus!

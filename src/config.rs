use vstd::prelude::*;

verus! {

/// The startup configuration, read once.
pub struct AppConfig {
    pub mqtt: MqttConfig,
    pub database: DatabaseConfig,
    pub logging: LoggingConfig,
}

/// Where the broker is, who the collector is, and which device it follows.
pub struct MqttConfig {
    pub broker_ip: String,
    pub broker_port: u16,
    pub topic_base: String,
    pub client_id: String,
    /// Telemetry interval requested from the device, in seconds.
    pub tele_period: u64,
}

/// The storage file.
pub struct DatabaseConfig {
    pub filename: String,
}

/// The control file whose content sets the log filter.
pub struct LoggingConfig {
    pub config_file: String,
}

/// The three topics of one device: two subscribed, one published to.
pub struct Topics {
    pub state: String,
    pub sensor: String,
    pub tele_period: String,
}

/// The topic a device publishes its heartbeats on.
pub open spec fn state_topic(base: Seq<char>) -> Seq<char> {
    "tele/"@ + base + "/STATE"@
}

/// The topic a device publishes its metering samples on.
pub open spec fn sensor_topic(base: Seq<char>) -> Seq<char> {
    "tele/"@ + base + "/SENSOR"@
}

/// The topic that sets a device's telemetry interval.
pub open spec fn tele_period_topic(base: Seq<char>) -> Seq<char> {
    "cmnd/"@ + base + "/TelePeriod"@
}

/// The decimal digit `d`, for `d < 10`.
pub open spec fn digit_text(d: nat) -> Seq<char> {
    if d == 0 {
        "0"@
    } else if d == 1 {
        "1"@
    } else if d == 2 {
        "2"@
    } else if d == 3 {
        "3"@
    } else if d == 4 {
        "4"@
    } else if d == 5 {
        "5"@
    } else if d == 6 {
        "6"@
    } else if d == 7 {
        "7"@
    } else if d == 8 {
        "8"@
    } else {
        "9"@
    }
}

/// The decimal digits of `n`, without sign or leading zeros.
pub open spec fn decimal(n: nat) -> Seq<char>
    decreases n,
{
    if n < 10 {
        digit_text(n)
    } else {
        decimal(n / 10) + digit_text(n % 10)
    }
}

fn digit_str(d: u64) -> (r: &'static str)
    requires
        d < 10,
    ensures
        r@ == digit_text(d as nat),
{
    if d == 0 {
        "0"
    } else if d == 1 {
        "1"
    } else if d == 2 {
        "2"
    } else if d == 3 {
        "3"
    } else if d == 4 {
        "4"
    } else if d == 5 {
        "5"
    } else if d == 6 {
        "6"
    } else if d == 7 {
        "7"
    } else if d == 8 {
        "8"
    } else {
        "9"
    }
}

/// `n` written in decimal.
pub fn decimal_text(n: u64) -> (r: String)
    ensures
        r@ == decimal(n as nat),
    decreases n,
{
    if n < 10 {
        String::from_str(digit_str(n))
    } else {
        let mut s = decimal_text(n / 10);
        s.append(digit_str(n % 10));
        s
    }
}

fn with_base(prefix: &str, base: &str, suffix: &str) -> (r: String)
    ensures
        r@ == prefix@ + base@ + suffix@,
{
    let mut s = String::from_str(prefix);
    s.append(base);
    s.append(suffix);
    s
}

impl MqttConfig {
    /// The topics of the configured device.
    pub fn topics(&self) -> (r: Topics)
        ensures
            r.state@ == state_topic(self.topic_base@),
            r.sensor@ == sensor_topic(self.topic_base@),
            r.tele_period@ == tele_period_topic(self.topic_base@),
    {
        let base = self.topic_base.as_str();
        Topics {
            state: with_base("tele/", base, "/STATE"),
            sensor: with_base("tele/", base, "/SENSOR"),
            tele_period: with_base("cmnd/", base, "/TelePeriod"),
        }
    }

    /// The payload of the telemetry-interval command: the interval in
    /// seconds, as decimal text.
    pub fn tele_period_payload(&self) -> (r: String)
        ensures
            r@ == decimal(self.tele_period as nat),
    {
        decimal_text(self.tele_period)
    }
}

} // verus!

//! The bridge's settings, read from named string variables (the process
//! environment, in the application) with a default for each setting that
//! has one.

use vstd::prelude::*;
use vstd::string::*;

use crate::parse::{
    decimal_value,
    parse_bool,
    parse_bool_spec,
    parse_u16,
    parse_u64,
    parse_u8,
    parse_unsigned_spec,
    unsigned_digits,
};
use crate::text::str_equals;

verus! {

broadcast use vstd::string::group_string_axioms;

/// Settings of the bridge.
pub struct Config {
    pub mqtt_enabled: bool,
    pub mqtt_host: String,
    pub mqtt_port: u16,
    pub mqtt_use_tls_transport: bool,
    pub mqtt_username: Option<String>,
    pub mqtt_password: Option<String>,
    pub mqtt_client_id: String,
    pub mqtt_topic: String,
    pub mqtt_topic_qos: u8,
    pub mqtt_topic_retain: bool,
    pub mqtt_keep_alive_interval_seconds: u64,
    pub mqtt_clean_start: bool,
    pub bt_auto_scan_restart_interval_seconds: u64,
    pub memphis_enabled: bool,
    pub memphis_hostname: String,
    pub memphis_username: String,
    pub memphis_password: String,
    pub memphis_station: String,
    pub memphis_producer_name: String,
}

/// Why the settings could not be loaded.
pub enum ConfigError {
    /// The variable `name` is set (or defaulted) to text that does not parse
    /// as a value of the setting's type.
    ParseError { name: String },
}

impl ConfigError {
    /// The name of the variable that the error is about.
    pub open spec fn var_name(&self) -> Seq<char> {
        match self {
            ConfigError::ParseError { name } => name@,
        }
    }
}

/// The value of the variable `name` in `vars`: the first pair with that name
/// wins, as `std::env::var` answers for an environment that holds a name twice.
pub open spec fn lookup_var(vars: Seq<(String, String)>, name: Seq<char>) -> Option<Seq<char>>
    decreases vars.len(),
{
    if vars.len() == 0 {
        None
    } else if vars[0].0@ == name {
        Some(vars[0].1@)
    } else {
        lookup_var(vars.drop_first(), name)
    }
}

/// The text of a setting: the variable's value if it is set, else the default.
pub open spec fn setting_text(
    vars: Seq<(String, String)>,
    name: Seq<char>,
    default: Seq<char>,
) -> Seq<char> {
    match lookup_var(vars, name) {
        Some(v) => v,
        None => default,
    }
}

/// Looks up the variable `name`.
pub fn find_var<'a>(vars: &'a Vec<(String, String)>, name: &str) -> (r: Option<&'a String>)
    ensures
        match r {
            Some(v) => lookup_var(vars@, name@) == Some(v@),
            None => lookup_var(vars@, name@) is None,
        },
{
    let n = vars.len();
    let mut i: usize = 0;
    assert(vars@.skip(0) =~= vars@);
    while i < n
        invariant
            n == vars@.len(),
            i <= n,
            lookup_var(vars@, name@) == lookup_var(vars@.skip(i as int), name@),
        decreases n - i,
    {
        let ghost rest = vars@.skip(i as int);
        assert(rest[0] == vars@[i as int]);
        assert(rest.drop_first() =~= vars@.skip(i + 1));
        if str_equals(vars[i].0.as_str(), name) {
            return Some(&vars[i].1);
        }
        i = i + 1;
    }
    assert(vars@.skip(n as int) =~= Seq::<(String, String)>::empty());
    None
}

/// The text of a setting (see [`setting_text`]).
fn load_text(vars: &Vec<(String, String)>, name: &str, default: &str) -> (r: String)
    ensures
        r@ == setting_text(vars@, name@, default@),
{
    match find_var(vars, name) {
        Some(v) => v.clone(),
        None => default.to_string(),
    }
}

/// A setting that is absent when its variable is not set.
fn load_optional_text(vars: &Vec<(String, String)>, name: &str) -> (r: Option<String>)
    ensures
        match r {
            Some(v) => lookup_var(vars@, name@) == Some(v@),
            None => lookup_var(vars@, name@) is None,
        },
{
    match find_var(vars, name) {
        Some(v) => Some(v.clone()),
        None => None,
    }
}

fn load_bool(vars: &Vec<(String, String)>, name: &str, default: &str) -> (r: Result<bool, ConfigError>)
    ensures
        match r {
            Ok(b) => parse_bool_spec(setting_text(vars@, name@, default@)) == Some(b),
            Err(e) => parse_bool_spec(setting_text(vars@, name@, default@)) is None
                && e.var_name() == name@,
        },
{
    let text = load_text(vars, name, default);
    match parse_bool(text.as_str()) {
        Some(b) => Ok(b),
        None => Err(ConfigError::ParseError { name: name.to_string() }),
    }
}

fn load_u8(vars: &Vec<(String, String)>, name: &str, default: &str) -> (r: Result<u8, ConfigError>)
    ensures
        match r {
            Ok(v) => parse_unsigned_spec(setting_text(vars@, name@, default@), u8::MAX as nat)
                == Some(v as nat),
            Err(e) => parse_unsigned_spec(setting_text(vars@, name@, default@), u8::MAX as nat) is None
                && e.var_name() == name@,
        },
{
    let text = load_text(vars, name, default);
    match parse_u8(text.as_str()) {
        Some(v) => Ok(v),
        None => Err(ConfigError::ParseError { name: name.to_string() }),
    }
}

fn load_u16(vars: &Vec<(String, String)>, name: &str, default: &str) -> (r: Result<u16, ConfigError>)
    ensures
        match r {
            Ok(v) => parse_unsigned_spec(setting_text(vars@, name@, default@), u16::MAX as nat)
                == Some(v as nat),
            Err(e) => parse_unsigned_spec(setting_text(vars@, name@, default@), u16::MAX as nat) is None
                && e.var_name() == name@,
        },
{
    let text = load_text(vars, name, default);
    match parse_u16(text.as_str()) {
        Some(v) => Ok(v),
        None => Err(ConfigError::ParseError { name: name.to_string() }),
    }
}

fn load_u64(vars: &Vec<(String, String)>, name: &str, default: &str) -> (r: Result<u64, ConfigError>)
    ensures
        match r {
            Ok(v) => parse_unsigned_spec(setting_text(vars@, name@, default@), u64::MAX as nat)
                == Some(v as nat),
            Err(e) => parse_unsigned_spec(setting_text(vars@, name@, default@), u64::MAX as nat) is None
                && e.var_name() == name@,
        },
{
    let text = load_text(vars, name, default);
    match parse_u64(text.as_str()) {
        Some(v) => Ok(v),
        None => Err(ConfigError::ParseError { name: name.to_string() }),
    }
}

/// Whether the text of a boolean setting parses.
pub open spec fn bool_ok(vars: Seq<(String, String)>, name: Seq<char>, default: Seq<char>) -> bool {
    parse_bool_spec(setting_text(vars, name, default)) is Some
}

/// Whether the text of an unsigned setting with largest value `max` parses.
pub open spec fn unsigned_ok(
    vars: Seq<(String, String)>,
    name: Seq<char>,
    default: Seq<char>,
    max: nat,
) -> bool {
    parse_unsigned_spec(setting_text(vars, name, default), max) is Some
}

/// The value of a boolean setting whose text parses.
pub open spec fn bool_value(vars: Seq<(String, String)>, name: Seq<char>, default: Seq<char>) -> bool {
    parse_bool_spec(setting_text(vars, name, default)).unwrap()
}

/// The value of an unsigned setting whose text parses.
pub open spec fn unsigned_value(
    vars: Seq<(String, String)>,
    name: Seq<char>,
    default: Seq<char>,
    max: nat,
) -> nat {
    parse_unsigned_spec(setting_text(vars, name, default), max).unwrap()
}

/// The first setting, in declaration order, whose text does not parse.
pub open spec fn first_invalid_setting(vars: Seq<(String, String)>) -> Option<Seq<char>> {
    if !bool_ok(vars, "BLE_TO_MQTT_ENABLED"@, "true"@) {
        Some("BLE_TO_MQTT_ENABLED"@)
    } else if !unsigned_ok(vars, "BLE_TO_MQTT_PORT"@, "1883"@, u16::MAX as nat) {
        Some("BLE_TO_MQTT_PORT"@)
    } else if !bool_ok(vars, "BLE_TO_MQTT_USE_TLS_TRANSPORT"@, "false"@) {
        Some("BLE_TO_MQTT_USE_TLS_TRANSPORT"@)
    } else if !unsigned_ok(vars, "BLE_TO_MQTT_TOPIC_QOS"@, "0"@, u8::MAX as nat) {
        Some("BLE_TO_MQTT_TOPIC_QOS"@)
    } else if !bool_ok(vars, "BLE_TO_MQTT_TOPIC_RETAIN"@, "false"@) {
        Some("BLE_TO_MQTT_TOPIC_RETAIN"@)
    } else if !unsigned_ok(vars, "BLE_TO_MQTT_KEEP_ALIVE_INTERVAL_SEC"@, "10"@, u64::MAX as nat) {
        Some("BLE_TO_MQTT_KEEP_ALIVE_INTERVAL_SEC"@)
    } else if !bool_ok(vars, "BLE_TO_MQTT_CLEAN_START"@, "false"@) {
        Some("BLE_TO_MQTT_CLEAN_START"@)
    } else if !unsigned_ok(
        vars,
        "BLE_TO_MQTT_BT_AUTO_SCAN_RESTART_INTERVAL_SEC"@,
        "3600"@,
        u64::MAX as nat,
    ) {
        Some("BLE_TO_MQTT_BT_AUTO_SCAN_RESTART_INTERVAL_SEC"@)
    } else if !bool_ok(vars, "BLE_TO_MEMPHIS_ENABLED"@, "false"@) {
        Some("BLE_TO_MEMPHIS_ENABLED"@)
    } else {
        None
    }
}

/// The optional text setting `name`, viewed.
pub open spec fn optional_view(o: Option<String>) -> Option<Seq<char>> {
    match o {
        Some(s) => Some(s@),
        None => None,
    }
}

impl Config {
    /// Whether every field holds the value that `vars` gives it.
    pub open spec fn loaded_from(&self, vars: Seq<(String, String)>) -> bool {
        &&& self.mqtt_enabled == bool_value(vars, "BLE_TO_MQTT_ENABLED"@, "true"@)
        &&& self.mqtt_host@ == setting_text(vars, "BLE_TO_MQTT_HOST"@, "127.0.0.1"@)
        &&& self.mqtt_port as nat == unsigned_value(
            vars,
            "BLE_TO_MQTT_PORT"@,
            "1883"@,
            u16::MAX as nat,
        )
        &&& self.mqtt_use_tls_transport == bool_value(
            vars,
            "BLE_TO_MQTT_USE_TLS_TRANSPORT"@,
            "false"@,
        )
        &&& optional_view(self.mqtt_username) == lookup_var(vars, "BLE_TO_MQTT_USERNAME"@)
        &&& optional_view(self.mqtt_password) == lookup_var(vars, "BLE_TO_MQTT_PASSWORD"@)
        &&& self.mqtt_client_id@ == setting_text(
            vars,
            "BLE_TO_MQTT_CLIENT_ID"@,
            "ble-to-mqtt-bridge"@,
        )
        &&& self.mqtt_topic@ == setting_text(vars, "BLE_TO_MQTT_TOPIC"@, "ble-to-mqtt"@)
        &&& self.mqtt_topic_qos as nat == unsigned_value(
            vars,
            "BLE_TO_MQTT_TOPIC_QOS"@,
            "0"@,
            u8::MAX as nat,
        )
        &&& self.mqtt_topic_retain == bool_value(vars, "BLE_TO_MQTT_TOPIC_RETAIN"@, "false"@)
        &&& self.mqtt_keep_alive_interval_seconds as nat == unsigned_value(
            vars,
            "BLE_TO_MQTT_KEEP_ALIVE_INTERVAL_SEC"@,
            "10"@,
            u64::MAX as nat,
        )
        &&& self.mqtt_clean_start == bool_value(vars, "BLE_TO_MQTT_CLEAN_START"@, "false"@)
        &&& self.bt_auto_scan_restart_interval_seconds as nat == unsigned_value(
            vars,
            "BLE_TO_MQTT_BT_AUTO_SCAN_RESTART_INTERVAL_SEC"@,
            "3600"@,
            u64::MAX as nat,
        )
        &&& self.memphis_enabled == bool_value(vars, "BLE_TO_MEMPHIS_ENABLED"@, "false"@)
        &&& self.memphis_hostname@ == setting_text(
            vars,
            "BLE_TO_MEMPHIS_HOSTNAME"@,
            "localhost:6666"@,
        )
        &&& self.memphis_username@ == setting_text(vars, "BLE_TO_MEMPHIS_USERNAME"@, "root"@)
        &&& self.memphis_password@ == setting_text(
            vars,
            "BLE_TO_MEMPHIS_PASSWORD"@,
            "memphis"@,
        )
        &&& self.memphis_station@ == setting_text(
            vars,
            "BLE_TO_MEMPHIS_STATION"@,
            "bleTomMemphis"@,
        )
        &&& self.memphis_producer_name@ == setting_text(
            vars,
            "BLE_TO_MEMPHIS_PRODUCER_NAME"@,
            "bleTomMemphisProducer"@,
        )
    }

    /// Loads the settings from named variables (`vars` holds name and value
    /// pairs). A setting whose variable is not set takes its default; the
    /// first setting, in declaration order, whose text does not parse is
    /// reported.
    pub fn init_from_pairs(vars: &Vec<(String, String)>) -> (r: Result<Config, ConfigError>)
        ensures
            match r {
                Ok(c) => first_invalid_setting(vars@) is None && c.loaded_from(vars@),
                Err(e) => first_invalid_setting(vars@) == Some(e.var_name()),
            },
    {
        let mqtt_enabled = load_bool(vars, "BLE_TO_MQTT_ENABLED", "true")?;
        let mqtt_host = load_text(vars, "BLE_TO_MQTT_HOST", "127.0.0.1");
        let mqtt_port = load_u16(vars, "BLE_TO_MQTT_PORT", "1883")?;
        let mqtt_use_tls_transport = load_bool(vars, "BLE_TO_MQTT_USE_TLS_TRANSPORT", "false")?;
        let mqtt_username = load_optional_text(vars, "BLE_TO_MQTT_USERNAME");
        let mqtt_password = load_optional_text(vars, "BLE_TO_MQTT_PASSWORD");
        let mqtt_client_id = load_text(vars, "BLE_TO_MQTT_CLIENT_ID", "ble-to-mqtt-bridge");
        let mqtt_topic = load_text(vars, "BLE_TO_MQTT_TOPIC", "ble-to-mqtt");
        let mqtt_topic_qos = load_u8(vars, "BLE_TO_MQTT_TOPIC_QOS", "0")?;
        let mqtt_topic_retain = load_bool(vars, "BLE_TO_MQTT_TOPIC_RETAIN", "false")?;
        let mqtt_keep_alive_interval_seconds = load_u64(
            vars,
            "BLE_TO_MQTT_KEEP_ALIVE_INTERVAL_SEC",
            "10",
        )?;
        let mqtt_clean_start = load_bool(vars, "BLE_TO_MQTT_CLEAN_START", "false")?;
        let bt_auto_scan_restart_interval_seconds = load_u64(
            vars,
            "BLE_TO_MQTT_BT_AUTO_SCAN_RESTART_INTERVAL_SEC",
            "3600",
        )?;
        let memphis_enabled = load_bool(vars, "BLE_TO_MEMPHIS_ENABLED", "false")?;
        let memphis_hostname = load_text(vars, "BLE_TO_MEMPHIS_HOSTNAME", "localhost:6666");
        let memphis_username = load_text(vars, "BLE_TO_MEMPHIS_USERNAME", "root");
        let memphis_password = load_text(vars, "BLE_TO_MEMPHIS_PASSWORD", "memphis");
        let memphis_station = load_text(vars, "BLE_TO_MEMPHIS_STATION", "bleTomMemphis");
        let memphis_producer_name = load_text(
            vars,
            "BLE_TO_MEMPHIS_PRODUCER_NAME",
            "bleTomMemphisProducer",
        );
        Ok(
            Config {
                mqtt_enabled,
                mqtt_host,
                mqtt_port,
                mqtt_use_tls_transport,
                mqtt_username,
                mqtt_password,
                mqtt_client_id,
                mqtt_topic,
                mqtt_topic_qos,
                mqtt_topic_retain,
                mqtt_keep_alive_interval_seconds,
                mqtt_clean_start,
                bt_auto_scan_restart_interval_seconds,
                memphis_enabled,
                memphis_hostname,
                memphis_username,
                memphis_password,
                memphis_station,
                memphis_producer_name,
            },
        )
    }
}


/// Whether `name` is one of the variables the settings are read from.
pub open spec fn is_config_var(name: Seq<char>) -> bool {
    ||| name == "BLE_TO_MQTT_ENABLED"@
    ||| name == "BLE_TO_MQTT_HOST"@
    ||| name == "BLE_TO_MQTT_PORT"@
    ||| name == "BLE_TO_MQTT_USE_TLS_TRANSPORT"@
    ||| name == "BLE_TO_MQTT_USERNAME"@
    ||| name == "BLE_TO_MQTT_PASSWORD"@
    ||| name == "BLE_TO_MQTT_CLIENT_ID"@
    ||| name == "BLE_TO_MQTT_TOPIC"@
    ||| name == "BLE_TO_MQTT_TOPIC_QOS"@
    ||| name == "BLE_TO_MQTT_TOPIC_RETAIN"@
    ||| name == "BLE_TO_MQTT_KEEP_ALIVE_INTERVAL_SEC"@
    ||| name == "BLE_TO_MQTT_CLEAN_START"@
    ||| name == "BLE_TO_MQTT_BT_AUTO_SCAN_RESTART_INTERVAL_SEC"@
    ||| name == "BLE_TO_MEMPHIS_ENABLED"@
    ||| name == "BLE_TO_MEMPHIS_HOSTNAME"@
    ||| name == "BLE_TO_MEMPHIS_USERNAME"@
    ||| name == "BLE_TO_MEMPHIS_PASSWORD"@
    ||| name == "BLE_TO_MEMPHIS_STATION"@
    ||| name == "BLE_TO_MEMPHIS_PRODUCER_NAME"@
}

/// A variable with another name does not change the value of `name`.
proof fn lemma_lookup_other(vars: Seq<(String, String)>, extra: (String, String), name: Seq<char>)
    requires
        extra.0@ != name,
    ensures
        lookup_var(vars.push(extra), name) == lookup_var(vars, name),
    decreases vars.len(),
{
    if vars.len() > 0 {
        assert(vars.push(extra)[0] == vars[0]);
        assert(vars.push(extra).drop_first() =~= vars.drop_first().push(extra));
        lemma_lookup_other(vars.drop_first(), extra, name);
    } else {
        assert(vars.push(extra)[0] == extra);
        assert(vars.push(extra).drop_first() =~= vars);
    }
}

/// Variables that the settings are not read from change nothing: loading
/// with one more such variable fails on the same setting, or gives the same
/// settings.
pub proof fn lemma_unrelated_variable(vars: Seq<(String, String)>, extra: (String, String))
    requires
        !is_config_var(extra.0@),
    ensures
        first_invalid_setting(vars.push(extra)) == first_invalid_setting(vars),
        forall|c: Config| #[trigger] c.loaded_from(vars.push(extra)) == c.loaded_from(vars),
{
    assert forall|name: Seq<char>| is_config_var(name) implies #[trigger] lookup_var(
        vars.push(extra),
        name,
    ) == lookup_var(vars, name) by {
        lemma_lookup_other(vars, extra, name);
    }
    assert(is_config_var("BLE_TO_MQTT_ENABLED"@));
    assert(is_config_var("BLE_TO_MQTT_HOST"@));
    assert(is_config_var("BLE_TO_MQTT_PORT"@));
    assert(is_config_var("BLE_TO_MQTT_USE_TLS_TRANSPORT"@));
    assert(is_config_var("BLE_TO_MQTT_USERNAME"@));
    assert(is_config_var("BLE_TO_MQTT_PASSWORD"@));
    assert(is_config_var("BLE_TO_MQTT_CLIENT_ID"@));
    assert(is_config_var("BLE_TO_MQTT_TOPIC"@));
    assert(is_config_var("BLE_TO_MQTT_TOPIC_QOS"@));
    assert(is_config_var("BLE_TO_MQTT_TOPIC_RETAIN"@));
    assert(is_config_var("BLE_TO_MQTT_KEEP_ALIVE_INTERVAL_SEC"@));
    assert(is_config_var("BLE_TO_MQTT_CLEAN_START"@));
    assert(is_config_var("BLE_TO_MQTT_BT_AUTO_SCAN_RESTART_INTERVAL_SEC"@));
    assert(is_config_var("BLE_TO_MEMPHIS_ENABLED"@));
    assert(is_config_var("BLE_TO_MEMPHIS_HOSTNAME"@));
    assert(is_config_var("BLE_TO_MEMPHIS_USERNAME"@));
    assert(is_config_var("BLE_TO_MEMPHIS_PASSWORD"@));
    assert(is_config_var("BLE_TO_MEMPHIS_STATION"@));
    assert(is_config_var("BLE_TO_MEMPHIS_PRODUCER_NAME"@));
}

/// A variable that is set first to `value` decides its setting: the text of
/// the setting is `value`, whatever follows and whatever the default.
pub proof fn lemma_first_setting_wins(
    vars: Seq<(String, String)>,
    name: String,
    value: String,
    default: Seq<char>,
)
    ensures
        setting_text(seq![(name, value)] + vars, name@, default) == value@,
{
    assert((seq![(name, value)] + vars)[0] == (name, value));
}

/// What each loaded setting is, field by field: a boolean is true exactly
/// when its variable (or, when unset, its default) reads `true`; a number is
/// the decimal value of its variable's digits (after an optional `+`), or of
/// its default; a text is its variable's value or its default; an optional
/// text is present exactly when its variable is set, with its value.
pub proof fn lemma_loaded_settings(vars: Seq<(String, String)>, c: Config)
    requires
        first_invalid_setting(vars) is None,
        c.loaded_from(vars),
    ensures
        c.mqtt_enabled == (match lookup_var(vars, "BLE_TO_MQTT_ENABLED"@) {
            Some(v) => v == "true"@,
            None => true,
        }),
        c.mqtt_use_tls_transport == (match lookup_var(vars, "BLE_TO_MQTT_USE_TLS_TRANSPORT"@) {
            Some(v) => v == "true"@,
            None => false,
        }),
        c.mqtt_topic_retain == (match lookup_var(vars, "BLE_TO_MQTT_TOPIC_RETAIN"@) {
            Some(v) => v == "true"@,
            None => false,
        }),
        c.mqtt_clean_start == (match lookup_var(vars, "BLE_TO_MQTT_CLEAN_START"@) {
            Some(v) => v == "true"@,
            None => false,
        }),
        c.memphis_enabled == (match lookup_var(vars, "BLE_TO_MEMPHIS_ENABLED"@) {
            Some(v) => v == "true"@,
            None => false,
        }),
        c.mqtt_port as nat == decimal_value(
            unsigned_digits(
                match lookup_var(vars, "BLE_TO_MQTT_PORT"@) {
                    Some(v) => v,
                    None => "1883"@,
                },
            ),
        ),
        c.mqtt_topic_qos as nat == decimal_value(
            unsigned_digits(
                match lookup_var(vars, "BLE_TO_MQTT_TOPIC_QOS"@) {
                    Some(v) => v,
                    None => "0"@,
                },
            ),
        ),
        c.mqtt_keep_alive_interval_seconds as nat == decimal_value(
            unsigned_digits(
                match lookup_var(vars, "BLE_TO_MQTT_KEEP_ALIVE_INTERVAL_SEC"@) {
                    Some(v) => v,
                    None => "10"@,
                },
            ),
        ),
        c.bt_auto_scan_restart_interval_seconds as nat == decimal_value(
            unsigned_digits(
                match lookup_var(vars, "BLE_TO_MQTT_BT_AUTO_SCAN_RESTART_INTERVAL_SEC"@) {
                    Some(v) => v,
                    None => "3600"@,
                },
            ),
        ),
        c.mqtt_host@ == (match lookup_var(vars, "BLE_TO_MQTT_HOST"@) {
            Some(v) => v,
            None => "127.0.0.1"@,
        }),
        c.mqtt_client_id@ == (match lookup_var(vars, "BLE_TO_MQTT_CLIENT_ID"@) {
            Some(v) => v,
            None => "ble-to-mqtt-bridge"@,
        }),
        c.mqtt_topic@ == (match lookup_var(vars, "BLE_TO_MQTT_TOPIC"@) {
            Some(v) => v,
            None => "ble-to-mqtt"@,
        }),
        c.memphis_hostname@ == (match lookup_var(vars, "BLE_TO_MEMPHIS_HOSTNAME"@) {
            Some(v) => v,
            None => "localhost:6666"@,
        }),
        c.memphis_username@ == (match lookup_var(vars, "BLE_TO_MEMPHIS_USERNAME"@) {
            Some(v) => v,
            None => "root"@,
        }),
        c.memphis_password@ == (match lookup_var(vars, "BLE_TO_MEMPHIS_PASSWORD"@) {
            Some(v) => v,
            None => "memphis"@,
        }),
        c.memphis_station@ == (match lookup_var(vars, "BLE_TO_MEMPHIS_STATION"@) {
            Some(v) => v,
            None => "bleTomMemphis"@,
        }),
        c.memphis_producer_name@ == (match lookup_var(vars, "BLE_TO_MEMPHIS_PRODUCER_NAME"@) {
            Some(v) => v,
            None => "bleTomMemphisProducer"@,
        }),
        (c.mqtt_username matches Some(u) ==> lookup_var(vars, "BLE_TO_MQTT_USERNAME"@) == Some(u@)),
        (c.mqtt_username is None ==> lookup_var(vars, "BLE_TO_MQTT_USERNAME"@) is None),
        (c.mqtt_password matches Some(u) ==> lookup_var(vars, "BLE_TO_MQTT_PASSWORD"@) == Some(u@)),
        (c.mqtt_password is None ==> lookup_var(vars, "BLE_TO_MQTT_PASSWORD"@) is None),
{
    reveal_strlit("true");
    reveal_strlit("false");
    assert("false"@.len() != "true"@.len());
    assert("false"@ != "true"@);
    assert(bool_ok(vars, "BLE_TO_MQTT_ENABLED"@, "true"@));
    lemma_bool_setting(vars, "BLE_TO_MQTT_ENABLED"@, "true"@);
    assert(bool_ok(vars, "BLE_TO_MQTT_USE_TLS_TRANSPORT"@, "false"@));
    lemma_bool_setting(vars, "BLE_TO_MQTT_USE_TLS_TRANSPORT"@, "false"@);
    assert(bool_ok(vars, "BLE_TO_MQTT_TOPIC_RETAIN"@, "false"@));
    lemma_bool_setting(vars, "BLE_TO_MQTT_TOPIC_RETAIN"@, "false"@);
    assert(bool_ok(vars, "BLE_TO_MQTT_CLEAN_START"@, "false"@));
    lemma_bool_setting(vars, "BLE_TO_MQTT_CLEAN_START"@, "false"@);
    assert(bool_ok(vars, "BLE_TO_MEMPHIS_ENABLED"@, "false"@));
    lemma_bool_setting(vars, "BLE_TO_MEMPHIS_ENABLED"@, "false"@);
}

/// A boolean setting whose text parses is true exactly when the text reads `true`.
proof fn lemma_bool_setting(vars: Seq<(String, String)>, name: Seq<char>, default: Seq<char>)
    requires
        bool_ok(vars, name, default),
    ensures
        bool_value(vars, name, default) == (match lookup_var(vars, name) {
            Some(v) => v == "true"@,
            None => default == "true"@,
        }),
{
}

/// A reported setting is always one of the variables the settings are read from.
pub proof fn lemma_invalid_setting_is_config_var(vars: Seq<(String, String)>)
    ensures
        first_invalid_setting(vars) matches Some(n) ==> is_config_var(n),
{
}

} // verus!

//! The configuration file's schema, its defaults, the rules a loaded
//! configuration must meet, the known keys, and how `config get` renders a
//! value. Reading and writing the file (with its permission checks) is done
//! by the application, which hands the parsed configuration to this module.

use crate::text::{
    debug_quoted, debug_text, decimal, is_blank, is_blank_text, parse_i64, push_char, push_decimal,
    signed_literal, str_eq, text_of, texts, joined,
};
use vstd::prelude::*;

verus! {

/// The only configuration format version this build reads.
pub const CONFIG_VERSION: u8 = 1;

/// The longest inclusive travel window, in days.
pub const MAX_TRAVEL_RANGE_DAYS: u32 = 366;

/// What `config show` and `config get` print for a secret that is set.
pub const REDACTED: &'static str = "********";

/// The `[flightaware]` table.
pub struct FlightAwareConfig {
    pub api_key: Option<String>,
    pub enabled: bool,
    pub monthly_result_set_limit: u32,
    pub request_timeout_seconds: u64,
    pub stale_if_error: bool,
}

impl Default for FlightAwareConfig {
    fn default() -> (r: Self)
        ensures
            r.api_key is None,
            r.enabled,
            r.monthly_result_set_limit == 900,
            r.request_timeout_seconds == 10,
            r.stale_if_error,
    {
        FlightAwareConfig {
            api_key: None,
            enabled: true,
            monthly_result_set_limit: 900,
            request_timeout_seconds: 10,
            stale_if_error: true,
        }
    }
}

/// The `[calendar]` table.
pub struct CalendarConfig {
    pub default_calendar_id: Option<String>,
}

impl Default for CalendarConfig {
    fn default() -> (r: Self)
        ensures
            r.default_calendar_id is None,
    {
        CalendarConfig { default_calendar_id: None }
    }
}

/// The `[reminders]` table.
pub struct RemindersConfig {
    pub default_list_id: Option<String>,
}

impl Default for RemindersConfig {
    fn default() -> (r: Self)
        ensures
            r.default_list_id is None,
    {
        RemindersConfig { default_list_id: None }
    }
}

/// The `[travel.server]` table.
pub struct TravelServerConfig {
    pub bind: String,
    pub port: u16,
    pub open_browser: bool,
}

impl Default for TravelServerConfig {
    fn default() -> (r: Self)
        ensures
            r.bind@ == "127.0.0.1"@,
            r.port == 0,
            r.open_browser,
    {
        TravelServerConfig { bind: text_of("127.0.0.1"), port: 0, open_browser: true }
    }
}

/// The `[travel.map]` table.
pub struct TravelMapConfig {
    pub projection: String,
    pub style_url: Option<String>,
}

impl Default for TravelMapConfig {
    fn default() -> (r: Self)
        ensures
            r.projection@ == "globe"@,
            r.style_url is None,
    {
        TravelMapConfig { projection: text_of("globe"), style_url: None }
    }
}

/// The `[travel]` table.
pub struct TravelConfig {
    pub default_range_days: u32,
    pub calendar_ids: Vec<String>,
    pub server: TravelServerConfig,
    pub map: TravelMapConfig,
}

impl Default for TravelConfig {
    fn default() -> (r: Self)
        ensures
            r.default_range_days == 90,
            r.calendar_ids@.len() == 0,
            r.server.bind@ == "127.0.0.1"@,
            r.server.port == 0,
            r.server.open_browser,
            r.map.projection@ == "globe"@,
            r.map.style_url is None,
    {
        TravelConfig {
            default_range_days: 90,
            calendar_ids: Vec::new(),
            server: TravelServerConfig::default(),
            map: TravelMapConfig::default(),
        }
    }
}

/// The whole configuration file.
pub struct Config {
    pub config_version: u8,
    pub flightaware: FlightAwareConfig,
    pub calendar: CalendarConfig,
    pub reminders: RemindersConfig,
    pub travel: TravelConfig,
}

/// The configuration that applies when no file exists.
pub open spec fn is_default_config(c: Config) -> bool {
    &&& c.config_version == CONFIG_VERSION
    &&& c.flightaware.api_key is None
    &&& c.flightaware.enabled
    &&& c.flightaware.monthly_result_set_limit == 900
    &&& c.flightaware.request_timeout_seconds == 10
    &&& c.flightaware.stale_if_error
    &&& c.calendar.default_calendar_id is None
    &&& c.reminders.default_list_id is None
    &&& c.travel.default_range_days == 90
    &&& c.travel.calendar_ids@.len() == 0
    &&& c.travel.server.bind@ == "127.0.0.1"@
    &&& c.travel.server.port == 0
    &&& c.travel.server.open_browser
    &&& c.travel.map.projection@ == "globe"@
    &&& c.travel.map.style_url is None
}

impl Default for Config {
    fn default() -> (r: Self)
        ensures
            is_default_config(r),
    {
        Config {
            config_version: CONFIG_VERSION,
            flightaware: FlightAwareConfig::default(),
            calendar: CalendarConfig::default(),
            reminders: RemindersConfig::default(),
            travel: TravelConfig::default(),
        }
    }
}

/// What parsing `travel.server.bind` as an IP address gives: not an
/// address, a loopback address, or another address.
#[derive(Clone, Copy, PartialEq, Eq, Structural)]
pub enum BindAddress {
    NotAnAddress,
    Loopback,
    Other,
}

/// An optional value that is set but blank.
pub open spec fn blank_option(o: Option<String>) -> bool {
    o is Some && is_blank_text(o->Some_0@)
}

/// Some calendar id in the list is blank.
pub open spec fn has_blank_id(ids: Seq<String>) -> bool {
    exists|i: int| 0 <= i < ids.len() && is_blank_text(#[trigger] ids[i]@)
}

/// The message for an unsupported format version.
pub open spec fn version_text(version: u8) -> Seq<char> {
    "unsupported config_version "@ + decimal(version as nat) + "; expected 1"@
}

/// The first rule the configuration breaks, in the order they are checked,
/// given what parsing its bind address gives.
pub open spec fn config_error(c: Config, bind: BindAddress) -> Option<Seq<char>> {
    if c.config_version != CONFIG_VERSION {
        Some(version_text(c.config_version))
    } else if blank_option(c.flightaware.api_key) {
        Some("flightaware.api_key must not be empty"@)
    } else if c.flightaware.monthly_result_set_limit == 0 {
        Some("flightaware.monthly_result_set_limit must be greater than zero"@)
    } else if c.flightaware.request_timeout_seconds == 0 {
        Some("flightaware.request_timeout_seconds must be greater than zero"@)
    } else if blank_option(c.calendar.default_calendar_id) {
        Some("calendar.default_calendar_id must not be empty"@)
    } else if blank_option(c.reminders.default_list_id) {
        Some("reminders.default_list_id must not be empty"@)
    } else if c.travel.default_range_days == 0 {
        Some("travel.default_range_days must be greater than zero"@)
    } else if c.travel.default_range_days > MAX_TRAVEL_RANGE_DAYS {
        Some("travel.default_range_days must not exceed 366 inclusive days"@)
    } else if has_blank_id(c.travel.calendar_ids@) {
        Some("travel.calendar_ids must not contain empty values"@)
    } else if bind == BindAddress::NotAnAddress {
        Some("travel.server.bind must be an IP address"@)
    } else if bind == BindAddress::Other {
        Some("travel.server.bind must be a loopback address"@)
    } else if !(c.travel.map.projection@ == "map"@ || c.travel.map.projection@ == "globe"@) {
        Some("travel.map.projection must be `map` or `globe`"@)
    } else if blank_option(c.travel.map.style_url) {
        Some("travel.map.style_url must not be empty"@)
    } else {
        None
    }
}

/// Whether an optional value is set and blank.
fn is_blank_option(o: &Option<String>) -> (r: bool)
    ensures
        r == blank_option(*o),
{
    match o {
        Some(s) => is_blank(s.as_str()),
        None => false,
    }
}

/// Whether some id in the list is blank.
fn any_blank(ids: &Vec<String>) -> (r: bool)
    ensures
        r == has_blank_id(ids@),
{
    let mut i: usize = 0;
    while i < ids.len()
        invariant
            i <= ids@.len(),
            forall|j: int| 0 <= j < i ==> !is_blank_text(#[trigger] ids@[j]@),
        decreases ids.len() - i,
    {
        if is_blank(ids[i].as_str()) {
            return true;
        }
        i = i + 1;
    }
    false
}

/// Checks a loaded configuration, reporting the first rule it breaks.
/// `bind` is what parsing `travel.server.bind` as an IP address gave.
pub fn validate(config: &Config, bind: BindAddress) -> (r: Result<(), String>)
    ensures
        match config_error(*config, bind) {
            Some(m) => r is Err && r->Err_0@ == m,
            None => r is Ok,
        },
{
    if config.config_version != CONFIG_VERSION {
        let mut m = text_of("unsupported config_version ");
        push_decimal(&mut m, config.config_version as u64);
        m.append("; expected 1");
        return Err(m);
    }
    if is_blank_option(&config.flightaware.api_key) {
        return Err(text_of("flightaware.api_key must not be empty"));
    }
    if config.flightaware.monthly_result_set_limit == 0 {
        return Err(text_of("flightaware.monthly_result_set_limit must be greater than zero"));
    }
    if config.flightaware.request_timeout_seconds == 0 {
        return Err(text_of("flightaware.request_timeout_seconds must be greater than zero"));
    }
    if is_blank_option(&config.calendar.default_calendar_id) {
        return Err(text_of("calendar.default_calendar_id must not be empty"));
    }
    if is_blank_option(&config.reminders.default_list_id) {
        return Err(text_of("reminders.default_list_id must not be empty"));
    }
    if config.travel.default_range_days == 0 {
        return Err(text_of("travel.default_range_days must be greater than zero"));
    }
    if config.travel.default_range_days > MAX_TRAVEL_RANGE_DAYS {
        return Err(text_of("travel.default_range_days must not exceed 366 inclusive days"));
    }
    if any_blank(&config.travel.calendar_ids) {
        return Err(text_of("travel.calendar_ids must not contain empty values"));
    }
    match bind {
        BindAddress::NotAnAddress => {
            return Err(text_of("travel.server.bind must be an IP address"));
        },
        BindAddress::Other => {
            return Err(text_of("travel.server.bind must be a loopback address"));
        },
        BindAddress::Loopback => {},
    }
    let projection = config.travel.map.projection.as_str();
    if !(str_eq(projection, "map") || str_eq(projection, "globe")) {
        return Err(text_of("travel.map.projection must be `map` or `globe`"));
    }
    if is_blank_option(&config.travel.map.style_url) {
        return Err(text_of("travel.map.style_url must not be empty"));
    }
    Ok(())
}

/// The documented file `config init` writes; it sets the defaults.
pub const SAMPLE_CONFIG: &'static str = "# icalctl configuration
# This file may contain secrets. Keep its permissions set to 0600.

config_version = 1

[flightaware]
# api_key = \"replace-with-your-flightaware-api-key\"
enabled = true
monthly_result_set_limit = 900
request_timeout_seconds = 10
stale_if_error = true

[calendar]
# Exact EventKit calendar ID used for adds that omit a calendar selector.
# default_calendar_id = \"CALENDAR-ID\"

[reminders]
# Exact EventKit reminder-list ID used for adds that omit a list selector.
# default_list_id = \"REMINDER-LIST-ID\"

[travel]
# Inclusive upcoming window used by travel serve (maximum 366 days).
default_range_days = 90
calendar_ids = []

[travel.server]
bind = \"127.0.0.1\"
port = 0
open_browser = true

[travel.map]
projection = \"globe\"
# Optional public/keyless MapLibre style URL.
# Defaults to the OpenFreeMap Bright street style.
# style_url = \"https://tiles.openfreemap.org/styles/bright\"
";

/// Hides the FlightAware key before the configuration is shown: a set key
/// reads as redacted; everything else is left as it is.
pub fn redact_secrets(config: &mut Config)
    ensures
        old(config).flightaware.api_key is Some ==> final(config).flightaware.api_key is Some
            && final(config).flightaware.api_key->Some_0@ == REDACTED@,
        old(config).flightaware.api_key is None ==> final(config).flightaware.api_key is None,
        final(config).config_version == old(config).config_version,
        final(config).flightaware.enabled == old(config).flightaware.enabled,
        final(config).flightaware.monthly_result_set_limit == old(config).flightaware.monthly_result_set_limit,
        final(config).flightaware.request_timeout_seconds == old(config).flightaware.request_timeout_seconds,
        final(config).flightaware.stale_if_error == old(config).flightaware.stale_if_error,
        final(config).calendar == old(config).calendar,
        final(config).reminders == old(config).reminders,
        final(config).travel == old(config).travel,
{
    if config.flightaware.api_key.is_some() {
        config.flightaware.api_key = Some(text_of(REDACTED));
    }
}

/// The configuration in effect: the defaults when no file exists, else the
/// parsed file once it passes validation.
pub fn load(stored: Option<Config>, bind: BindAddress) -> (r: Result<Config, String>)
    ensures
        match stored {
            None => r is Ok && is_default_config(r->Ok_0),
            Some(c) => match config_error(c, bind) {
                Some(m) => r is Err && r->Err_0@ == m,
                None => r == Ok::<Config, String>(c),
            },
        },
{
    match stored {
        None => Ok(Config::default()),
        Some(config) => {
            validate(&config, bind)?;
            Ok(config)
        },
    }
}

/// The calendar used for adds that name none, from the configuration in
/// effect.
pub fn default_calendar_id(stored: Option<Config>, bind: BindAddress) -> (r: Result<Option<String>, String>)
    ensures
        match stored {
            None => r == Ok::<Option<String>, String>(None),
            Some(c) => match config_error(c, bind) {
                Some(m) => r is Err && r->Err_0@ == m,
                None => r == Ok::<Option<String>, String>(c.calendar.default_calendar_id),
            },
        },
{
    let config = load(stored, bind)?;
    Ok(config.calendar.default_calendar_id)
}

/// The reminder list used for adds that name none, from the configuration
/// in effect.
pub fn default_reminder_list_id(stored: Option<Config>, bind: BindAddress) -> (r: Result<Option<String>, String>)
    ensures
        match stored {
            None => r == Ok::<Option<String>, String>(None),
            Some(c) => match config_error(c, bind) {
                Some(m) => r is Err && r->Err_0@ == m,
                None => r == Ok::<Option<String>, String>(c.reminders.default_list_id),
            },
        },
{
    let config = load(stored, bind)?;
    Ok(config.reminders.default_list_id)
}

} // verus!

verus! {

/// How a configuration key's value is written.
#[derive(Clone, Copy, PartialEq, Eq, Structural)]
pub enum KeyKind {
    Secret,
    Text,
    Bool,
    Integer,
    StringArray,
}

/// The kind of each key `config get`, `set` and `unset` accept.
pub open spec fn key_kind_of(key: Seq<char>) -> Option<KeyKind> {
    if key == "flightaware.api_key"@ {
        Some(KeyKind::Secret)
    } else if key == "flightaware.enabled"@ {
        Some(KeyKind::Bool)
    } else if key == "flightaware.monthly_result_set_limit"@ {
        Some(KeyKind::Integer)
    } else if key == "flightaware.request_timeout_seconds"@ {
        Some(KeyKind::Integer)
    } else if key == "flightaware.stale_if_error"@ {
        Some(KeyKind::Bool)
    } else if key == "calendar.default_calendar_id"@ {
        Some(KeyKind::Text)
    } else if key == "reminders.default_list_id"@ {
        Some(KeyKind::Text)
    } else if key == "travel.default_range_days"@ {
        Some(KeyKind::Integer)
    } else if key == "travel.calendar_ids"@ {
        Some(KeyKind::StringArray)
    } else if key == "travel.server.bind"@ {
        Some(KeyKind::Text)
    } else if key == "travel.server.port"@ {
        Some(KeyKind::Integer)
    } else if key == "travel.server.open_browser"@ {
        Some(KeyKind::Bool)
    } else if key == "travel.map.projection"@ {
        Some(KeyKind::Text)
    } else if key == "travel.map.style_url"@ {
        Some(KeyKind::Text)
    } else {
        None
    }
}

/// The known keys, in order, separated by a comma and a space.
pub open spec fn key_list_text() -> Seq<char> {
    "flightaware.api_key, flightaware.enabled, flightaware.monthly_result_set_limit, flightaware.request_timeout_seconds, flightaware.stale_if_error, calendar.default_calendar_id, reminders.default_list_id, travel.default_range_days, travel.calendar_ids, travel.server.bind, travel.server.port, travel.server.open_browser, travel.map.projection, travel.map.style_url"@
}

/// The message for a key that is not known.
pub open spec fn unknown_key_text(key: Seq<char>) -> Seq<char> {
    "unknown configuration key "@ + debug_text(key) + "; valid keys: "@ + key_list_text()
}

/// The kind of a known key; an unknown key is refused with the list of
/// known ones.
pub fn require_known_key(key: &str) -> (r: Result<KeyKind, String>)
    ensures
        match key_kind_of(key@) {
            Some(k) => r == Ok::<KeyKind, String>(k),
            None => r is Err && r->Err_0@ == unknown_key_text(key@),
        },
{
    if str_eq(key, "flightaware.api_key") {
        Ok(KeyKind::Secret)
    } else if str_eq(key, "flightaware.enabled") {
        Ok(KeyKind::Bool)
    } else if str_eq(key, "flightaware.monthly_result_set_limit") {
        Ok(KeyKind::Integer)
    } else if str_eq(key, "flightaware.request_timeout_seconds") {
        Ok(KeyKind::Integer)
    } else if str_eq(key, "flightaware.stale_if_error") {
        Ok(KeyKind::Bool)
    } else if str_eq(key, "calendar.default_calendar_id") {
        Ok(KeyKind::Text)
    } else if str_eq(key, "reminders.default_list_id") {
        Ok(KeyKind::Text)
    } else if str_eq(key, "travel.default_range_days") {
        Ok(KeyKind::Integer)
    } else if str_eq(key, "travel.calendar_ids") {
        Ok(KeyKind::StringArray)
    } else if str_eq(key, "travel.server.bind") {
        Ok(KeyKind::Text)
    } else if str_eq(key, "travel.server.port") {
        Ok(KeyKind::Integer)
    } else if str_eq(key, "travel.server.open_browser") {
        Ok(KeyKind::Bool)
    } else if str_eq(key, "travel.map.projection") {
        Ok(KeyKind::Text)
    } else if str_eq(key, "travel.map.style_url") {
        Ok(KeyKind::Text)
    } else {
        let mut m = text_of("unknown configuration key ");
        let quoted = debug_quoted(key);
        m.append(quoted.as_str());
        m.append("; valid keys: ");
        m.append(
            "flightaware.api_key, flightaware.enabled, flightaware.monthly_result_set_limit, flightaware.request_timeout_seconds, flightaware.stale_if_error, calendar.default_calendar_id, reminders.default_list_id, travel.default_range_days, travel.calendar_ids, travel.server.bind, travel.server.port, travel.server.open_browser, travel.map.projection, travel.map.style_url",
        );
        Err(m)
    }
}

/// What TOML writes for an array of strings (the `Display` of a
/// `toml::Value::Array` of `toml::Value::String`s).
pub uninterp spec fn toml_string_array_text(values: Seq<Seq<char>>) -> Seq<char>;

/// Renders a string array as TOML does (`<toml::Value as Display>::fmt`).
#[verifier::external_body]
fn render_string_array(values: &Vec<String>) -> (r: String)
    ensures
        r@ == toml_string_array_text(texts(values@)),
{
    toml::Value::Array(values.iter().map(|v| toml::Value::String(v.clone())).collect()).to_string()
}

/// `true` or `false`.
pub open spec fn bool_text(b: bool) -> Seq<char> {
    if b {
        "true"@
    } else {
        "false"@
    }
}

/// An optional value, or `<unset>`.
pub open spec fn or_unset(o: Option<String>) -> Seq<char> {
    match o {
        Some(s) => s@,
        None => "<unset>"@,
    }
}

/// The value `config get` prints for a known key: a set secret is
/// redacted, an unset optional value reads `<unset>`, text is printed as
/// it is and other values as TOML writes them.
pub open spec fn effective_text(c: Config, key: Seq<char>) -> Seq<char> {
    if key == "flightaware.api_key"@ {
        if c.flightaware.api_key is Some {
            "********"@
        } else {
            "<unset>"@
        }
    } else if key == "flightaware.enabled"@ {
        bool_text(c.flightaware.enabled)
    } else if key == "flightaware.monthly_result_set_limit"@ {
        decimal(c.flightaware.monthly_result_set_limit as nat)
    } else if key == "flightaware.request_timeout_seconds"@ {
        decimal(c.flightaware.request_timeout_seconds as nat)
    } else if key == "flightaware.stale_if_error"@ {
        bool_text(c.flightaware.stale_if_error)
    } else if key == "calendar.default_calendar_id"@ {
        or_unset(c.calendar.default_calendar_id)
    } else if key == "reminders.default_list_id"@ {
        or_unset(c.reminders.default_list_id)
    } else if key == "travel.default_range_days"@ {
        decimal(c.travel.default_range_days as nat)
    } else if key == "travel.calendar_ids"@ {
        toml_string_array_text(texts(c.travel.calendar_ids@))
    } else if key == "travel.server.bind"@ {
        c.travel.server.bind@
    } else if key == "travel.server.port"@ {
        decimal(c.travel.server.port as nat)
    } else if key == "travel.server.open_browser"@ {
        bool_text(c.travel.server.open_browser)
    } else if key == "travel.map.projection"@ {
        c.travel.map.projection@
    } else {
        or_unset(c.travel.map.style_url)
    }
}

/// `true` or `false` as text.
fn bool_string(b: bool) -> (r: String)
    ensures
        r@ == bool_text(b),
{
    if b {
        text_of("true")
    } else {
        text_of("false")
    }
}

/// A value in decimal.
fn decimal_string(n: u64) -> (r: String)
    ensures
        r@ == decimal(n as nat),
{
    let mut s = String::new();
    push_decimal(&mut s, n);
    s
}

/// An optional value, or `<unset>`.
fn or_unset_string(o: &Option<String>) -> (r: String)
    ensures
        r@ == or_unset(*o),
{
    match o {
        Some(s) => s.clone(),
        None => text_of("<unset>"),
    }
}

/// The value `config get` prints for one of the known keys.
pub fn effective_value(config: &Config, key: &str) -> (r: String)
    requires
        key_kind_of(key@) is Some,
    ensures
        r@ == effective_text(*config, key@),
{
    if str_eq(key, "flightaware.api_key") {
        if config.flightaware.api_key.is_some() {
            text_of(REDACTED)
        } else {
            text_of("<unset>")
        }
    } else if str_eq(key, "flightaware.enabled") {
        bool_string(config.flightaware.enabled)
    } else if str_eq(key, "flightaware.monthly_result_set_limit") {
        decimal_string(config.flightaware.monthly_result_set_limit as u64)
    } else if str_eq(key, "flightaware.request_timeout_seconds") {
        decimal_string(config.flightaware.request_timeout_seconds)
    } else if str_eq(key, "flightaware.stale_if_error") {
        bool_string(config.flightaware.stale_if_error)
    } else if str_eq(key, "calendar.default_calendar_id") {
        or_unset_string(&config.calendar.default_calendar_id)
    } else if str_eq(key, "reminders.default_list_id") {
        or_unset_string(&config.reminders.default_list_id)
    } else if str_eq(key, "travel.default_range_days") {
        decimal_string(config.travel.default_range_days as u64)
    } else if str_eq(key, "travel.calendar_ids") {
        render_string_array(&config.travel.calendar_ids)
    } else if str_eq(key, "travel.server.bind") {
        config.travel.server.bind.clone()
    } else if str_eq(key, "travel.server.port") {
        decimal_string(config.travel.server.port as u64)
    } else if str_eq(key, "travel.server.open_browser") {
        bool_string(config.travel.server.open_browser)
    } else if str_eq(key, "travel.map.projection") {
        config.travel.map.projection.clone()
    } else {
        or_unset_string(&config.travel.map.style_url)
    }
}

} // verus!

verus! {

/// Where `config set` takes its value from.
pub enum SetValueSource {
    /// The value given on the command line.
    Given(String),
    /// All of standard input, without its trailing line ends.
    ReadStdin,
    /// A prompt on the terminal; hidden for a secret.
    Prompt { hidden: bool },
}

/// The message for a secret given as a command-line value.
pub open spec fn secret_argument_text(key: Seq<char>) -> Seq<char> {
    key + " must be entered through the hidden prompt or --stdin, not as VALUE"@
}

/// The message for a missing value when no prompt can be shown.
pub open spec fn value_required_text() -> Seq<char> {
    "VALUE is required when stdin is not a terminal; pass VALUE or --stdin"@
}

/// Decides where `config set` reads its value: a secret is never taken from
/// the command line; a given value wins; then `--stdin`; then a prompt,
/// which needs a terminal.
pub fn set_value_source(
    key: &str,
    kind: KeyKind,
    value: Option<String>,
    stdin: bool,
    stdin_is_terminal: bool,
) -> (r: Result<SetValueSource, String>)
    ensures
        kind == KeyKind::Secret && value is Some ==> r is Err && r->Err_0@ == secret_argument_text(key@),
        kind != KeyKind::Secret && value is Some ==> r is Ok && r->Ok_0 is Given && r->Ok_0->Given_0
            == value->Some_0,
        value is None && stdin ==> r is Ok && r->Ok_0 is ReadStdin,
        value is None && !stdin && !stdin_is_terminal ==> r is Err && r->Err_0@ == value_required_text(),
        value is None && !stdin && stdin_is_terminal ==> r is Ok && r->Ok_0 is Prompt && r->Ok_0->hidden
            == (kind == KeyKind::Secret),
{
    if kind == KeyKind::Secret && value.is_some() {
        let mut m = text_of(key);
        m.append(" must be entered through the hidden prompt or --stdin, not as VALUE");
        return Err(m);
    }
    if let Some(v) = value {
        return Ok(SetValueSource::Given(v));
    }
    if stdin {
        return Ok(SetValueSource::ReadStdin);
    }
    if !stdin_is_terminal {
        return Err(text_of("VALUE is required when stdin is not a terminal; pass VALUE or --stdin"));
    }
    Ok(SetValueSource::Prompt { hidden: kind == KeyKind::Secret })
}

/// A carriage return or a line feed.
pub open spec fn is_line_end(c: char) -> bool {
    c == '\r' || c == '\n'
}

/// The text without its trailing run of line-end characters
/// (`trim_end_matches(['\r', '\n'])`).
pub open spec fn without_line_ends(s: Seq<char>) -> Seq<char>
    decreases s.len(),
{
    if s.len() > 0 && is_line_end(s.last()) {
        without_line_ends(s.drop_last())
    } else {
        s
    }
}

/// Drops the trailing carriage returns and line feeds of a value read from
/// standard input or a prompt.
pub fn trim_line_ends(s: &str) -> (r: String)
    ensures
        r@ == without_line_ends(s@),
{
    let n = s.unicode_len();
    let mut end: usize = n;
    assert(s@.take(n as int) =~= s@);
    while end > 0 && (s.get_char(end - 1) == '\r' || s.get_char(end - 1) == '\n')
        invariant
            n == s@.len(),
            end <= n,
            without_line_ends(s@) == without_line_ends(s@.take(end as int)),
        decreases end,
    {
        assert(s@.take(end as int).drop_last() =~= s@.take(end - 1));
        end = end - 1;
    }
    assert(without_line_ends(s@.take(end as int)) == s@.take(end as int));
    let mut r = String::new();
    let mut i: usize = 0;
    while i < end
        invariant
            n == s@.len(),
            end <= n,
            i <= end,
            r@ == s@.take(i as int),
        decreases end - i,
    {
        push_char(&mut r, s.get_char(i));
        assert(s@.take(i + 1) =~= s@.take(i as int).push(s@[i as int]));
        i = i + 1;
    }
    r
}

/// A value for `config set`, typed by its key's kind.
pub enum ConfigValue {
    Text(String),
    Bool(bool),
    Integer(i64),
    StringArray(Vec<String>),
}

/// What `toml_edit` reads from a value text, when it is an array of
/// strings.
pub uninterp spec fn toml_string_array_of(text: Seq<char>) -> Option<Seq<Seq<char>>>;

/// Reads a TOML array of strings (`str::parse::<toml_edit::Value>`),
/// giving `None` when the text is not a TOML value or not an array whose
/// items are all strings.
#[verifier::external_body]
fn parse_string_array(text: &str) -> (r: Option<Vec<String>>)
    ensures
        match toml_string_array_of(text@) {
            Some(items) => r is Some && texts(r->Some_0@) == items,
            None => r is None,
        },
{
    match text.parse::<toml_edit::Value>() {
        Ok(toml_edit::Value::Array(items)) => items.iter().map(|v| v.as_str().map(str::to_string)).collect(),
        _ => None,
    }
}

/// The message for an empty value.
pub open spec fn empty_value_text() -> Seq<char> {
    "configuration value must not be empty; use `config unset` to remove it"@
}

/// What `config set` writes for a key, read from the text by the key's
/// kind: text as it is, `true`/`false`, a signed decimal that fits in
/// `i64`, or a TOML array of strings.
pub open spec fn typed_value_spec(key: Seq<char>, kind: KeyKind, input: Seq<char>) -> Result<ConfigValue, Seq<char>> {
    if input.len() == 0 {
        Err(empty_value_text())
    } else {
        match kind {
            KeyKind::Secret | KeyKind::Text => Ok(ConfigValue::Text(arbitrary())),
            KeyKind::Bool => if input == "true"@ {
                Ok(ConfigValue::Bool(true))
            } else if input == "false"@ {
                Ok(ConfigValue::Bool(false))
            } else {
                Err(key + " must be true or false"@)
            },
            KeyKind::Integer => match signed_literal(input) {
                Some(v) => if i64::MIN <= v <= i64::MAX {
                    Ok(ConfigValue::Integer(v as i64))
                } else {
                    Err(key + " must be an integer"@)
                },
                None => Err(key + " must be an integer"@),
            },
            KeyKind::StringArray => match toml_string_array_of(input) {
                Some(_) => Ok(ConfigValue::StringArray(arbitrary())),
                None => Err(key + " must be a TOML string array"@),
            },
        }
    }
}

/// Types the value `config set` writes; an empty value is refused.
pub fn typed_config_value(key: &str, kind: KeyKind, input: &str) -> (r: Result<ConfigValue, String>)
    ensures
        match typed_value_spec(key@, kind, input@) {
            Err(m) => r is Err && r->Err_0@ == m,
            Ok(ConfigValue::Text(_)) => r is Ok && r->Ok_0 is Text && r->Ok_0->Text_0@ == input@,
            Ok(ConfigValue::StringArray(_)) => r is Ok && r->Ok_0 is StringArray && Some(
                texts(r->Ok_0->StringArray_0@),
            ) == toml_string_array_of(input@),
            Ok(v) => r == Ok::<ConfigValue, String>(v),
        },
{
    if input.unicode_len() == 0 {
        return Err(text_of("configuration value must not be empty; use `config unset` to remove it"));
    }
    match kind {
        KeyKind::Secret | KeyKind::Text => Ok(ConfigValue::Text(text_of(input))),
        KeyKind::Bool => {
            if str_eq(input, "true") {
                Ok(ConfigValue::Bool(true))
            } else if str_eq(input, "false") {
                Ok(ConfigValue::Bool(false))
            } else {
                let mut m = text_of(key);
                m.append(" must be true or false");
                Err(m)
            }
        },
        KeyKind::Integer => match parse_i64(input) {
            Some(v) => Ok(ConfigValue::Integer(v)),
            None => {
                let mut m = text_of(key);
                m.append(" must be an integer");
                Err(m)
            },
        },
        KeyKind::StringArray => match parse_string_array(input) {
            Some(items) => Ok(ConfigValue::StringArray(items)),
            None => {
                let mut m = text_of(key);
                m.append(" must be a TOML string array");
                Err(m)
            },
        },
    }
}

} // verus!

verus! {

/// How many bytes of the sequence are line feeds.
pub open spec fn newline_count(bytes: Seq<u8>) -> nat
    decreases bytes.len(),
{
    if bytes.len() == 0 {
        0
    } else {
        newline_count(bytes.drop_last()) + if bytes.last() == 10u8 {
            1nat
        } else {
            0nat
        }
    }
}

/// How many characters UTF-8 bytes encode: the bytes that do not continue
/// a character.
pub open spec fn utf8_char_count(bytes: Seq<u8>) -> nat
    decreases bytes.len(),
{
    if bytes.len() == 0 {
        0
    } else {
        utf8_char_count(bytes.drop_last()) + if bytes.last() & 0xc0u8 != 0x80u8 {
            1nat
        } else {
            0nat
        }
    }
}

/// The bytes after the last line feed.
pub open spec fn after_last_newline(bytes: Seq<u8>) -> Seq<u8>
    decreases bytes.len(),
{
    if bytes.len() == 0 {
        bytes
    } else if bytes.last() == 10u8 {
        seq![]
    } else {
        after_last_newline(bytes.drop_last()).push(bytes.last())
    }
}

/// The one-based line and column of a byte offset in UTF-8 text (an offset
/// past the end counts as the end): the line feeds before it plus one, and
/// the characters between the last of them and the offset plus one.
pub fn line_and_column(contents: &[u8], byte_offset: usize) -> (r: (usize, usize))
    requires
        contents@.len() < usize::MAX,
    ensures
        ({
            let end = if byte_offset < contents@.len() {
                byte_offset as int
            } else {
                contents@.len() as int
            };
            let prefix = contents@.take(end);
            r.0 == newline_count(prefix) + 1 && r.1 == utf8_char_count(after_last_newline(prefix)) + 1
        }),
{
    let end = if byte_offset < contents.len() {
        byte_offset
    } else {
        contents.len()
    };
    let mut lines: usize = 1;
    let mut column: usize = 1;
    let mut i: usize = 0;
    while i < end
        invariant
            end <= contents@.len(),
            contents@.len() < usize::MAX,
            i <= end,
            lines == newline_count(contents@.take(i as int)) + 1,
            column == utf8_char_count(after_last_newline(contents@.take(i as int))) + 1,
            lines <= i + 1,
            column <= i + 1,
        decreases end - i,
    {
        let b = contents[i];
        let ghost before = contents@.take(i as int);
        assert(contents@.take(i + 1).drop_last() =~= before);
        assert(contents@.take(i + 1).last() == b);
        if b == 10u8 {
            lines = lines + 1;
            column = 1;
            assert(after_last_newline(contents@.take(i + 1)) =~= Seq::<u8>::empty());
        } else {
            assert(after_last_newline(contents@.take(i + 1)) == after_last_newline(before).push(b));
            assert(after_last_newline(before).push(b).drop_last() =~= after_last_newline(before));
            if b & 0xc0u8 != 0x80u8 {
                column = column + 1;
            }
        }
        i = i + 1;
    }
    (lines, column)
}

/// The message for a configuration file that does not parse, at the
/// location the parser reported if it did.
pub fn parse_error_message(path: &str, location: Option<(usize, usize)>) -> (r: String)
    ensures
        r@ == match location {
            Some((line, column)) => "failed to parse configuration "@ + path@ + " at line "@ + decimal(
                line as nat,
            ) + ", column "@ + decimal(column as nat),
            None => "failed to parse configuration "@ + path@,
        },
{
    let mut m = text_of("failed to parse configuration ");
    m.append(path);
    if let Some((line, column)) = location {
        m.append(" at line ");
        push_decimal(&mut m, line as u64);
        m.append(", column ");
        push_decimal(&mut m, column as u64);
    }
    m
}

// ---------------------------------------------------------------------
// File checks

/// The largest configuration file read, one MiB.
pub const MAX_CONFIG_BYTES: u64 = 1048576;

/// What the application learned of the configuration file before reading
/// it: whether it is a regular file, its owner, its permission bits and its
/// length.
pub struct ConfigFileFacts {
    pub is_file: bool,
    pub owner: u32,
    pub mode: u32,
    pub len: u64,
}

/// Whether the group or others hold any permission bit.
pub open spec fn shared_mode(mode: u32) -> bool {
    mode % 64 != 0
}

/// Whether permission bits are open to the group or others (`mode & 0o077`).
fn is_shared(mode: u32) -> (r: bool)
    ensures
        r == shared_mode(mode),
{
    assert(mode & 63 == mode % 64) by (bit_vector);
    mode & 63 != 0
}

/// The verdict on a configuration file about to be read by the user `user`:
/// it must be a regular file, owned by the user, private to the user and at
/// most `MAX_CONFIG_BYTES` long; the first rule broken is reported.
pub fn config_file_verdict(path: &str, facts: &ConfigFileFacts, user: u32) -> (r: Result<(), String>)
    ensures
        r is Ok == (facts.is_file && facts.owner == user && !shared_mode(facts.mode) && facts.len
            <= MAX_CONFIG_BYTES),
        !facts.is_file ==> r is Err && r->Err_0@ == "configuration is not a regular file: "@ + path@,
        facts.is_file && facts.owner != user ==> r is Err && r->Err_0@
            == "configuration is not owned by the current user: "@ + path@,
        facts.is_file && facts.owner == user && shared_mode(facts.mode) ==> r is Err && r->Err_0@
            == "configuration permissions are too broad: "@ + path@ + "; run `chmod 600 "@ + path@ + "`"@,
        facts.is_file && facts.owner == user && !shared_mode(facts.mode) && facts.len > MAX_CONFIG_BYTES ==> r is Err
            && r->Err_0@ == "configuration is too large: "@ + path@ + " exceeds "@ + decimal(
            MAX_CONFIG_BYTES as nat,
        ) + " bytes"@,
{
    if !facts.is_file {
        return Err(joined("configuration is not a regular file: ", path));
    }
    if facts.owner != user {
        return Err(joined("configuration is not owned by the current user: ", path));
    }
    if is_shared(facts.mode) {
        let mut m = joined("configuration permissions are too broad: ", path);
        m.append("; run `chmod 600 ");
        m.append(path);
        m.append("`");
        return Err(m);
    }
    if facts.len > MAX_CONFIG_BYTES {
        let mut m = joined("configuration is too large: ", path);
        m.append(" exceeds ");
        push_decimal(&mut m, MAX_CONFIG_BYTES);
        m.append(" bytes");
        return Err(m);
    }
    Ok(())
}

/// The verdict on the directory that holds the configuration: a real
/// directory (no symbolic link), owned by the user and private to the user.
pub fn config_directory_verdict(path: &str, is_symlink: bool, is_dir: bool, owner: u32, mode: u32, user: u32) -> (r:
    Result<(), String>)
    ensures
        r is Ok == (!is_symlink && is_dir && owner == user && !shared_mode(mode)),
        is_symlink || !is_dir ==> r is Err && r->Err_0@ == "configuration directory must be a real directory: "@
            + path@,
        !is_symlink && is_dir && owner != user ==> r is Err && r->Err_0@
            == "configuration directory is not owned by the current user: "@ + path@,
        !is_symlink && is_dir && owner == user && shared_mode(mode) ==> r is Err && r->Err_0@
            == "configuration directory permissions are too broad: "@ + path@ + "; run `chmod 700 "@ + path@ + "`"@,
{
    if is_symlink || !is_dir {
        return Err(joined("configuration directory must be a real directory: ", path));
    }
    if owner != user {
        return Err(joined("configuration directory is not owned by the current user: ", path));
    }
    if is_shared(mode) {
        let mut m = joined("configuration directory permissions are too broad: ", path);
        m.append("; run `chmod 700 ");
        m.append(path);
        m.append("`");
        return Err(m);
    }
    Ok(())
}

} // verus!

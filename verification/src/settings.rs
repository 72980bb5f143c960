//! The settings of the service: where it listens, where its store is, and how
//! much it logs. They come as the two tables `api` and `redis` of a
//! configuration file, each a list of keys with their values as text.

use vstd::prelude::*;

verus! {

/// The settings of the service.
#[derive(Debug, PartialEq, Eq)]
pub struct Settings {
    pub api: Api,
    pub redis: Redis,
}

/// Where the service listens, and how much it logs.
#[derive(Debug, PartialEq, Eq)]
pub struct Api {
    pub host: String,
    pub port: u16,
    pub loglevel: String,
}

/// Where the store is.
#[derive(Debug, PartialEq, Eq)]
pub struct Redis {
    pub host: String,
    pub port: u16,
    pub loglevel: String,
}

/// What one table of the settings holds.
pub struct SectionView {
    pub host: Seq<char>,
    pub port: u16,
    pub loglevel: Seq<char>,
}

/// What `Settings` hold.
pub struct SettingsView {
    pub api: SectionView,
    pub redis: SectionView,
}

impl View for Api {
    type V = SectionView;

    open spec fn view(&self) -> SectionView {
        SectionView { host: self.host@, port: self.port, loglevel: self.loglevel@ }
    }
}

impl View for Redis {
    type V = SectionView;

    open spec fn view(&self) -> SectionView {
        SectionView { host: self.host@, port: self.port, loglevel: self.loglevel@ }
    }
}

impl View for Settings {
    type V = SettingsView;

    open spec fn view(&self) -> SettingsView {
        SettingsView { api: self.api@, redis: self.redis@ }
    }
}

/// Why a configuration gives no settings.
#[derive(Clone, Copy, Debug, PartialEq, Eq, Structural)]
pub enum ConfigError {
    /// A table lacks one of the keys `host`, `port` and `loglevel`.
    MissingKey,
    /// The value of a `port` is not a port number.
    InvalidPort,
}

/// How much the service logs.
#[derive(Clone, Copy, Debug, PartialEq, Eq, Structural)]
pub enum LogLevel {
    Error,
    Warn,
    Info,
    Debug,
    Trace,
}

/// The entries of a table, key and value.
pub open spec fn entries_view(entries: Seq<(String, String)>) -> Seq<(Seq<char>, Seq<char>)> {
    Seq::new(entries.len(), |i: int| (entries[i].0@, entries[i].1@))
}

/// The value of the first entry of a table that has the given key.
pub open spec fn value_of(entries: Seq<(Seq<char>, Seq<char>)>, key: Seq<char>) -> Option<
    Seq<char>,
>
    decreases entries.len(),
{
    if entries.len() == 0 {
        None
    } else if entries[0].0 == key {
        Some(entries[0].1)
    } else {
        value_of(entries.drop_first(), key)
    }
}

/// Whether a character is a decimal digit.
pub open spec fn is_digit(c: char) -> bool {
    '0' <= c <= '9'
}

/// The number that a sequence of decimal digits stands for.
pub open spec fn number(digits: Seq<char>) -> nat
    decreases digits.len(),
{
    if digits.len() == 0 {
        0
    } else {
        number(digits.drop_last()) * 10 + (digits.last() as nat - '0' as nat) as nat
    }
}

/// The digits of a port's text: the text itself, without the `+` that may
/// stand in front.
pub open spec fn digits_of(text: Seq<char>) -> Seq<char> {
    if text.len() > 0 && text[0] == '+' {
        text.drop_first()
    } else {
        text
    }
}

/// The port that a text stands for: one or more decimal digits, with nothing
/// around them but a `+` that may stand in front, that make a number of at
/// most 65535.
pub open spec fn port_of(text: Seq<char>) -> Option<u16> {
    let digits = digits_of(text);
    if digits.len() > 0 && (forall|i: int| 0 <= i < digits.len() ==> is_digit(#[trigger] digits[i]))
        && number(digits) <= u16::MAX {
        Some(number(digits) as u16)
    } else {
        None
    }
}

/// The level that a name stands for. A name that is none of the five stands
/// for `Info`.
pub open spec fn level_of(name: Seq<char>) -> LogLevel {
    if name == "error"@ {
        LogLevel::Error
    } else if name == "warn"@ {
        LogLevel::Warn
    } else if name == "debug"@ {
        LogLevel::Debug
    } else if name == "trace"@ {
        LogLevel::Trace
    } else {
        LogLevel::Info
    }
}

/// One table of the settings: its host, its port and its log level, looked
/// for in this order.
pub open spec fn section_of(entries: Seq<(Seq<char>, Seq<char>)>) -> Result<
    SectionView,
    ConfigError,
> {
    if value_of(entries, "host"@) is None {
        Err(ConfigError::MissingKey)
    } else if value_of(entries, "port"@) is None {
        Err(ConfigError::MissingKey)
    } else if port_of(value_of(entries, "port"@)->0) is None {
        Err(ConfigError::InvalidPort)
    } else if value_of(entries, "loglevel"@) is None {
        Err(ConfigError::MissingKey)
    } else {
        Ok(
            SectionView {
                host: value_of(entries, "host"@)->0,
                port: port_of(value_of(entries, "port"@)->0)->0,
                loglevel: value_of(entries, "loglevel"@)->0,
            },
        )
    }
}

/// The settings that the two tables give: the table `api` is read first.
pub open spec fn settings_of(
    api: Seq<(Seq<char>, Seq<char>)>,
    redis: Seq<(Seq<char>, Seq<char>)>,
) -> Result<SettingsView, ConfigError> {
    match section_of(api) {
        Err(e) => Err(e),
        Ok(api) => match section_of(redis) {
            Err(e) => Err(e),
            Ok(redis) => Ok(SettingsView { api, redis }),
        },
    }
}

/// A number does not get smaller when more digits follow.
proof fn lemma_number_grows(digits: Seq<char>, n: int)
    requires
        0 <= n <= digits.len(),
    ensures
        number(digits.take(n)) <= number(digits),
    decreases digits.len(),
{
    if n == digits.len() {
        assert(digits.take(n) == digits);
    } else {
        lemma_number_grows(digits.drop_last(), n);
        assert(digits.drop_last().take(n) == digits.take(n));
    }
}

/// Reads a port number from its text.
pub fn parse_port(text: &str) -> (port: Option<u16>)
    ensures
        port == port_of(text@),
{
    let ghost digits = digits_of(text@);
    let ghost sign: int = text@.len() - digits.len();
    let mut value: u32 = 0;
    let mut started: bool = false;
    let mut any: bool = false;
    for c in it: text.chars()
        invariant
            it.seq() == text@,
            digits == digits_of(text@),
            sign == text@.len() - digits.len(),
            started == (it.index() > 0),
            any == (it.index() > sign),
            it.index() >= sign || it.index() == 0,
            value <= u16::MAX,
            it.index() >= sign ==> value == number(digits.take(it.index() - sign)),
            it.index() < sign ==> value == 0,
            forall|i: int| 0 <= i < it.index() - sign ==> is_digit(#[trigger] digits[i]),
    {
        let ghost at: int = it.index() - sign;
        if !started && c == '+' {
            started = true;
        } else {
            started = true;
            if c < '0' || c > '9' {
                assert(!is_digit(digits[at]));
                return None;
            }
            let d: u32 = c as u32 - '0' as u32;
            assert(digits.take(at + 1).drop_last() == digits.take(at));
            value = value * 10 + d;
            any = true;
            if value > 65535 {
                proof {
                    lemma_number_grows(digits, at + 1);
                }
                return None;
            }
        }
    }
    assert(digits.take(digits.len() as int) == digits);
    if any {
        Some(value as u16)
    } else {
        None
    }
}

/// The value of the first entry of a table that has the given key.
fn lookup(entries: &Vec<(String, String)>, key: &str) -> (value: Option<String>)
    ensures
        match value {
            Some(value) => value_of(entries_view(entries@), key@) == Some(value@),
            None => value_of(entries_view(entries@), key@) is None,
        },
{
    let wanted = key.to_owned();
    let ghost all = entries_view(entries@);
    let mut i: usize = 0;
    assert(all.skip(0) == all);
    while i < entries.len()
        invariant
            i <= entries.len(),
            wanted@ == key@,
            all == entries_view(entries@),
            value_of(all, key@) == value_of(all.skip(i as int), key@),
        decreases entries.len() - i,
    {
        assert(all.skip(i as int).drop_first() == all.skip(i + 1));
        if entries[i].0 == wanted {
            return Some(entries[i].1.clone());
        }
        i += 1;
    }
    None
}

/// Reads one table of the settings.
fn load_section(entries: &Vec<(String, String)>) -> (section: Result<
    (String, u16, String),
    ConfigError,
>)
    ensures
        match section {
            Ok((host, port, loglevel)) => section_of(entries_view(entries@)) == Ok::<
                SectionView,
                ConfigError,
            >(SectionView { host: host@, port, loglevel: loglevel@ }),
            Err(e) => section_of(entries_view(entries@)) == Err::<SectionView, ConfigError>(e),
        },
{
    let host = match lookup(entries, "host") {
        Some(host) => host,
        None => {
            return Err(ConfigError::MissingKey);
        },
    };
    let port = match lookup(entries, "port") {
        Some(text) => match parse_port(text.as_str()) {
            Some(port) => port,
            None => {
                return Err(ConfigError::InvalidPort);
            },
        },
        None => {
            return Err(ConfigError::MissingKey);
        },
    };
    let loglevel = match lookup(entries, "loglevel") {
        Some(loglevel) => loglevel,
        None => {
            return Err(ConfigError::MissingKey);
        },
    };
    Ok((host, port, loglevel))
}

/// Makes the settings of the tables `api` and `redis` of a configuration,
/// each given as its entries, key and value.
pub fn load_config(api: &Vec<(String, String)>, redis: &Vec<(String, String)>) -> (settings:
    Result<Settings, ConfigError>)
    ensures
        match settings {
            Ok(settings) => settings_of(entries_view(api@), entries_view(redis@)) == Ok::<
                SettingsView,
                ConfigError,
            >(settings@),
            Err(e) => settings_of(entries_view(api@), entries_view(redis@)) == Err::<
                SettingsView,
                ConfigError,
            >(e),
        },
{
    let api = match load_section(api) {
        Ok((host, port, loglevel)) => Api { host, port, loglevel },
        Err(e) => {
            return Err(e);
        },
    };
    let redis = match load_section(redis) {
        Ok((host, port, loglevel)) => Redis { host, port, loglevel },
        Err(e) => {
            return Err(e);
        },
    };
    Ok(Settings { api, redis })
}

/// Whether a text is the given word.
fn is_word(text: &String, word: &str) -> (same: bool)
    ensures
        same == (text@ == word@),
{
    *text == word.to_owned()
}

/// The level that the name of a log level stands for.
pub fn log_level(name: &String) -> (level: LogLevel)
    ensures
        level == level_of(name@),
{
    if is_word(name, "error") {
        LogLevel::Error
    } else if is_word(name, "warn") {
        LogLevel::Warn
    } else if is_word(name, "debug") {
        LogLevel::Debug
    } else if is_word(name, "trace") {
        LogLevel::Trace
    } else {
        LogLevel::Info
    }
}

} // verus!

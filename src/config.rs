//! Client configuration: its decoding, where it is looked for, and the debug
//! override.
use vstd::prelude::*;
use crate::json::{Json, json_of, parse_json, member, str_value, i32_value, bool_value, find_member, get_str, get_i32, get_bool};

verus! {

/// Settings of the client: the service's host and port, a CA certificate path
/// (carried, not used by the request), and whether to echo raw responses.
pub struct Config {
    pub api_endpoint: String,
    pub port: i32,
    pub cacert_file: String,
    pub debug: bool,
}

/// The mathematical value of a `Config`.
pub ghost struct ConfigView {
    pub api_endpoint: Seq<char>,
    pub port: int,
    pub cacert_file: Seq<char>,
    pub debug: bool,
}

impl View for Config {
    type V = ConfigView;

    open spec fn view(&self) -> ConfigView {
        ConfigView {
            api_endpoint: self.api_endpoint@,
            port: self.port as int,
            cacert_file: self.cacert_file@,
            debug: self.debug,
        }
    }
}

/// Why a configuration could not be had.
pub enum ConfigError {
    /// No candidate file exists.
    NotFound,
    /// The home directory is needed to name a candidate and is not known.
    HomeUnset,
    /// The chosen file exists but could not be read; the reader's message.
    Io(String),
    /// The chosen file is not a valid configuration; the decoder's message.
    Decode(String),
}

/// The configuration a JSON value stands for: an object with a string
/// `api_endpoint`, an integer `port` in the range of `i32`, a string
/// `cacert_file` and a boolean `debug`. Other members are ignored.
pub open spec fn config_of_json(j: Json) -> Option<ConfigView> {
    match j {
        Json::Obj(ms) => {
            let a = str_value(member(ms@, "api_endpoint"@));
            let p = i32_value(member(ms@, "port"@));
            let c = str_value(member(ms@, "cacert_file"@));
            let d = bool_value(member(ms@, "debug"@));
            if a is Some && p is Some && c is Some && d is Some {
                Some(ConfigView { api_endpoint: a->0, port: p->0, cacert_file: c->0, debug: d->0 })
            } else {
                None
            }
        },
        _ => None,
    }
}

/// The configuration a file's text stands for, if any.
pub open spec fn config_of_text(text: Seq<char>) -> Option<ConfigView> {
    match json_of(text) {
        Some(j) => config_of_json(j),
        None => None,
    }
}

/// The path of the configuration file in the working directory.
pub open spec fn local_config_path() -> Seq<char> {
    "config.json"@
}

/// The path of the configuration file under a home directory.
pub open spec fn home_config_path(home: Seq<char>) -> Seq<char> {
    home + "/.hiveforge/config.json"@
}

impl Config {
    /// A configuration of the given settings.
    pub fn new(api_endpoint: String, port: i32, cacert_file: String, debug: bool) -> (r: Config)
        ensures
            r@ == (ConfigView { api_endpoint: api_endpoint@, port: port as int, cacert_file: cacert_file@, debug }),
    {
        Config { api_endpoint, port, cacert_file, debug }
    }

    /// Replaces the debug setting by the command-line flag's value.
    pub fn set_debug(&mut self, flag: bool)
        ensures
            final(self)@ == (ConfigView { debug: flag, ..old(self)@ }),
    {
        self.debug = flag;
    }

    /// Decodes a configuration from a parsed JSON value.
    pub fn from_json(j: &Json) -> (r: Result<Config, ConfigError>)
        ensures
            match r {
                Ok(c) => config_of_json(*j) == Some(c@),
                Err(e) => config_of_json(*j).is_none() && e is Decode,
            },
    {
        match j {
            Json::Obj(ms) => {
                let a = get_str(find_member(ms, "api_endpoint"));
                let p = get_i32(find_member(ms, "port"));
                let c = get_str(find_member(ms, "cacert_file"));
                let d = get_bool(find_member(ms, "debug"));
                match (a, p, c, d) {
                    (Some(a), Some(p), Some(c), Some(d)) => Ok(Config::new(a, p, c, d)),
                    _ => Err(ConfigError::Decode(String::from_str("configuration is not an object of api_endpoint, port, cacert_file and debug"))),
                }
            },
            _ => Err(ConfigError::Decode(String::from_str("configuration is not a JSON object"))),
        }
    }

    /// Decodes a configuration from the text of a configuration file.
    pub fn from_text(text: &str) -> (r: Result<Config, ConfigError>)
        ensures
            match r {
                Ok(c) => config_of_text(text@) == Some(c@),
                Err(e) => config_of_text(text@).is_none() && e is Decode,
            },
    {
        match parse_json(text) {
            Ok(j) => Config::from_json(&j),
            Err(msg) => Err(ConfigError::Decode(msg)),
        }
    }

    /// Decodes a configuration from the outcome of reading the chosen file:
    /// its text, or the reader's error message.
    pub fn from_read(read: Result<String, String>) -> (r: Result<Config, ConfigError>)
        ensures
            match read {
                Err(msg) => r == Err::<Config, ConfigError>(ConfigError::Io(msg)),
                Ok(text) => match r {
                    Ok(c) => config_of_text(text@) == Some(c@),
                    Err(e) => config_of_text(text@).is_none() && e is Decode,
                },
            },
    {
        match read {
            Ok(text) => Config::from_text(text.as_str()),
            Err(msg) => Err(ConfigError::Io(msg)),
        }
    }
}

/// The path of the configuration file under a home directory.
pub fn home_config_file(home: &str) -> (r: String)
    ensures
        r@ == home_config_path(home@),
{
    let mut s = String::from_str(home);
    s.append("/.hiveforge/config.json");
    s
}

/// Chooses the configuration file, first match wins: the local file if it
/// exists; otherwise the file under the home directory, which needs the home
/// directory to be known (`home` holds that file's path and whether it exists).
pub fn choose_config_path(local_exists: bool, home: Option<(String, bool)>) -> (r: Result<String, ConfigError>)
    ensures
        local_exists ==> (r matches Ok(p) && p@ == local_config_path()),
        !local_exists ==> match home {
            None => r matches Err(ConfigError::HomeUnset),
            Some((path, true)) => (r matches Ok(p) && p@ == path@),
            Some((_, false)) => r matches Err(ConfigError::NotFound),
        },
{
    if local_exists {
        Ok(String::from_str("config.json"))
    } else {
        match home {
            None => Err(ConfigError::HomeUnset),
            Some((path, exists)) => if exists {
                Ok(path)
            } else {
                Err(ConfigError::NotFound)
            },
        }
    }
}

} // verus!

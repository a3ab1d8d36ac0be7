//! The user configuration in `~/.d1v/config.toml`: base URL override,
//! token, language and HTTP recording. Reading and writing the file is the
//! caller's part.
pub mod cmd;

use crate::base_url::DEFAULT_BASE_URL;
use crate::skill::{join_path, path_join};
use crate::strs::{push_str, string_of, trim_str, trim_ws};
use vstd::prelude::*;

verus! {

/// Why the configuration cannot be used.
#[derive(Debug, Clone, PartialEq, Eq)]
pub enum ConfigError {
    NoHomeDir,
    Read(String),
    Write(String),
    Parse(String),
    Serialize(String),
    InvalidValue { key: String, value: String },
    Open(String),
}

impl ConfigError {
    /// The error's message.
    pub fn message(&self) -> (r: String)
        ensures
            self matches ConfigError::InvalidValue { key, value } ==> r@ == "invalid value for "@
                + key@ + ": "@ + value@,
            self is NoHomeDir ==> r@ == "could not determine home directory"@,
    {
        let mut v: Vec<char> = Vec::new();
        match self {
            ConfigError::NoHomeDir => push_str(&mut v, "could not determine home directory"),
            ConfigError::Read(_) => push_str(&mut v, "failed to read config file"),
            ConfigError::Write(_) => push_str(&mut v, "failed to write config file"),
            ConfigError::Parse(_) => push_str(&mut v, "failed to parse config file"),
            ConfigError::Serialize(_) => push_str(&mut v, "failed to serialize config"),
            ConfigError::InvalidValue { key, value } => {
                push_str(&mut v, "invalid value for ");
                push_str(&mut v, key.as_str());
                push_str(&mut v, ": ");
                push_str(&mut v, value.as_str());
            },
            ConfigError::Open(e) => {
                push_str(&mut v, "failed to open config file: ");
                push_str(&mut v, e.as_str());
            },
        }
        string_of(v.as_slice())
    }
}

/// Configuration for HTTP recording.
#[derive(Debug, Clone, PartialEq, Eq)]
pub struct RecordConfig {
    /// Equivalent to passing `--record`.
    pub enabled: bool,
    /// Recording directory. Files are named `{date}.json`.
    pub dir: Option<String>,
}

impl Default for RecordConfig {
    fn default() -> (r: Self)
        ensures
            !r.enabled,
            r.dir is None,
    {
        RecordConfig { enabled: false, dir: None }
    }
}

impl RecordConfig {
    pub fn is_default(&self) -> (r: bool)
        ensures
            r == (!self.enabled && self.dir is None),
    {
        !self.enabled && self.dir.is_none()
    }

    /// The recording file for `today` when recording is on: `{date}.json`
    /// in the configured directory, else in `recordings` under the config
    /// directory (none when that directory is unknown).
    pub fn resolve_path(&self, config_dir: Option<&str>, today: &str) -> (r: Option<String>)
        ensures
            !self.enabled ==> r is None,
            self.enabled ==> match self.dir {
                Some(d) => r matches Some(p) && p@ == path_join(d@, today@ + ".json"@),
                None => match config_dir {
                    Some(c) => r matches Some(p) && p@ == path_join(
                        path_join(c@, "recordings"@),
                        today@ + ".json"@,
                    ),
                    None => r is None,
                },
            },
    {
        if !self.enabled {
            return None;
        }
        let dir = match &self.dir {
            Some(d) => d.clone(),
            None => match config_dir {
                Some(c) => join_path(c, "recordings"),
                None => {
                    return None;
                },
            },
        };
        let mut file: Vec<char> = Vec::new();
        push_str(&mut file, today);
        push_str(&mut file, ".json");
        let f = string_of(file.as_slice());
        Some(join_path(dir.as_str(), f.as_str()))
    }
}

/// The configuration.
#[derive(Debug, Clone)]
pub struct Config {
    pub base_url: Option<String>,
    pub token: Option<String>,
    pub language: Option<String>,
    pub record: RecordConfig,
}

/// A base URL as kept: trimmed, absent when empty.
pub open spec fn kept_base_url(v: Seq<char>) -> Option<Seq<char>> {
    if trim_ws(v).len() == 0 {
        None
    } else {
        Some(trim_ws(v))
    }
}

impl Config {
    pub open spec fn base_url_view(&self) -> Option<Seq<char>> {
        match self.base_url {
            Some(s) => Some(s@),
            None => None,
        }
    }

    /// The default configuration: nothing set.
    pub fn new() -> (r: Self)
        ensures
            r.base_url is None,
            r.token is None,
            r.language is None,
            !r.record.enabled,
            r.record.dir is None,
    {
        Config { base_url: None, token: None, language: None, record: RecordConfig::default() }
    }

    /// The effective base URL: the override, else the built-in default.
    pub fn base_url(&self) -> (r: &str)
        ensures
            r@ == (match self.base_url {
                Some(s) => s@,
                None => DEFAULT_BASE_URL@,
            }),
    {
        match &self.base_url {
            Some(s) => s.as_str(),
            None => DEFAULT_BASE_URL,
        }
    }

    /// The user-configured base URL.
    pub fn base_url_override(&self) -> (r: Option<&str>)
        ensures
            match r {
                Some(s) => self.base_url_view() == Some(s@),
                None => self.base_url is None,
            },
    {
        match &self.base_url {
            Some(s) => Some(s.as_str()),
            None => None,
        }
    }

    /// Sets the base URL; empty or whitespace-only input clears the
    /// override.
    pub fn set_base_url(&mut self, base_url: &str)
        ensures
            final(self).base_url_view() == kept_base_url(base_url@),
            final(self).token == old(self).token,
            final(self).language == old(self).language,
            final(self).record == old(self).record,
    {
        let t = trim_str(base_url);
        self.base_url = if t.len() == 0 {
            None
        } else {
            Some(string_of(t.as_slice()))
        };
    }

    /// A base URL as read from the file: trimmed, empty means unset.
    pub fn normalize_loaded_base_url(value: Option<String>) -> (r: Option<String>)
        ensures
            match value {
                Some(v) => match r {
                    Some(s) => kept_base_url(v@) == Some(s@),
                    None => kept_base_url(v@) is None,
                },
                None => r is None,
            },
    {
        match value {
            Some(v) => {
                let t = trim_str(v.as_str());
                if t.len() == 0 {
                    None
                } else {
                    Some(string_of(t.as_slice()))
                }
            },
            None => None,
        }
    }

    pub fn builder() -> (r: ConfigBuilder)
        ensures
            r.inner.base_url is None,
            r.inner.token is None,
            r.inner.language is None,
    {
        ConfigBuilder { inner: Config::new() }
    }

    /// The configuration directory under a home directory.
    pub fn dir(home: Option<&str>) -> (r: Result<String, ConfigError>)
        ensures
            match home {
                Some(h) => r matches Ok(d) && d@ == path_join(h@, ".d1v"@),
                None => r == Err::<String, ConfigError>(ConfigError::NoHomeDir),
            },
    {
        match home {
            Some(h) => Ok(join_path(h, ".d1v")),
            None => Err(ConfigError::NoHomeDir),
        }
    }

    /// The configuration file under a home directory.
    pub fn path(home: Option<&str>) -> (r: Result<String, ConfigError>)
        ensures
            match home {
                Some(h) => r matches Ok(d) && d@ == path_join(path_join(h@, ".d1v"@), "config.toml"@),
                None => r == Err::<String, ConfigError>(ConfigError::NoHomeDir),
            },
    {
        match Config::dir(home) {
            Ok(d) => Ok(join_path(d.as_str(), "config.toml")),
            Err(e) => Err(e),
        }
    }
}

/// Builds a configuration step by step.
#[derive(Debug, Clone)]
pub struct ConfigBuilder {
    pub inner: Config,
}

impl ConfigBuilder {
    pub fn base_url(self, base_url: &str) -> (r: Self)
        ensures
            r.inner.base_url_view() == kept_base_url(base_url@),
            r.inner.token == self.inner.token,
            r.inner.language == self.inner.language,
    {
        let mut inner = self.inner;
        inner.set_base_url(base_url);
        ConfigBuilder { inner }
    }

    pub fn token(self, token: String) -> (r: Self)
        ensures
            r.inner.token == Some(token),
            r.inner.base_url == self.inner.base_url,
            r.inner.language == self.inner.language,
    {
        let mut inner = self.inner;
        inner.token = Some(token);
        ConfigBuilder { inner }
    }

    pub fn language(self, language: String) -> (r: Self)
        ensures
            r.inner.language == Some(language),
            r.inner.base_url == self.inner.base_url,
            r.inner.token == self.inner.token,
    {
        let mut inner = self.inner;
        inner.language = Some(language);
        ConfigBuilder { inner }
    }

    pub fn build(self) -> (r: Config)
        ensures
            r == self.inner,
    {
        self.inner
    }
}

/// Setting a base URL and reading it back gives the trimmed value, or the
/// default when the value was blank.
pub proof fn lemma_base_url_roundtrip(before: Config, after: Config, value: Seq<char>)
    requires
        after.base_url_view() == kept_base_url(value),
    ensures
        trim_ws(value).len() > 0 ==> after.base_url_view() == Some(trim_ws(value)),
        trim_ws(value).len() == 0 ==> after.base_url is None,
{
}

} // verus!

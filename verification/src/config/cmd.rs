//! `d1v config`: the keys, reading and setting them, and how values are
//! shown.
use super::{kept_base_url, Config, ConfigError, RecordConfig};
use crate::base_url::DEFAULT_BASE_URL;
use crate::strs::{chars_of, push_str, seq_eq, string_of, trim_ws};
use crate::text::fields::{Field, Fields};
use crate::text::line::Line;
use crate::text::span::Span;
use crate::text::text::{lines_chars, Text};
use crate::text::{Render, RenderContext, RenderError};
use crate::theme;
use vstd::prelude::*;
use vstd::utf8::*;

verus! {

/// A configuration key.
#[derive(Debug, Clone, Copy, PartialEq, Eq, Structural)]
pub enum ConfigKey {
    BaseUrl,
    Language,
    RecordEnabled,
    RecordDir,
}

pub open spec fn key_name(k: ConfigKey) -> Seq<char> {
    match k {
        ConfigKey::BaseUrl => "base_url"@,
        ConfigKey::Language => "language"@,
        ConfigKey::RecordEnabled => "record.enabled"@,
        ConfigKey::RecordDir => "record.dir"@,
    }
}

impl ConfigKey {
    /// The key as written on the command line.
    pub fn as_str(&self) -> (r: &'static str)
        ensures
            r@ == key_name(*self),
    {
        match self {
            ConfigKey::BaseUrl => "base_url",
            ConfigKey::Language => "language",
            ConfigKey::RecordEnabled => "record.enabled",
            ConfigKey::RecordDir => "record.dir",
        }
    }

    pub fn to_string(&self) -> (r: String)
        ensures
            r@ == key_name(*self),
    {
        self.as_str().to_owned()
    }

    /// Every key, in the order they are listed.
    pub fn value_variants() -> (r: Vec<ConfigKey>)
        ensures
            r@ == seq![
                ConfigKey::BaseUrl,
                ConfigKey::Language,
                ConfigKey::RecordEnabled,
                ConfigKey::RecordDir,
            ],
    {
        let mut v = Vec::new();
        v.push(ConfigKey::BaseUrl);
        v.push(ConfigKey::Language);
        v.push(ConfigKey::RecordEnabled);
        v.push(ConfigKey::RecordDir);
        v
    }

    /// The key a name denotes.
    pub fn from_name(name: &str) -> (r: Option<ConfigKey>)
        ensures
            match r {
                Some(k) => key_name(k) == name@,
                None => forall|k: ConfigKey| key_name(k) != name@,
            },
    {
        let n = chars_of(name);
        if seq_eq(n.as_slice(), chars_of("base_url").as_slice()) {
            Some(ConfigKey::BaseUrl)
        } else if seq_eq(n.as_slice(), chars_of("language").as_slice()) {
            Some(ConfigKey::Language)
        } else if seq_eq(n.as_slice(), chars_of("record.enabled").as_slice()) {
            Some(ConfigKey::RecordEnabled)
        } else if seq_eq(n.as_slice(), chars_of("record.dir").as_slice()) {
            Some(ConfigKey::RecordDir)
        } else {
            assert forall|k: ConfigKey| key_name(k) != name@ by {
                match k {
                    ConfigKey::BaseUrl => {},
                    ConfigKey::Language => {},
                    ConfigKey::RecordEnabled => {},
                    ConfigKey::RecordDir => {},
                }
            }
            None
        }
    }
}

/// The text of a flag.
pub open spec fn bool_text(b: bool) -> Seq<char> {
    if b {
        "true"@
    } else {
        "false"@
    }
}

pub fn bool_string(b: bool) -> (r: String)
    ensures
        r@ == bool_text(b),
{
    if b {
        "true".to_owned()
    } else {
        "false".to_owned()
    }
}

/// What `config get` shows for a key.
pub open spec fn key_value(c: Config, k: ConfigKey) -> Option<Seq<char>> {
    match k {
        ConfigKey::BaseUrl => Some(
            match c.base_url {
                Some(s) => s@,
                None => DEFAULT_BASE_URL@,
            },
        ),
        ConfigKey::Language => match c.language {
            Some(s) => Some(s@),
            None => None,
        },
        ConfigKey::RecordEnabled => Some(bool_text(c.record.enabled)),
        ConfigKey::RecordDir => match c.record.dir {
            Some(s) => Some(s@),
            None => None,
        },
    }
}

/// The value after `config set`: the base URL trimmed (blank clears it), a
/// blank language or directory cleared, a flag `true` or `false`.
pub open spec fn set_ok(before: Config, after: Config, k: ConfigKey, value: Seq<char>) -> bool {
    match k {
        ConfigKey::BaseUrl => after.base_url_view() == kept_base_url(value) && after.language
            == before.language && after.record == before.record,
        ConfigKey::Language => (if value.len() == 0 {
            after.language is None
        } else {
            after.language matches Some(l) && l@ == value
        }) && after.base_url == before.base_url && after.record == before.record,
        ConfigKey::RecordEnabled => after.record.enabled == (value == "true"@) && after.record.dir
            == before.record.dir && after.base_url == before.base_url && after.language
            == before.language,
        ConfigKey::RecordDir => (if value.len() == 0 {
            after.record.dir is None
        } else {
            after.record.dir matches Some(d) && d@ == value
        }) && after.record.enabled == before.record.enabled && after.base_url == before.base_url
            && after.language == before.language,
    }
}

impl Config {
    /// The value of a key (see [`key_value`]).
    pub fn get(&self, key: ConfigKey) -> (r: Option<String>)
        ensures
            match r {
                Some(s) => key_value(*self, key) == Some(s@),
                None => key_value(*self, key) is None,
            },
    {
        match key {
            ConfigKey::BaseUrl => Some(self.base_url().to_owned()),
            ConfigKey::Language => match &self.language {
                Some(s) => Some(s.clone()),
                None => None,
            },
            ConfigKey::RecordEnabled => Some(bool_string(self.record.enabled)),
            ConfigKey::RecordDir => match &self.record.dir {
                Some(s) => Some(s.clone()),
                None => None,
            },
        }
    }

    /// Sets a key. A flag accepts exactly `true` or `false`.
    pub fn set(&mut self, key: ConfigKey, value: &str) -> (r: Result<(), ConfigError>)
        ensures
            final(self).token == old(self).token,
            r is Ok <==> !(key == ConfigKey::RecordEnabled && value@ != "true"@ && value@
                != "false"@),
            r is Ok ==> set_ok(*old(self), *final(self), key, value@),
            r is Err ==> *final(self) == *old(self) && (r matches Err(ConfigError::InvalidValue {
                key: k,
                value: v,
            }) && k@ == key_name(key) && v@ == value@),
    {
        match key {
            ConfigKey::BaseUrl => {
                self.set_base_url(value);
                Ok(())
            },
            ConfigKey::Language => {
                self.language = if value.unicode_len() == 0 {
                    None
                } else {
                    Some(value.to_owned())
                };
                Ok(())
            },
            ConfigKey::RecordEnabled => {
                let v = chars_of(value);
                if seq_eq(v.as_slice(), chars_of("true").as_slice()) {
                    self.record = RecordConfig { enabled: true, dir: self.record.dir.clone() };
                    Ok(())
                } else if seq_eq(v.as_slice(), chars_of("false").as_slice()) {
                    self.record = RecordConfig { enabled: false, dir: self.record.dir.clone() };
                    Ok(())
                } else {
                    Err(
                        ConfigError::InvalidValue {
                            key: key.to_string(),
                            value: value.to_owned(),
                        },
                    )
                }
            },
            ConfigKey::RecordDir => {
                let d = if value.unicode_len() == 0 {
                    None
                } else {
                    Some(value.to_owned())
                };
                self.record = RecordConfig { enabled: self.record.enabled, dir: d };
                Ok(())
            },
        }
    }
}

/// A key and its value, as `config get` reports it.
#[derive(Debug, Clone)]
pub struct ConfigValue {
    pub key: String,
    pub value: Option<String>,
}

/// The value on a line of its own (an empty line when unset).
pub struct ConfigValueView {
    pub value: ConfigValue,
}

impl ConfigValueView {
    pub open spec fn chars(&self) -> Seq<char> {
        (match self.value.value {
            Some(v) => v@,
            None => Seq::empty(),
        }) + seq!['\n']
    }
}

impl Render for ConfigValueView {
    open spec fn fails(&self) -> bool {
        false
    }

    open spec fn rendered(&self, color: bool) -> Seq<u8> {
        encode_utf8(self.chars())
    }

    fn render(&self, ctx: &mut RenderContext) -> (r: Result<(), RenderError>) {
        let mut v: Vec<char> = Vec::new();
        match &self.value.value {
            Some(s) => push_str(&mut v, s.as_str()),
            None => {},
        }
        v.push('\n');
        assert(v@ =~= self.chars());
        ctx.write_chars(v.as_slice());
        Ok(())
    }
}

/// The configuration file's path, as `config path` reports it.
#[derive(Debug, Clone)]
pub struct ConfigPath {
    pub path: String,
}

pub struct ConfigPathView {
    pub path: ConfigPath,
}

impl Render for ConfigPathView {
    open spec fn fails(&self) -> bool {
        false
    }

    open spec fn rendered(&self, color: bool) -> Seq<u8> {
        encode_utf8(self.path.path@ + seq!['\n'])
    }

    fn render(&self, ctx: &mut RenderContext) -> (r: Result<(), RenderError>) {
        let mut v = chars_of(self.path.path.as_str());
        v.push('\n');
        assert(v@ =~= self.path.path@ + seq!['\n']);
        ctx.write_chars(v.as_slice());
        Ok(())
    }
}

/// The keys, one per line, as `config list` reports them.
pub struct ConfigKeysView {
    pub keys: Vec<String>,
}

pub open spec fn keys_chars(keys: Seq<String>) -> Seq<char>
    decreases keys.len(),
{
    if keys.len() == 0 {
        Seq::empty()
    } else {
        keys_chars(keys.drop_last()) + keys.last()@ + seq!['\n']
    }
}

impl Render for ConfigKeysView {
    open spec fn fails(&self) -> bool {
        false
    }

    open spec fn rendered(&self, color: bool) -> Seq<u8> {
        encode_utf8(keys_chars(self.keys@))
    }

    fn render(&self, ctx: &mut RenderContext) -> (r: Result<(), RenderError>) {
        let mut v: Vec<char> = Vec::new();
        let mut i: usize = 0;
        while i < self.keys.len()
            invariant
                i <= self.keys@.len(),
                v@ == keys_chars(self.keys@.subrange(0, i as int)),
            decreases self.keys@.len() - i,
        {
            assert(self.keys@.subrange(0, i + 1).drop_last() =~= self.keys@.subrange(0, i as int));
            assert(self.keys@.subrange(0, i + 1).last() == self.keys@[i as int]);
            push_str(&mut v, self.keys[i].as_str());
            v.push('\n');
            i = i + 1;
        }
        assert(self.keys@.subrange(0, self.keys@.len() as int) =~= self.keys@);
        assert(v@ == keys_chars(self.keys@));
        ctx.write_chars(v.as_slice());
        Ok(())
    }
}

/// The whole configuration, as `config show` reports it.
#[derive(Debug, Clone)]
pub struct ConfigInfo {
    pub base_url: String,
    pub language: Option<String>,
    pub record_enabled: bool,
    pub record_dir: Option<String>,
}

impl ConfigInfo {
    pub fn from_config(config: &Config) -> (r: Self)
        ensures
            r.base_url@ == key_value(*config, ConfigKey::BaseUrl)->0,
            r.language == config.language,
            r.record_enabled == config.record.enabled,
            r.record_dir == config.record.dir,
    {
        ConfigInfo {
            base_url: config.base_url().to_owned(),
            language: config.language.clone(),
            record_enabled: config.record.enabled,
            record_dir: config.record.dir.clone(),
        }
    }

    /// The fields `config show` lists: each key's label and value, unset
    /// values shown empty.
    pub fn fields(&self) -> (r: Fields)
        ensures
            r.indent == 0,
            r.gap == 2,
            r.fields@.len() == 4,
            r.fields@[0].label.content@ == "base_url"@ && r.fields@[0].value.content@
                == self.base_url@,
            r.fields@[1].label.content@ == "language"@ && r.fields@[1].value.content@ == (
            match self.language {
                Some(l) => l@,
                None => Seq::empty(),
            }),
            r.fields@[2].label.content@ == "record.enabled"@ && r.fields@[2].value.content@
                == bool_text(self.record_enabled),
            r.fields@[3].label.content@ == "record.dir"@ && r.fields@[3].value.content@ == (
            match self.record_dir {
                Some(d) => d@,
                None => Seq::empty(),
            }),
    {
        let mut v: Vec<Field> = Vec::new();
        v.push(
            Field::new(
                Span::styled("base_url".to_owned(), theme::label()),
                Span::styled(self.base_url.clone(), theme::value()),
            ),
        );
        let lang = match &self.language {
            Some(l) => l.clone(),
            None => String::new(),
        };
        v.push(
            Field::new(
                Span::styled("language".to_owned(), theme::label()),
                Span::styled(lang, theme::value()),
            ),
        );
        v.push(
            Field::new(
                Span::styled("record.enabled".to_owned(), theme::label()),
                Span::styled(bool_string(self.record_enabled), theme::value()),
            ),
        );
        let dir = match &self.record_dir {
            Some(d) => d.clone(),
            None => String::new(),
        };
        v.push(
            Field::new(
                Span::styled("record.dir".to_owned(), theme::label()),
                Span::styled(dir, theme::value()),
            ),
        );
        Fields::new(v)
    }
}

} // verus!

verus! {

/// The JSON of `config show`, as `serde_json` pretty-prints it: the keys
/// in declaration order, an unset language or recording directory left
/// out.
pub open spec fn config_info_json(i: ConfigInfo) -> Seq<char> {
    "{\n  \"base_url\": "@ + crate::relay::json_string_literal(i.base_url@) + match i.language {
        Some(l) => ",\n  \"language\": "@ + crate::relay::json_string_literal(l@),
        None => Seq::empty(),
    } + ",\n  \"record_enabled\": "@ + (if i.record_enabled { "true"@ } else { "false"@ }) + match i.record_dir {
        Some(d) => ",\n  \"record_dir\": "@ + crate::relay::json_string_literal(d@),
        None => Seq::empty(),
    } + "\n}"@
}

fn push_json_member(v: &mut Vec<char>, key_prefix: &str, value: &Option<String>)
    ensures
        final(v)@ == old(v)@ + match *value {
            Some(s) => key_prefix@ + crate::relay::json_string_literal(s@),
            None => Seq::empty(),
        },
{
    match value {
        Some(s) => {
            crate::strs::push_str(v, key_prefix);
            let q = crate::relay::json_string(s.as_str());
            crate::strs::push_str(v, q.as_str());
        },
        None => {
            assert(old(v)@ + Seq::<char>::empty() =~= old(v)@);
        },
    }
}

impl ConfigInfo {
    /// The configuration as pretty-printed JSON.
    pub fn to_json(&self) -> (r: String)
        ensures
            r@ == config_info_json(*self),
    {
        let mut v: Vec<char> = Vec::new();
        crate::strs::push_str(&mut v, "{\n  \"base_url\": ");
        let q = crate::relay::json_string(self.base_url.as_str());
        crate::strs::push_str(&mut v, q.as_str());
        push_json_member(&mut v, ",\n  \"language\": ", &self.language);
        crate::strs::push_str(&mut v, ",\n  \"record_enabled\": ");
        if self.record_enabled {
            crate::strs::push_str(&mut v, "true");
        } else {
            crate::strs::push_str(&mut v, "false");
        }
        push_json_member(&mut v, ",\n  \"record_dir\": ", &self.record_dir);
        crate::strs::push_str(&mut v, "\n}");
        assert(v@ =~= config_info_json(*self));
        crate::strs::string_of(v.as_slice())
    }
}

} // verus!

verus! {

/// What `config get` shows after `config set` of the same key: the base
/// URL trimmed (the default when blank), the language or directory as given
/// (nothing when empty), the flag as set.
pub open spec fn value_after_set(k: ConfigKey, value: Seq<char>) -> Option<Seq<char>> {
    match k {
        ConfigKey::BaseUrl => Some(
            if trim_ws(value).len() > 0 {
                trim_ws(value)
            } else {
                DEFAULT_BASE_URL@
            },
        ),
        ConfigKey::Language | ConfigKey::RecordDir => if value.len() == 0 {
            None
        } else {
            Some(value)
        },
        ConfigKey::RecordEnabled => Some(value),
    }
}

/// Reading a key back after setting it gives what was set, and setting one
/// key leaves the others as they were.
pub proof fn lemma_config_set_get(before: Config, after: Config, k: ConfigKey, other: ConfigKey, value: Seq<char>)
    requires
        set_ok(before, after, k, value),
        k == ConfigKey::RecordEnabled ==> (value == "true"@ || value == "false"@),
    ensures
        key_value(after, k) == value_after_set(k, value),
        other != k ==> key_value(after, other) == key_value(before, other),
{
    if k == ConfigKey::RecordEnabled {
        reveal_strlit("true");
        reveal_strlit("false");
    }
}

} // verus!

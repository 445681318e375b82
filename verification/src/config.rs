//! The command-line program's settings: the OAuth client, its redirect URI
//! and the tokens, read from `PUDDLE_*` environment variables or from a TOML
//! file, and written back to that file when the tokens are refreshed.

use crate::text::{is_blank, is_blank_str, joined, pair_texts, str_eq, to_owned_string};
use vstd::prelude::*;

verus! {

/// The settings themselves.
#[derive(Debug, Clone, PartialEq, Eq)]
pub struct ConfigValues {
    pub client_id: String,
    pub client_secret: String,
    pub redirect_uri: String,
    pub access_token: String,
    pub refresh_token: String,
}

/// Where the settings came from: the environment, or a file at `path`.
#[derive(Debug, Clone, PartialEq, Eq)]
pub enum Config {
    Env(ConfigValues),
    File { path: String, values: ConfigValues },
}

/// The kind of a settings error, as `std::io::ErrorKind` has it.
#[derive(Debug, Clone, Copy, PartialEq, Eq, Structural)]
pub enum ConfigErrorKind {
    InvalidInput,
    InvalidData,
    Other,
}

/// Settings that cannot be read or written.
#[derive(Debug, Clone)]
pub struct ConfigError {
    pub kind: ConfigErrorKind,
    pub message: String,
}

/// The `PUDDLE_*` environment variables, each as read (unset or not
/// Unicode counts as absent).
#[derive(Debug, Clone)]
pub struct EnvConfig {
    pub client_id: Option<String>,
    pub client_secret: Option<String>,
    pub redirect_uri: Option<String>,
    pub access_token: Option<String>,
    pub refresh_token: Option<String>,
}

/// The names of the environment variables, in order.
pub open spec fn env_names() -> Seq<Seq<char>> {
    seq![
        "PUDDLE_CLIENT_ID"@,
        "PUDDLE_CLIENT_SECRET"@,
        "PUDDLE_REDIRECT_URI"@,
        "PUDDLE_ACCESS_TOKEN"@,
        "PUDDLE_REFRESH_TOKEN"@,
    ]
}

/// The keys of the settings file, in order.
pub open spec fn toml_keys() -> Seq<Seq<char>> {
    seq!["client_id"@, "client_secret"@, "redirect_uri"@, "access_token"@, "refresh_token"@]
}

/// A variable that is set to more than whitespace.
pub open spec fn given(v: Option<String>) -> bool {
    v matches Some(s) && !is_blank(s@)
}

pub open spec fn env_given(e: EnvConfig) -> Seq<bool> {
    seq![
        given(e.client_id),
        given(e.client_secret),
        given(e.redirect_uri),
        given(e.access_token),
        given(e.refresh_token),
    ]
}

/// The names of the variables that are not given, in order.
pub open spec fn missing_names(flags: Seq<bool>, names: Seq<Seq<char>>) -> Seq<Seq<char>>
    decreases flags.len(),
{
    if flags.len() == 0 || names.len() == 0 {
        Seq::empty()
    } else {
        let rest = missing_names(flags.drop_last(), names.drop_last());
        if flags.last() {
            rest
        } else {
            rest.push(names.last())
        }
    }
}

pub open spec fn values_view(v: ConfigValues) -> Seq<Seq<char>> {
    seq![v.client_id@, v.client_secret@, v.redirect_uri@, v.access_token@, v.refresh_token@]
}

pub open spec fn env_texts(e: EnvConfig) -> Seq<Option<String>> {
    seq![e.client_id, e.client_secret, e.redirect_uri, e.access_token, e.refresh_token]
}

/// The message of a partly given environment.
pub open spec fn partial_env_text(e: EnvConfig) -> Seq<char> {
    "partial PUDDLE_* environment configuration detected. Missing or empty: "@ + joined(
        missing_names(env_given(e), env_names()),
        ", "@,
    )
}

fn given_text(v: &Option<String>) -> (r: bool)
    ensures
        r == given(*v),
{
    match v {
        Some(s) => !is_blank_str(s.as_str()),
        None => false,
    }
}

fn take_text(v: Option<String>) -> (r: String)
    requires
        v is Some,
    ensures
        Some(r) == v,
{
    match v {
        Some(s) => s,
        None => String::new(),
    }
}

impl EnvConfig {
    /// Whether no variable is given, so that the settings come from the file.
    pub fn gives_nothing(&self) -> (r: bool)
        ensures
            r == forall|i: int| 0 <= i < 5 ==> !#[trigger] env_given(*self)[i],
    {
        let ghost flags = env_given(*self);
        let g0 = given_text(&self.client_id);
        let g1 = given_text(&self.client_secret);
        let g2 = given_text(&self.redirect_uri);
        let g3 = given_text(&self.access_token);
        let g4 = given_text(&self.refresh_token);
        assert(flags[0] == g0 && flags[1] == g1 && flags[2] == g2 && flags[3] == g3 && flags[4]
            == g4);
        !g0 && !g1 && !g2 && !g3 && !g4
    }
}

impl ConfigValues {
    /// The settings that the environment gives: none when no variable is
    /// given, all five when all are given, and an error naming the missing
    /// ones when only some are.
    pub fn from_env(env: EnvConfig) -> (r: Result<Option<ConfigValues>, ConfigError>)
        ensures
            (forall|i: int| 0 <= i < 5 ==> !#[trigger] env_given(env)[i]) ==> r == Ok::<
                Option<ConfigValues>,
                ConfigError,
            >(None),
            (forall|i: int| 0 <= i < 5 ==> #[trigger] env_given(env)[i]) ==> (r matches Ok(Some(v))
                && forall|i: int| 0 <= i < 5 ==> Some(#[trigger] values_view(v)[i]) == match env_texts(env)[i] {
                    Some(s) => Some(s@),
                    None => None,
                }),
            (exists|i: int| 0 <= i < 5 && #[trigger] env_given(env)[i]) && (exists|j: int|
                0 <= j < 5 && !#[trigger] env_given(env)[j]) ==> (r matches Err(e) && e.kind
                == ConfigErrorKind::InvalidInput && e.message@ == partial_env_text(env)),
    {
        let g0 = given_text(&env.client_id);
        let g1 = given_text(&env.client_secret);
        let g2 = given_text(&env.redirect_uri);
        let g3 = given_text(&env.access_token);
        let g4 = given_text(&env.refresh_token);
        let ghost flags = env_given(env);
        assert(flags[0] == g0 && flags[1] == g1 && flags[2] == g2 && flags[3] == g3 && flags[4]
            == g4);
        if !g0 && !g1 && !g2 && !g3 && !g4 {
            return Ok(None);
        }
        if g0 && g1 && g2 && g3 && g4 {
            let v = ConfigValues {
                client_id: take_text(env.client_id),
                client_secret: take_text(env.client_secret),
                redirect_uri: take_text(env.redirect_uri),
                access_token: take_text(env.access_token),
                refresh_token: take_text(env.refresh_token),
            };
            return Ok(Some(v));
        }
        let mut missing: Vec<&str> = Vec::new();
        proof {
            reveal_strlit("PUDDLE_CLIENT_ID");
            reveal_strlit("PUDDLE_CLIENT_SECRET");
            reveal_strlit("PUDDLE_REDIRECT_URI");
            reveal_strlit("PUDDLE_ACCESS_TOKEN");
            reveal_strlit("PUDDLE_REFRESH_TOKEN");
        }
        let mut message = to_owned_string(
            "partial PUDDLE_* environment configuration detected. Missing or empty: ",
        );
        let mut first = true;
        let ghost names = env_names();
        let ghost mut shown: Seq<Seq<char>> = Seq::empty();
        let ghost head = message@;
        let flags_v = [g0, g1, g2, g3, g4];
        let names_v = [
            "PUDDLE_CLIENT_ID",
            "PUDDLE_CLIENT_SECRET",
            "PUDDLE_REDIRECT_URI",
            "PUDDLE_ACCESS_TOKEN",
            "PUDDLE_REFRESH_TOKEN",
        ];
        assert(flags_v@ =~= flags);
        assert(forall|i: int| 0 <= i < 5 ==> #[trigger] names_v@[i]@ == names[i]);
        let mut i: usize = 0;
        while i < 5
            invariant
                0 <= i <= 5,
                flags_v@ == flags,
                forall|k: int| 0 <= k < 5 ==> #[trigger] names_v@[k]@ == names[k],
                names == env_names(),
                flags.len() == 5,
                shown == missing_names(flags.take(i as int), names.take(i as int)),
                first == (shown.len() == 0),
                message@ == head + joined(shown, ", "@),
            decreases 5 - i,
        {
            assert(flags.take(i + 1).drop_last() =~= flags.take(i as int));
            assert(names.take(i + 1).drop_last() =~= names.take(i as int));
            if !flags_v[i] {
                let ghost before = shown;
                if !first {
                    message.append(", ");
                }
                message.append(names_v[i]);
                proof {
                    shown = before.push(names[i as int]);
                    assert(shown.drop_last() =~= before);
                    if before.len() == 0 {
                        assert(joined(shown, ", "@) == names[i as int]);
                        assert(message@ =~= head + joined(shown, ", "@));
                    } else {
                        assert(joined(shown, ", "@) == joined(before, ", "@) + ", "@ + names[i as int]);
                        assert(message@ =~= head + joined(shown, ", "@));
                    }
                }
                first = false;
            }
            i = i + 1;
        }
        assert(flags.take(5) =~= flags);
        assert(names.take(5) =~= names);
        Err(ConfigError { kind: ConfigErrorKind::InvalidInput, message })
    }
}

/// What `str::parse::<toml::Table>` makes of a text: the error's message,
/// or the table's entries in key order, each with its value's text where
/// the value is a string and `None` where it is anything else.
pub uninterp spec fn toml_table_parse(content: Seq<char>) -> Result<
    Seq<(Seq<char>, Option<Seq<char>>)>,
    Seq<char>,
>;

/// What `toml::to_string_pretty` makes of a table of string values built
/// from these (key, value) entries: the document, or the error's message.
pub uninterp spec fn toml_pretty(entries: Seq<(Seq<char>, Seq<char>)>) -> Result<
    Seq<char>,
    Seq<char>,
>;

pub open spec fn entry_texts(v: Seq<(String, Option<String>)>) -> Seq<(Seq<char>, Option<Seq<char>>)> {
    v.map_values(|e: (String, Option<String>)| (e.0@, match e.1 {
        Some(s) => Some(s@),
        None => None,
    }))
}

/// Parses a TOML document (`str::parse::<toml::Table>`) and hands out its
/// entries, a string value as its text and any other value as `None`.
#[verifier::external_body]
fn parse_toml_table(content: &str) -> (r: Result<Vec<(String, Option<String>)>, String>)
    ensures
        match toml_table_parse(content@) {
            Ok(entries) => r matches Ok(v) && entry_texts(v@) == entries,
            Err(m) => r matches Err(e) && e@ == m,
        },
{
    match content.parse::<toml::Table>() {
        Ok(table) => Ok(
            table.into_iter().map(
                |(k, v)|
                    (
                        k,
                        match v {
                            toml::Value::String(s) => Some(s),
                            _ => None,
                        },
                    ),
            ).collect(),
        ),
        Err(e) => Err(e.to_string()),
    }
}

/// Writes a table of string values as a TOML document
/// (`toml::to_string_pretty`).
#[verifier::external_body]
fn toml_pretty_strings(entries: &Vec<(String, String)>) -> (r: Result<String, String>)
    ensures
        match toml_pretty(pair_texts(entries@)) {
            Ok(t) => r matches Ok(s) && s@ == t,
            Err(m) => r matches Err(e) && e@ == m,
        },
{
    let table: toml::Table = entries.iter().map(
        |(k, v)| (k.clone(), toml::Value::String(v.clone())),
    ).collect();
    toml::to_string_pretty(&table).map_err(|e| e.to_string())
}

/// The value of the first entry with `key`: `None` when there is none.
pub open spec fn toml_lookup(entries: Seq<(Seq<char>, Option<Seq<char>>)>, key: Seq<char>) -> Option<
    Option<Seq<char>>,
>
    decreases entries.len(),
{
    if entries.len() == 0 {
        None
    } else if entries[0].0 == key {
        Some(entries[0].1)
    } else {
        toml_lookup(entries.drop_first(), key)
    }
}

/// A setting read from the file: present, a string, and more than
/// whitespace; else the message that says which of these fails.
pub open spec fn required_entry(
    entries: Seq<(Seq<char>, Option<Seq<char>>)>,
    key: Seq<char>,
    path: Seq<char>,
) -> Result<Seq<char>, Seq<char>> {
    match toml_lookup(entries, key) {
        None => Err("missing `"@ + key + "` in global config at "@ + path),
        Some(None) => Err("`"@ + key + "` in global config at "@ + path + " must be a string"@),
        Some(Some(v)) => if is_blank(v) {
            Err("`"@ + key + "` in global config at "@ + path + " cannot be empty"@)
        } else {
            Ok(v)
        },
    }
}

/// The settings read key by key, in order; the first failure stops it.
pub open spec fn read_keys(
    entries: Seq<(Seq<char>, Option<Seq<char>>)>,
    keys: Seq<Seq<char>>,
    path: Seq<char>,
) -> Result<Seq<Seq<char>>, Seq<char>>
    decreases keys.len(),
{
    if keys.len() == 0 {
        Ok(Seq::empty())
    } else {
        match required_entry(entries, keys[0], path) {
            Err(m) => Err(m),
            Ok(v) => match read_keys(entries, keys.drop_first(), path) {
                Ok(vs) => Ok(seq![v] + vs),
                Err(m) => Err(m),
            },
        }
    }
}

fn lookup_entry(entries: &Vec<(String, Option<String>)>, key: &str) -> (r: Option<Option<String>>)
    ensures
        match toml_lookup(entry_texts(entries@), key@) {
            None => r is None,
            Some(None) => r matches Some(None),
            Some(Some(v)) => r matches Some(Some(s)) && s@ == v,
        },
{
    let ghost ev = entry_texts(entries@);
    assert(ev.subrange(0, ev.len() as int) =~= ev);
    let mut i: usize = 0;
    while i < entries.len()
        invariant
            0 <= i <= entries.len(),
            ev == entry_texts(entries@),
            ev.len() == entries@.len(),
            toml_lookup(ev, key@) == toml_lookup(ev.subrange(i as int, ev.len() as int), key@),
        decreases entries.len() - i,
    {
        let ghost rest = ev.subrange(i as int, ev.len() as int);
        assert(rest[0] == ev[i as int]);
        assert(ev[i as int].0 == entries@[i as int].0@);
        if str_eq(entries[i].0.as_str(), key) {
            return match &entries[i].1 {
                Some(s) => Some(Some(s.clone())),
                None => Some(None),
            };
        }
        assert(rest.drop_first() =~= ev.subrange(i + 1, ev.len() as int));
        i = i + 1;
    }
    None
}

fn required_toml_string(entries: &Vec<(String, Option<String>)>, key: &str, path: &str) -> (r: Result<
    String,
    String,
>)
    ensures
        match required_entry(entry_texts(entries@), key@, path@) {
            Ok(v) => r matches Ok(s) && s@ == v,
            Err(m) => r matches Err(e) && e@ == m,
        },
{
    match lookup_entry(entries, key) {
        None => {
            let mut m = to_owned_string("missing `");
            m.append(key);
            m.append("` in global config at ");
            m.append(path);
            Err(m)
        },
        Some(None) => {
            let mut m = to_owned_string("`");
            m.append(key);
            m.append("` in global config at ");
            m.append(path);
            m.append(" must be a string");
            Err(m)
        },
        Some(Some(v)) => if is_blank_str(v.as_str()) {
            let mut m = to_owned_string("`");
            m.append(key);
            m.append("` in global config at ");
            m.append(path);
            m.append(" cannot be empty");
            Err(m)
        } else {
            Ok(v)
        },
    }
}

/// The message of a file that is not TOML.
pub open spec fn toml_failure_text(path: Seq<char>, m: Seq<char>) -> Seq<char> {
    "failed to parse config at "@ + path + ": "@ + m
}

/// The settings that a TOML text holds, as `values_view` lists them, or
/// the message that says why it holds none.
pub open spec fn settings_from_toml(content: Seq<char>, path: Seq<char>) -> Result<
    Seq<Seq<char>>,
    Seq<char>,
> {
    match toml_table_parse(content) {
        Err(m) => Err(toml_failure_text(path, m)),
        Ok(entries) => read_keys(entries, toml_keys(), path),
    }
}

pub open spec fn settings_entries(v: ConfigValues) -> Seq<(Seq<char>, Seq<char>)> {
    seq![
        (toml_keys()[0], v.client_id@),
        (toml_keys()[1], v.client_secret@),
        (toml_keys()[2], v.redirect_uri@),
        (toml_keys()[3], v.access_token@),
        (toml_keys()[4], v.refresh_token@),
    ]
}

fn invalid_data(message: String) -> (r: ConfigError)
    ensures
        r.kind == ConfigErrorKind::InvalidData,
        r.message == message,
{
    ConfigError { kind: ConfigErrorKind::InvalidData, message }
}

impl ConfigValues {
    /// The settings that a TOML file at `path` holds: each of the five keys
    /// must be present, a string and more than whitespace.
    pub fn from_toml_text(content: &str, path: &str) -> (r: Result<ConfigValues, ConfigError>)
        ensures
            match settings_from_toml(content@, path@) {
                Ok(vs) => r matches Ok(c) && values_view(c) == vs,
                Err(m) => r matches Err(e) && e.kind == ConfigErrorKind::InvalidData && e.message@
                    == m,
            },
    {
        proof {
            reveal_strlit("client_id");
            reveal_strlit("client_secret");
            reveal_strlit("redirect_uri");
            reveal_strlit("access_token");
            reveal_strlit("refresh_token");
            reveal_with_fuel(read_keys, 6);
        }
        let entries = match parse_toml_table(content) {
            Ok(v) => v,
            Err(m) => {
                let mut message = to_owned_string("failed to parse config at ");
                message.append(path);
                message.append(": ");
                message.append(m.as_str());
                return Err(invalid_data(message));
            },
        };
        let ghost ev = entry_texts(entries@);
        let ghost keys = toml_keys();
        assert(keys.drop_first() =~= seq![keys[1], keys[2], keys[3], keys[4]]);
        assert(keys.drop_first().drop_first() =~= seq![keys[2], keys[3], keys[4]]);
        assert(keys.drop_first().drop_first().drop_first() =~= seq![keys[3], keys[4]]);
        assert(keys.drop_first().drop_first().drop_first().drop_first() =~= seq![keys[4]]);
        assert(keys.drop_first().drop_first().drop_first().drop_first().drop_first()
            =~= Seq::<Seq<char>>::empty());
        let client_id = match required_toml_string(&entries, "client_id", path) {
            Ok(v) => v,
            Err(m) => {
                return Err(invalid_data(m));
            },
        };
        let client_secret = match required_toml_string(&entries, "client_secret", path) {
            Ok(v) => v,
            Err(m) => {
                return Err(invalid_data(m));
            },
        };
        let redirect_uri = match required_toml_string(&entries, "redirect_uri", path) {
            Ok(v) => v,
            Err(m) => {
                return Err(invalid_data(m));
            },
        };
        let access_token = match required_toml_string(&entries, "access_token", path) {
            Ok(v) => v,
            Err(m) => {
                return Err(invalid_data(m));
            },
        };
        let refresh_token = match required_toml_string(&entries, "refresh_token", path) {
            Ok(v) => v,
            Err(m) => {
                return Err(invalid_data(m));
            },
        };
        let c = ConfigValues { client_id, client_secret, redirect_uri, access_token, refresh_token };
        assert(values_view(c) =~= seq![
            values_view(c)[0],
            values_view(c)[1],
            values_view(c)[2],
            values_view(c)[3],
            values_view(c)[4],
        ]);
        Ok(c)
    }

    /// The settings as the text of a TOML file: the five keys with their
    /// values, and a final newline.
    pub fn to_toml_text(&self) -> (r: Result<String, ConfigError>)
        ensures
            match toml_pretty(settings_entries(*self)) {
                Ok(t) => r matches Ok(s) && s@ == t + "\n"@,
                Err(m) => r matches Err(e) && e.kind == ConfigErrorKind::Other && e.message@
                    == "failed to serialize global config toml: "@ + m,
            },
    {
        proof {
            reveal_strlit("client_id");
            reveal_strlit("client_secret");
            reveal_strlit("redirect_uri");
            reveal_strlit("access_token");
            reveal_strlit("refresh_token");
        }
        let mut entries: Vec<(String, String)> = Vec::new();
        entries.push((to_owned_string("client_id"), self.client_id.clone()));
        entries.push((to_owned_string("client_secret"), self.client_secret.clone()));
        entries.push((to_owned_string("redirect_uri"), self.redirect_uri.clone()));
        entries.push((to_owned_string("access_token"), self.access_token.clone()));
        entries.push((to_owned_string("refresh_token"), self.refresh_token.clone()));
        assert(pair_texts(entries@) =~= settings_entries(*self));
        match toml_pretty_strings(&entries) {
            Ok(t) => {
                let mut s = t;
                s.append("\n");
                Ok(s)
            },
            Err(m) => {
                let mut message = to_owned_string("failed to serialize global config toml: ");
                message.append(m.as_str());
                Err(ConfigError { kind: ConfigErrorKind::Other, message })
            },
        }
    }

    /// The same settings with a new access token, and a new refresh token
    /// where one is given.
    pub fn with_refreshed_tokens(&self, access_token: String, refresh_token: Option<String>) -> (r:
        ConfigValues)
        ensures
            r.client_id@ == self.client_id@,
            r.client_secret@ == self.client_secret@,
            r.redirect_uri@ == self.redirect_uri@,
            r.access_token == access_token,
            r.refresh_token@ == match refresh_token {
                Some(t) => t@,
                None => self.refresh_token@,
            },
    {
        ConfigValues {
            client_id: self.client_id.clone(),
            client_secret: self.client_secret.clone(),
            redirect_uri: self.redirect_uri.clone(),
            access_token,
            refresh_token: match refresh_token {
                Some(t) => t,
                None => self.refresh_token.clone(),
            },
        }
    }
}

impl Config {
    /// The settings, wherever they came from.
    pub fn values(&self) -> (r: &ConfigValues)
        ensures
            r == match self {
                Config::Env(v) => v,
                Config::File { values, .. } => values,
            },
    {
        match self {
            Config::Env(values) => values,
            Config::File { values, .. } => values,
        }
    }

    /// Settings read from the file at `path`.
    pub fn from_file(path: String, content: &str) -> (r: Result<Config, ConfigError>)
        ensures
            match settings_from_toml(content@, path@) {
                Ok(vs) => r matches Ok(Config::File { path: p, values }) && p == path
                    && values_view(values) == vs,
                Err(m) => r matches Err(e) && e.kind == ConfigErrorKind::InvalidData && e.message@
                    == m,
            },
    {
        match ConfigValues::from_toml_text(content, path.as_str()) {
            Ok(values) => Ok(Config::File { path, values }),
            Err(e) => Err(e),
        }
    }

    /// The settings to use: the environment's when any `PUDDLE_*` variable
    /// is given (an error when only some are), else those of the settings
    /// file, given as its path and text, which must then be at hand.
    pub fn from_sources(env: EnvConfig, file: Option<(String, String)>) -> (r: Result<Config, ConfigError>)
        requires
            (forall|i: int| 0 <= i < 5 ==> !#[trigger] env_given(env)[i]) ==> file is Some,
        ensures
            (forall|i: int| 0 <= i < 5 ==> #[trigger] env_given(env)[i]) ==> (r matches Ok(
                Config::Env(v),
            ) && forall|i: int| 0 <= i < 5 ==> Some(#[trigger] values_view(v)[i]) == match env_texts(env)[i] {
                Some(s) => Some(s@),
                None => None,
            }),
            (exists|i: int| 0 <= i < 5 && #[trigger] env_given(env)[i]) && (exists|j: int|
                0 <= j < 5 && !#[trigger] env_given(env)[j]) ==> (r matches Err(e) && e.kind
                == ConfigErrorKind::InvalidInput && e.message@ == partial_env_text(env)),
            (forall|i: int| 0 <= i < 5 ==> !#[trigger] env_given(env)[i]) ==> (file matches Some(
                (path, content),
            ) && match settings_from_toml(content@, path@) {
                Ok(vs) => r matches Ok(Config::File { path: p, values }) && p == path
                    && values_view(values) == vs,
                Err(m) => r matches Err(e) && e.kind == ConfigErrorKind::InvalidData && e.message@
                    == m,
            }),
    {
        match ConfigValues::from_env(env) {
            Err(e) => Err(e),
            Ok(Some(values)) => Ok(Config::Env(values)),
            Ok(None) => match file {
                Some((path, content)) => Config::from_file(path, content.as_str()),
                None => {
                    assert(false);
                    Err(ConfigError { kind: ConfigErrorKind::Other, message: String::new() })
                },
            },
        }
    }

    /// The same settings, from the same place, with refreshed tokens.
    pub fn with_refreshed_tokens(&self, access_token: String, refresh_token: Option<String>) -> (r:
        Config)
        ensures
            match (*self, r) {
                (Config::Env(v), Config::Env(w)) => refreshed(v, w, access_token, refresh_token),
                (Config::File { path: p, values: v }, Config::File { path: q, values: w }) => p@
                    == q@ && refreshed(v, w, access_token, refresh_token),
                _ => false,
            },
    {
        match self {
            Config::Env(values) => Config::Env(
                values.with_refreshed_tokens(access_token, refresh_token),
            ),
            Config::File { path, values } => Config::File {
                path: path.clone(),
                values: values.with_refreshed_tokens(access_token, refresh_token),
            },
        }
    }

    /// What persisting the settings writes: for settings from a file, its
    /// path and new text; for settings from the environment, nothing.
    pub fn persisted_text(&self) -> (r: Result<Option<(String, String)>, ConfigError>)
        ensures
            match self {
                Config::Env(_) => r matches Ok(None),
                Config::File { path, values } => match toml_pretty(settings_entries(*values)) {
                    Ok(t) => r matches Ok(Some((p, s))) && p@ == path@ && s@ == t + "\n"@,
                    Err(m) => r matches Err(e) && e.kind == ConfigErrorKind::Other && e.message@
                        == "failed to serialize global config toml: "@ + m,
                },
            },
    {
        match self {
            Config::Env(_) => Ok(None),
            Config::File { path, values } => match values.to_toml_text() {
                Ok(text) => Ok(Some((path.clone(), text))),
                Err(e) => Err(e),
            },
        }
    }
}

/// `w` is `v` with the access token `a` and, where given, the refresh
/// token `t`.
pub open spec fn refreshed(v: ConfigValues, w: ConfigValues, a: String, t: Option<String>) -> bool {
    &&& w.client_id@ == v.client_id@
    &&& w.client_secret@ == v.client_secret@
    &&& w.redirect_uri@ == v.redirect_uri@
    &&& w.access_token == a
    &&& w.refresh_token@ == match t {
        Some(t) => t@,
        None => v.refresh_token@,
    }
}

} // verus!

//! Configuration: what the config file says and what follows from it.

use vstd::prelude::*;
use vstd::string::*;

use crate::text::{ascii_lowercase, clone_text, blank, is_ascii_text, is_blank, same, to_lowercase, trim, trimmed, unicode_lowercase};

verus! {

/// The config file as it stands. Unknown keys are ignored.
#[derive(Debug)]
pub struct RawConfig {
    pub klipy_api_key: Option<String>,
    pub giphy_api_key: Option<String>,
    pub favorites_api: Option<String>,
    pub favorites_token: Option<String>,
    pub favorites_mode: Option<String>,
}

/// Resolved runtime configuration.
#[derive(Debug)]
pub struct Config {
    pub klipy_api_key: Option<String>,
    pub giphy_api_key: Option<String>,
    pub favorites_api: Option<String>,
    pub favorites_token: Option<String>,
    /// Explicit favorites-mode override: `"server"` or `"local"`.
    pub favorites_mode: Option<String>,
}

/// The configuration in which nothing is set.
pub open spec fn is_unset(c: Config) -> bool {
    &&& c.klipy_api_key is None
    &&& c.giphy_api_key is None
    &&& c.favorites_api is None
    &&& c.favorites_token is None
    &&& c.favorites_mode is None
}

impl Default for Config {
    fn default() -> (r: Self)
        ensures
            is_unset(r),
    {
        Config {
            klipy_api_key: None,
            giphy_api_key: None,
            favorites_api: None,
            favorites_token: None,
            favorites_mode: None,
        }
    }
}

impl Clone for Config {
    fn clone(&self) -> (r: Self)
        ensures
            r == *self,
    {
        Config {
            klipy_api_key: clone_text(&self.klipy_api_key),
            giphy_api_key: clone_text(&self.giphy_api_key),
            favorites_api: clone_text(&self.favorites_api),
            favorites_token: clone_text(&self.favorites_token),
            favorites_mode: clone_text(&self.favorites_mode),
        }
    }
}

/// A value that is set to something other than white space.
pub open spec fn filled(v: Option<String>) -> Option<String> {
    if v is Some && !is_blank(v->0@) {
        v
    } else {
        None
    }
}

/// `Some` only for non-blank values (empty file values are unset).
pub fn non_empty(v: Option<String>) -> (r: Option<String>)
    ensures
        r == filled(v),
{
    match v {
        Some(s) => if blank(s.as_str()) {
            None
        } else {
            Some(s)
        },
        None => None,
    }
}

/// A mode in the form in which it is compared: trimmed and in lower case.
pub open spec fn normal_mode(raw: Seq<char>) -> Seq<char> {
    unicode_lowercase(trimmed(raw))
}

/// What a mode means once it is in normal form.
pub open spec fn mode_meaning(mode: Seq<char>) -> Option<Seq<char>> {
    if mode == "server"@ || mode == "local"@ {
        Some(mode)
    } else {
        None
    }
}

/// The warning about a mode that is neither blank nor known.
pub open spec fn mode_warning() -> Seq<char> {
    "gifdeck: warning: unknown FAVORITES_MODE value; expected \"server\" or \"local\". Falling back to token-based mode."@
}

/// Judges a mode in normal form: the mode if it is known, and the warning if it
/// is neither known nor empty.
pub fn judge_mode(mode: String) -> (r: (Option<String>, Option<String>))
    ensures
        match r.0 {
            Some(m) => mode_meaning(mode@) == Some(m@),
            None => mode_meaning(mode@) is None,
        },
        match r.1 {
            Some(w) => mode@.len() > 0 && mode_meaning(mode@) is None && w@ == mode_warning(),
            None => mode@.len() == 0 || mode_meaning(mode@) is Some,
        },
{
    proof {
        reveal_strlit("server");
        reveal_strlit("local");
    }
    if mode.as_str().is_empty() {
        return (None, None);
    }
    if !same(mode.as_str(), "server") && !same(mode.as_str(), "local") {
        return (
            None,
            Some(
                "gifdeck: warning: unknown FAVORITES_MODE value; expected \"server\" or \"local\". Falling back to token-based mode.".to_owned(),
            ),
        );
    }
    (Some(mode), None)
}

/// Validates and normalizes the mode of the config file. The mode comes out
/// as `None` for blank and for unknown values; an unknown value also gives a
/// warning.
pub fn favorites_mode(raw: &Option<String>) -> (r: (Option<String>, Option<String>))
    ensures
        match r.0 {
            Some(m) => raw is Some && mode_meaning(normal_mode(raw->0@)) == Some(m@),
            None => raw is None || mode_meaning(normal_mode(raw->0@)) is None,
        },
        match r.1 {
            Some(w) => {
                &&& raw is Some
                &&& normal_mode(raw->0@).len() > 0
                &&& mode_meaning(normal_mode(raw->0@)) is None
                &&& w@ == mode_warning()
            },
            None => {
                ||| raw is None
                ||| normal_mode(raw->0@).len() == 0
                ||| mode_meaning(normal_mode(raw->0@)) is Some
            },
        },
        raw is Some && is_ascii_text(trimmed(raw->0@)) ==> match r.0 {
            Some(m) => mode_meaning(ascii_lowercase(trimmed(raw->0@))) == Some(m@),
            None => mode_meaning(ascii_lowercase(trimmed(raw->0@))) is None,
        },
        raw is Some && is_ascii_text(trimmed(raw->0@)) ==> (r.1 is Some <==> trimmed(
            raw->0@,
        ).len() > 0 && mode_meaning(ascii_lowercase(trimmed(raw->0@))) is None),
{
    match raw {
        None => (None, None),
        Some(s) => {
            let bare: String = trim(s.as_str());
            judge_mode(to_lowercase(bare.as_str()))
        },
    }
}

/// What became of reading the config file.
#[derive(Debug)]
pub enum ConfigFile {
    /// It was read and understood.
    Parsed(RawConfig),
    /// It was read, and is no valid JSON for the reason given.
    Invalid(String),
    /// There is none.
    Missing,
    /// It could not be read, for the reason given.
    Unreadable(String),
}

/// The warning about a config file that was skipped.
pub open spec fn skipped_warning(what: Seq<char>, path: Seq<char>, why: Seq<char>) -> Seq<char> {
    "gifdeck: warning: "@ + what + " at "@ + path + ": "@ + why
        + ". Continuing with empty config."@
}

fn skipped(what: &str, path: &str, why: &str) -> (r: String)
    ensures
        r@ == skipped_warning(what@, path@, why@),
{
    let mut out: String = "gifdeck: warning: ".to_owned();
    out.append(what);
    out.append(" at ");
    out.append(path);
    out.append(": ");
    out.append(why);
    out.append(". Continuing with empty config.");
    out
}

/// What the config file at `path` means, and what is to be said on stderr.
///
/// A missing file is not an error. Invalid JSON and an unreadable file give a
/// warning and an empty config. Blank values are unset. Values never occur in
/// a warning.
pub fn load(file: ConfigFile, path: &str) -> (r: (Config, Option<String>))
    ensures
        match file {
            ConfigFile::Parsed(raw) => {
                &&& r.0.klipy_api_key == filled(raw.klipy_api_key)
                &&& r.0.giphy_api_key == filled(raw.giphy_api_key)
                &&& r.0.favorites_api == filled(raw.favorites_api)
                &&& r.0.favorites_token == filled(raw.favorites_token)
                &&& match r.0.favorites_mode {
                    Some(m) => raw.favorites_mode is Some && mode_meaning(
                        normal_mode(raw.favorites_mode->0@),
                    ) == Some(m@),
                    None => raw.favorites_mode is None || mode_meaning(
                        normal_mode(raw.favorites_mode->0@),
                    ) is None,
                }
                &&& raw.favorites_mode is Some && is_ascii_text(trimmed(raw.favorites_mode->0@))
                    ==> match r.0.favorites_mode {
                    Some(m) => mode_meaning(ascii_lowercase(trimmed(raw.favorites_mode->0@)))
                        == Some(m@),
                    None => mode_meaning(
                        ascii_lowercase(trimmed(raw.favorites_mode->0@)),
                    ) is None,
                }
                &&& r.1 is Some <==> raw.favorites_mode is Some && normal_mode(
                    raw.favorites_mode->0@,
                ).len() > 0 && mode_meaning(normal_mode(raw.favorites_mode->0@)) is None
                &&& r.1 is Some ==> r.1->0@ == mode_warning()
                &&& raw.favorites_mode is Some && is_ascii_text(trimmed(raw.favorites_mode->0@))
                    ==> (r.1 is Some <==> trimmed(raw.favorites_mode->0@).len() > 0
                    && mode_meaning(ascii_lowercase(trimmed(raw.favorites_mode->0@))) is None)
            },
            ConfigFile::Invalid(why) => {
                &&& is_unset(r.0)
                &&& r.1 is Some
                &&& r.1->0@ == skipped_warning("invalid config JSON"@, path@, why@)
            },
            ConfigFile::Missing => is_unset(r.0) && r.1 is None,
            ConfigFile::Unreadable(why) => {
                &&& is_unset(r.0)
                &&& r.1 is Some
                &&& r.1->0@ == skipped_warning("could not read config"@, path@, why@)
            },
        },
{
    match file {
        ConfigFile::Parsed(raw) => {
            let (mode, warning) = favorites_mode(&raw.favorites_mode);
            (
                Config {
                    klipy_api_key: non_empty(raw.klipy_api_key),
                    giphy_api_key: non_empty(raw.giphy_api_key),
                    favorites_api: non_empty(raw.favorites_api),
                    favorites_token: non_empty(raw.favorites_token),
                    favorites_mode: mode,
                },
                warning,
            )
        },
        ConfigFile::Invalid(why) => (
            Config::default(),
            Some(skipped("invalid config JSON", path, why.as_str())),
        ),
        ConfigFile::Missing => (Config::default(), None),
        ConfigFile::Unreadable(why) => (
            Config::default(),
            Some(skipped("could not read config", path, why.as_str())),
        ),
    }
}

/// Whether a configuration keeps favorites on the server: as its mode says, or
/// by whether there is a token if no mode is set.
pub open spec fn on_server(c: Config) -> bool {
    if c.favorites_mode is Some && c.favorites_mode->0@ == "local"@ {
        false
    } else if c.favorites_mode is Some && c.favorites_mode->0@ == "server"@ {
        true
    } else {
        c.favorites_token is Some
    }
}

impl Config {
    /// Favorites API base URL, when configured. There is no default: server
    /// mode requires an explicit one.
    pub fn favorites_api(&self) -> (r: Option<&str>)
        ensures
            match r {
                Some(s) => self.favorites_api is Some && s@ == self.favorites_api->0@,
                None => self.favorites_api is None,
            },
    {
        match &self.favorites_api {
            Some(s) => Some(s.as_str()),
            None => None,
        }
    }

    /// Whether favorites live on the self-hosted server. An explicit mode
    /// overrides the token heuristic: `"server"` forces server mode, even
    /// without a token; `"local"` forces the local store, even when a token is
    /// configured. Otherwise mode is decided by token presence. The two stores
    /// are exclusive, never a fallback for one another.
    pub fn use_server_favorites(&self) -> (r: bool)
        ensures
            r == on_server(*self),
    {
        match &self.favorites_mode {
            Some(mode) => if same(mode.as_str(), "local") {
                false
            } else if same(mode.as_str(), "server") {
                true
            } else {
                self.favorites_token.is_some()
            },
            None => self.favorites_token.is_some(),
        }
    }
}

/// Where the config file is.
#[derive(Debug)]
pub enum ConfigPath {
    /// At this path.
    At(String),
    /// Below this directory, in `gifdeck/config.json`.
    Under(String),
    /// In `config.json` of the working directory.
    Here,
}

/// Decides where the config file is: at the path that overrides it, unless that
/// is empty, or else in the user's config directory, if there is one.
pub fn config_path(overriding: Option<String>, config_dir: Option<String>) -> (r: ConfigPath)
    ensures
        r == (if overriding is Some && overriding->0@.len() > 0 {
            ConfigPath::At(overriding->0)
        } else if config_dir is Some {
            ConfigPath::Under(config_dir->0)
        } else {
            ConfigPath::Here
        }),
{
    if let Some(p) = overriding {
        if !p.as_str().is_empty() {
            return ConfigPath::At(p);
        }
    }
    match config_dir {
        Some(dir) => ConfigPath::Under(dir),
        None => ConfigPath::Here,
    }
}

/// The names to append, one below the other, to the directory that a config
/// path starts in.
pub fn config_file_names() -> (r: (&'static str, &'static str))
    ensures
        r.0@ == "gifdeck"@,
        r.1@ == "config.json"@,
{
    ("gifdeck", "config.json")
}

/// A mode that the file sets to `server` or `local`, in any of the ways of
/// writing it, decides where favorites live, whatever the token.
pub proof fn lemma_mode_decides(c: Config)
    requires
        c.favorites_mode is Some,
        mode_meaning(c.favorites_mode->0@) is Some,
    ensures
        on_server(c) <==> c.favorites_mode->0@ == "server"@,
{
    reveal_strlit("server");
    reveal_strlit("local");
    assert("server"@.len() != "local"@.len());
}

} // verus!

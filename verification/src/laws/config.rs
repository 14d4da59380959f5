//! What a config file means.

use vstd::prelude::*;

use crate::config::{Config, ConfigFile, ConfigPath, RawConfig};
use crate::laws::providers::same_letters;
use crate::text::{ascii_lowercase, is_ascii_text, is_white_space};

verus! {

/// Whether a value is set to something other than white space.
pub open spec fn is_set(v: Option<String>) -> bool {
    v is Some && exists|i: int| 0 <= i < v->0@.len() && !is_white_space(#[trigger] v->0@[i])
}

/// Whether `r` is what a value of the file comes to: itself if it is set, and nothing
/// if not.
pub open spec fn taken(given: Option<String>, r: Option<String>) -> bool {
    &&& is_set(given) ==> r == given
    &&& !is_set(given) ==> r is None
}

proof fn lemma_taken(given: Option<String>)
    ensures
        taken(given, crate::config::filled(given)),
{
    if given is Some && !is_set(given) {
        assert forall|i: int| 0 <= i < given->0@.len() implies is_white_space(
            #[trigger] given->0@[i],
        ) by {}
    }
}

/// Each value of the file goes to the setting that it is named after, as it stands;
/// blank ones are not set.
pub proof fn lemma_values(raw: RawConfig, path: &str, r: (Config, Option<String>))
    requires
        call_ensures(crate::config::load, (ConfigFile::Parsed(raw), path), r),
    ensures
        taken(raw.klipy_api_key, r.0.klipy_api_key),
        taken(raw.giphy_api_key, r.0.giphy_api_key),
        taken(raw.favorites_api, r.0.favorites_api),
        taken(raw.favorites_token, r.0.favorites_token),
{
    lemma_taken(raw.klipy_api_key);
    lemma_taken(raw.giphy_api_key);
    lemma_taken(raw.favorites_api);
    lemma_taken(raw.favorites_token);
}

/// `non_empty` keeps what is set, and nothing else.
pub proof fn lemma_non_empty(v: Option<String>, r: Option<String>)
    requires
        call_ensures(crate::config::non_empty, (v,), r),
    ensures
        taken(v, r),
{
    lemma_taken(v);
}

proof fn lemma_lower_word(a: Seq<char>, b: Seq<char>)
    requires
        forall|i: int| 0 <= i < b.len() ==> 'a' <= #[trigger] b[i] <= 'z',
    ensures
        ascii_lowercase(a) == b <==> same_letters(a, b),
{
    let low = ascii_lowercase(a);
    if low == b {
        assert forall|i: int| 0 <= i < a.len() implies {
            ||| #[trigger] a[i] == b[i]
            ||| 'A' <= a[i] <= 'Z' && a[i] as u32 + 32 == b[i] as u32
        } by {
            assert(low[i] == b[i]);
        }
    }
    if same_letters(a, b) {
        assert forall|i: int| 0 <= i < b.len() implies low[i] == b[i] by {
            assert(a[i] == b[i] || 'A' <= a[i] <= 'Z');
        }
        assert(low == b);
    }
}

/// The mode of the file is `server` or `local`, in any case and with white space
/// around it; anything else sets no mode, and is warned of unless it is blank. (For
/// modes in ASCII.)
pub proof fn lemma_mode(
    raw: RawConfig,
    path: &str,
    r: (Config, Option<String>),
    given: &str,
    bare: String,
)
    requires
        call_ensures(crate::config::load, (ConfigFile::Parsed(raw), path), r),
        raw.favorites_mode is Some,
        given@ == raw.favorites_mode->0@,
        call_ensures(crate::text::trim, (given,), bare),
        is_ascii_text(bare@),
    ensures
        same_letters(bare@, "server"@) ==> r.0.favorites_mode is Some && r.0.favorites_mode->0@
            == "server"@ && r.1 is None,
        same_letters(bare@, "local"@) ==> r.0.favorites_mode is Some && r.0.favorites_mode->0@
            == "local"@ && r.1 is None,
        !same_letters(bare@, "server"@) && !same_letters(bare@, "local"@) ==> {
            &&& r.0.favorites_mode is None
            &&& bare@.len() == 0 ==> r.1 is None
            &&& bare@.len() > 0 ==> r.1 is Some && r.1->0@
                == "gifdeck: warning: unknown FAVORITES_MODE value; expected \"server\" or \"local\". Falling back to token-based mode."@
        },
{
    reveal_strlit("server");
    reveal_strlit("local");
    lemma_lower_word(bare@, "server"@);
    lemma_lower_word(bare@, "local"@);
}

/// Without a mode in the file there is none, and no warning.
pub proof fn lemma_no_mode(raw: RawConfig, path: &str, r: (Config, Option<String>))
    requires
        call_ensures(crate::config::load, (ConfigFile::Parsed(raw), path), r),
        raw.favorites_mode is None,
    ensures
        r.0.favorites_mode is None,
        r.1 is None,
{
}

/// `favorites_mode` judges a mode as loading does.
pub proof fn lemma_mode_alone(
    raw: Option<String>,
    r: (Option<String>, Option<String>),
    given: &str,
    bare: String,
)
    requires
        call_ensures(crate::config::favorites_mode, (&raw,), r),
        raw is Some ==> given@ == raw->0@,
        call_ensures(crate::text::trim, (given,), bare),
        is_ascii_text(bare@),
    ensures
        raw is None ==> r.0 is None && r.1 is None,
        raw is Some && same_letters(bare@, "server"@) ==> r.0 is Some && r.0->0@ == "server"@
            && r.1 is None,
        raw is Some && same_letters(bare@, "local"@) ==> r.0 is Some && r.0->0@ == "local"@
            && r.1 is None,
        raw is Some && !same_letters(bare@, "server"@) && !same_letters(bare@, "local"@)
            ==> r.0 is None && (r.1 is Some <==> bare@.len() > 0),
{
    reveal_strlit("server");
    reveal_strlit("local");
    lemma_lower_word(bare@, "server"@);
    lemma_lower_word(bare@, "local"@);
}

/// A mode in its plain form is known or not, and what is neither known nor empty is
/// warned of.
pub proof fn lemma_judged(mode: String, r: (Option<String>, Option<String>))
    requires
        call_ensures(crate::config::judge_mode, (mode,), r),
    ensures
        mode@ == "server"@ || mode@ == "local"@ ==> r.0 is Some && r.0->0@ == mode@ && r.1 is None,
        mode@ != "server"@ && mode@ != "local"@ ==> {
            &&& r.0 is None
            &&& r.1 is Some <==> mode@.len() > 0
            &&& r.1 is Some ==> r.1->0@
                == "gifdeck: warning: unknown FAVORITES_MODE value; expected \"server\" or \"local\". Falling back to token-based mode."@
        },
{
    reveal_strlit("server");
    reveal_strlit("local");
}

/// Whether nothing is set.
pub open spec fn empty(c: Config) -> bool {
    &&& c.klipy_api_key is None
    &&& c.giphy_api_key is None
    &&& c.favorites_api is None
    &&& c.favorites_token is None
    &&& c.favorites_mode is None
}

/// Without a file that can be read nothing is set. A file that is missing is no reason
/// to warn; one that is invalid or cannot be read is, by its path and what is wrong.
pub proof fn lemma_no_file(file: ConfigFile, path: &str, r: (Config, Option<String>))
    requires
        call_ensures(crate::config::load, (file, path), r),
        !(file is Parsed),
    ensures
        empty(r.0),
        match file {
            ConfigFile::Invalid(why) => r.1 is Some && r.1->0@
                == "gifdeck: warning: "@ + "invalid config JSON"@ + " at "@ + path@ + ": "@ + why@
                + ". Continuing with empty config."@,
            ConfigFile::Unreadable(why) => r.1 is Some && r.1->0@
                == "gifdeck: warning: "@ + "could not read config"@ + " at "@ + path@ + ": "@ + why@
                + ". Continuing with empty config."@,
            _ => r.1 is None,
        },
{
}

/// A mode decides where favorites live; without one, a token does.
pub proof fn lemma_server_or_local(c: Config, r: bool)
    requires
        call_ensures(Config::use_server_favorites, (&c,), r),
    ensures
        c.favorites_mode is Some && c.favorites_mode->0@ == "server"@ ==> r,
        c.favorites_mode is Some && c.favorites_mode->0@ == "local"@ ==> !r,
        c.favorites_mode is None ==> r == (c.favorites_token is Some),
{
    reveal_strlit("server");
    reveal_strlit("local");
    assert("server"@.len() == 6 && "local"@.len() == 5);
}

/// The address of the server is the one that is set; there is no other.
pub proof fn lemma_api(c: Config, r: Option<&str>)
    requires
        call_ensures(Config::favorites_api, (&c,), r),
    ensures
        r is Some <==> c.favorites_api is Some,
        r is Some ==> r->0@ == c.favorites_api->0@,
{
}

/// A path that is given is gone by, unless it is empty; then the user's config
/// directory is, and the working directory where there is none.
pub proof fn lemma_config_path(
    given: Option<String>,
    dir: Option<String>,
    r: ConfigPath,
    names: (&'static str, &'static str),
)
    requires
        call_ensures(crate::config::config_path, (given, dir), r),
        call_ensures(crate::config::config_file_names, (), names),
    ensures
        given is Some && given->0@.len() > 0 ==> r == ConfigPath::At(given->0),
        (given is None || given->0@.len() == 0) && dir is Some ==> r == ConfigPath::Under(dir->0),
        (given is None || given->0@.len() == 0) && dir is None ==> r is Here,
        names.0@ == "gifdeck"@,
        names.1@ == "config.json"@,
{
}

} // verus!

//! Favorites: the items, and the requests and replies of the self-hosted server.

use vstd::prelude::*;
use vstd::string::*;
use vstd::utf8::encode_utf8;

use crate::config::Config;
use crate::providers::{label_of, GifResult};
use crate::store::LocalStore;
use crate::text::{clone_text, count_of, decimal, from_chars, joined, parse_count, push_decimal, to_chars, trim, trimmed};

verus! {

/// A favorite item as stored on the server.
#[derive(Debug)]
pub struct FavItem {
    pub id: String,
    pub url: String,
    pub preview: String,
    pub provider: String,
    pub title: String,
    pub use_count: u64,
    pub added_at: Option<String>,
    pub last_used: Option<String>,
}

impl Clone for FavItem {
    fn clone(&self) -> (r: Self)
        ensures
            r == *self,
    {
        FavItem {
            id: self.id.clone(),
            url: self.url.clone(),
            preview: self.preview.clone(),
            provider: self.provider.clone(),
            title: self.title.clone(),
            use_count: self.use_count,
            added_at: clone_text(&self.added_at),
            last_used: clone_text(&self.last_used),
        }
    }
}

/// The time that a favorite records: seconds since the Unix epoch, in digits.
pub fn now_epoch(seconds: u64) -> (r: String)
    ensures
        r@ == decimal(seconds as nat),
{
    let mut out: String = String::new();
    push_decimal(&mut out, seconds as u128);
    assert(out@ == decimal(seconds as nat));
    out
}

/// Whether `f` describes the GIF `gif`: its id, addresses, provider and title.
pub open spec fn describes(f: FavItem, gif: GifResult) -> bool {
    &&& f.id@ == gif.id@
    &&& f.url@ == gif.url@
    &&& f.preview@ == gif.preview_url@
    &&& f.provider@ == label_of(gif.provider)
    &&& f.title@ == gif.title@
}

impl FavItem {
    /// A new favorite for a GIF, added at `now` and never used.
    pub fn from_gif(gif: &GifResult, now: String) -> (r: FavItem)
        ensures
            describes(r, *gif),
            r.use_count == 0,
            r.added_at == Some(now),
            r.last_used is None,
    {
        FavItem {
            id: gif.id.clone(),
            url: gif.url.clone(),
            preview: gif.preview_url.clone(),
            provider: gif.provider.label().to_owned(),
            title: gif.title.clone(),
            use_count: 0,
            added_at: Some(now),
            last_used: None,
        }
    }
}

/// One page of the favorites list plus the total that the backend reports.
#[derive(Debug)]
pub struct FavsPage {
    pub items: Vec<FavItem>,
    /// Total favorites (`X-Total-Count`, or the length of the local store);
    /// `None` when the server predates the header.
    pub total: Option<usize>,
}

/// What the server says of a use of a favorite.
#[derive(Debug)]
pub struct UseCount {
    pub id: String,
    pub use_count: u64,
    pub last_used: Option<String>,
}

/// The methods of the favorites API.
#[derive(Debug, Clone, Copy, PartialEq, Eq, Structural)]
pub enum Method {
    Get,
    Post,
    Patch,
    Delete,
}

/// What a favorite is saved as.
#[derive(Debug)]
pub struct SaveBody {
    pub id: String,
    pub url: String,
    pub preview: String,
    pub provider: String,
    pub title: String,
}

/// A request to the favorites server. The token, if there is one, goes into the
/// header `X-Auth-Token`.
#[derive(Debug)]
pub struct FavsRequest {
    pub method: Method,
    pub url: String,
    pub token: Option<String>,
    pub body: Option<SaveBody>,
}

/// Client for the self-hosted favorites server.
#[derive(Debug)]
pub struct FavsClient {
    pub base: String,
    pub token: Option<String>,
}

impl Clone for FavsClient {
    fn clone(&self) -> (r: Self)
        ensures
            r == *self,
    {
        FavsClient { base: self.base.clone(), token: clone_text(&self.token) }
    }
}

/// A text without the slashes at its end.
pub open spec fn without_slashes(s: Seq<char>) -> Seq<char>
    decreases s.len(),
{
    if s.len() > 0 && s.last() == '/' {
        without_slashes(s.drop_last())
    } else {
        s
    }
}

fn trim_slashes(s: &str) -> (r: String)
    ensures
        r@ == without_slashes(s@),
{
    let chars: Vec<char> = to_chars(s);
    let mut to: usize = chars.len();
    assert(s@.take(to as int) == s@);
    while to > 0 && chars[to - 1] == '/'
        invariant
            to <= chars@.len(),
            chars@ == s@,
            without_slashes(s@.take(to as int)) == without_slashes(s@),
        decreases to,
    {
        assert(s@.take(to as int).drop_last() == s@.take(to - 1));
        to -= 1;
    }
    assert(s@.take(to as int) == chars@.subrange(0, to as int));
    from_chars(&chars, 0, to)
}

/// The bytes that stand for themselves in an address.
pub open spec fn unreserved(b: u8) -> bool {
    ||| 65 <= b <= 90
    ||| 97 <= b <= 122
    ||| 48 <= b <= 57
    ||| b == 45
    ||| b == 95
    ||| b == 46
    ||| b == 126
}

/// A hexadecimal digit, in upper case.
pub open spec fn hex_digit(d: int) -> char {
    if d < 10 {
        (48 + d) as char
    } else {
        (55 + d) as char
    }
}

/// A byte as it stands in an address.
pub open spec fn escaped_byte(b: u8) -> Seq<char> {
    if unreserved(b) {
        seq![b as char]
    } else {
        seq!['%', hex_digit(b as int / 16), hex_digit(b as int % 16)]
    }
}

/// Bytes as they stand in an address, one after the other.
pub open spec fn escaped(bytes: Seq<u8>) -> Seq<char>
    decreases bytes.len(),
{
    if bytes.len() == 0 {
        Seq::empty()
    } else {
        escaped_byte(bytes[0]) + escaped(bytes.drop_first())
    }
}

fn hex_char(d: u8) -> (r: char)
    requires
        d < 16,
    ensures
        r == hex_digit(d as int),
{
    if d < 10 {
        (48 + d) as char
    } else {
        (55 + d) as char
    }
}

/// The text in a form that can stand in a path: letters, digits and `-_.~` of
/// ASCII as they are, and every other byte of its UTF-8 form as `%` and two
/// hexadecimal digits.
pub fn urlenc(s: &str) -> (r: String)
    ensures
        r@ == escaped(encode_utf8(s@)),
{
    let bytes: &[u8] = s.as_bytes();
    let mut out: String = String::new();
    let mut i: usize = 0;
    assert(bytes@.skip(0) == bytes@);
    while i < bytes.len()
        invariant
            i <= bytes@.len(),
            bytes@ == encode_utf8(s@),
            out@ + escaped(bytes@.skip(i as int)) == escaped(bytes@),
        decreases bytes@.len() - i,
    {
        let b: u8 = bytes[i];
        let ghost before = out@;
        let ghost rest = bytes@.skip(i as int);
        let plain: bool = (65 <= b && b <= 90) || (97 <= b && b <= 122) || (48 <= b && b <= 57) || b
            == 45 || b == 95 || b == 46 || b == 126;
        if plain {
            out.push(b as char);
        } else {
            out.push('%');
            out.push(hex_char(b / 16));
            out.push(hex_char(b % 16));
        }
        assert(out@ == before + escaped_byte(b));
        assert(rest[0] == b);
        assert(rest.drop_first() == bytes@.skip(i + 1));
        assert(escaped(rest) == escaped_byte(b) + escaped(bytes@.skip(i + 1)));
        assert(out@ + escaped(bytes@.skip(i + 1)) == before + escaped(rest));
        i += 1;
    }
    assert(bytes@.skip(i as int) == Seq::<u8>::empty());
    assert(out@ == out@ + escaped(bytes@.skip(i as int)));
    out
}

/// Different bytes have different escaped forms: what is escaped can be read
/// back.
pub proof fn lemma_escaped_injective(a: Seq<u8>, b: Seq<u8>)
    requires
        escaped(a) == escaped(b),
    ensures
        a == b,
    decreases a.len(),
{
    let ea = escaped(a);
    if a.len() == 0 {
        if b.len() > 0 {
            assert(escaped_byte(b[0]).len() > 0);
            assert(false);
        }
        assert(a == b);
    } else {
        assert(escaped_byte(a[0]).len() > 0);
        assert(b.len() > 0);
        let xa = escaped_byte(a[0]);
        let xb = escaped_byte(b[0]);
        let ra = escaped(a.drop_first());
        let rb = escaped(b.drop_first());
        assert(ea == xa + ra);
        assert(ea == xb + rb);
        assert(ea[0] == xa[0] && ea[0] == xb[0]);
        assert(unreserved(a[0]) == unreserved(b[0])) by {
            assert('%' as u8 == 37);
        }
        assert(xa.len() == xb.len());
        assert forall|k: int| 0 <= k < xa.len() implies xa[k] == xb[k] by {
            assert(ea[k] == xa[k]);
            assert(ea[k] == xb[k]);
        }
        if unreserved(a[0]) {
            assert(a[0] == b[0]);
        } else {
            assert(xa[1] == xb[1] && xa[2] == xb[2]);
            assert(a[0] as int / 16 == b[0] as int / 16);
            assert(a[0] as int % 16 == b[0] as int % 16);
            assert(a[0] == b[0]);
        }
        assert(ra == ea.skip(xa.len() as int));
        assert(rb == ea.skip(xb.len() as int));
        lemma_escaped_injective(a.drop_first(), b.drop_first());
        assert(a == seq![a[0]] + a.drop_first());
        assert(b == seq![b[0]] + b.drop_first());
    }
}

/// Favorites with different ids are found at different addresses.
pub proof fn lemma_paths_differ(a: Seq<char>, b: Seq<char>)
    requires
        escaped(encode_utf8(a)) == escaped(encode_utf8(b)),
    ensures
        a == b,
{
    lemma_escaped_injective(encode_utf8(a), encode_utf8(b));
    vstd::utf8::encode_utf8_decode_utf8(a);
    vstd::utf8::encode_utf8_decode_utf8(b);
}

/// An escaped text holds no character with a meaning of its own in a path:
/// letters, digits, `-_.~` and `%` only.
pub proof fn lemma_escaped_is_plain(bytes: Seq<u8>, i: int)
    requires
        0 <= i < escaped(bytes).len(),
    ensures
        escaped(bytes)[i] == '%' || (escaped(bytes)[i] as u32 <= 126 && unreserved(
            escaped(bytes)[i] as u8,
        )),
    decreases bytes.len(),
{
    if bytes.len() > 0 {
        let x = escaped_byte(bytes[0]);
        if i >= x.len() {
            lemma_escaped_is_plain(bytes.drop_first(), i - x.len());
        }
    }
}

impl FavsClient {
    /// Client for the server that the configuration names; without one there
    /// is no client. Slashes at the end of its address do not matter.
    pub fn new(cfg: &Config) -> (r: Result<FavsClient, String>)
        ensures
            match r {
                Ok(client) => {
                    &&& cfg.favorites_api is Some
                    &&& client.base@ == without_slashes(cfg.favorites_api->0@)
                    &&& client.token == cfg.favorites_token
                },
                Err(e) => {
                    &&& cfg.favorites_api is None
                    &&& e@ == "GIFDECK_FAVORITES_API is not configured"@
                },
            },
    {
        match cfg.favorites_api() {
            Some(base) => Ok(
                FavsClient { base: trim_slashes(base), token: clone_text(&cfg.favorites_token) },
            ),
            None => Err("GIFDECK_FAVORITES_API is not configured".to_owned()),
        }
    }

    /// Asks for the whole list, in the order of the server.
    pub fn list(&self) -> (r: FavsRequest)
        ensures
            r.method == Method::Get,
            r.url@ == self.base@ + "/favorites?limit="@ + decimal(0) + "&offset="@ + decimal(0),
            r.token == self.token,
            r.body is None,
    {
        self.list_page(0, 0)
    }

    /// Asks for one page of the list. A limit of 0 means no limit.
    pub fn list_page(&self, limit: usize, offset: usize) -> (r: FavsRequest)
        ensures
            r.method == Method::Get,
            r.url@ == self.base@ + "/favorites?limit="@ + decimal(limit as nat) + "&offset="@
                + decimal(offset as nat),
            r.token == self.token,
            r.body is None,
    {
        let mut url: String = self.base.clone();
        url.append("/favorites?limit=");
        push_decimal(&mut url, limit as u128);
        url.append("&offset=");
        push_decimal(&mut url, offset as u128);
        FavsRequest { method: Method::Get, url, token: clone_text(&self.token), body: None }
    }

    /// Asks to save a GIF as a favorite, or to update it if it is one.
    pub fn save(&self, gif: &GifResult) -> (r: FavsRequest)
        ensures
            r.method == Method::Post,
            r.url@ == self.base@ + "/favorites"@,
            r.token == self.token,
            r.body is Some,
            ({
                let b = r.body->0;
                &&& b.id@ == gif.id@
                &&& b.url@ == gif.url@
                &&& b.preview@ == gif.preview_url@
                &&& b.provider@ == label_of(gif.provider)
                &&& b.title@ == gif.title@
            }),
    {
        let mut url: String = self.base.clone();
        url.append("/favorites");
        FavsRequest {
            method: Method::Post,
            url,
            token: clone_text(&self.token),
            body: Some(
                SaveBody {
                    id: gif.id.clone(),
                    url: gif.url.clone(),
                    preview: gif.preview_url.clone(),
                    provider: gif.provider.label().to_owned(),
                    title: gif.title.clone(),
                },
            ),
        }
    }

    /// Asks to count a use of a favorite.
    pub fn increment_use(&self, id: &str) -> (r: FavsRequest)
        ensures
            r.method == Method::Patch,
            r.url@ == self.base@ + "/favorites/"@ + escaped(encode_utf8(id@)) + "/use"@,
            r.token == self.token,
            r.body is None,
    {
        let mut url: String = self.base.clone();
        url.append("/favorites/");
        url.append(urlenc(id).as_str());
        url.append("/use");
        FavsRequest { method: Method::Patch, url, token: clone_text(&self.token), body: None }
    }

    /// Asks to remove a favorite.
    pub fn delete(&self, id: &str) -> (r: FavsRequest)
        ensures
            r.method == Method::Delete,
            r.url@ == self.base@ + "/favorites/"@ + escaped(encode_utf8(id@)),
            r.token == self.token,
            r.body is None,
    {
        let mut url: String = self.base.clone();
        url.append("/favorites/");
        url.append(urlenc(id).as_str());
        FavsRequest { method: Method::Delete, url, token: clone_text(&self.token), body: None }
    }
}

/// Whether a status reports success.
pub open spec fn success(status: u16) -> bool {
    200 <= status < 300
}

/// What is said of a request that the server turned down: what was tried, the
/// status, and the server's own words if it had any.
pub open spec fn refusal(action: Seq<char>, status: u16, words: Option<String>) -> Seq<char> {
    let told = "failed to "@ + action + ": HTTP "@ + decimal(status as nat);
    if words is Some && words->0@.len() > 0 {
        told + " ("@ + words->0@ + ")"@
    } else {
        told
    }
}

/// Describes a reply with an error status.
pub fn describe_error(action: &str, status: u16, words: &Option<String>) -> (r: String)
    ensures
        r@ == refusal(action@, status, *words),
{
    let mut out: String = "failed to ".to_owned();
    out.append(action);
    out.append(": HTTP ");
    push_decimal(&mut out, status as u128);
    if let Some(w) = words {
        if !w.as_str().is_empty() {
            out.append(" (");
            out.append(w.as_str());
            out.append(")");
        }
    }
    out
}

/// A reply of the favorites server.
#[derive(Debug)]
pub struct Reply<T> {
    pub status: u16,
    /// The header `X-Total-Count`, if it is there and is text.
    pub total_count: Option<String>,
    /// The body read as what was asked for, or why it cannot be.
    pub body: Result<T, String>,
    /// The body read as an error of the server, if it is one.
    pub error: Option<String>,
}

/// The total that a header announces.
pub open spec fn announced(header: Option<String>) -> Option<usize> {
    match header {
        Some(h) => count_of(trimmed(h@)),
        None => None,
    }
}

/// What a reply to `list_page` means.
pub fn list_page_reply(reply: Reply<Vec<FavItem>>) -> (r: Result<FavsPage, String>)
    ensures
        match r {
            Ok(page) => {
                &&& success(reply.status)
                &&& reply.body == Ok::<Vec<FavItem>, String>(page.items)
                &&& page.total == announced(reply.total_count)
            },
            Err(e) => if success(reply.status) {
                &&& reply.body is Err
                &&& e@ == "failed to parse favorites list: "@ + reply.body->Err_0@
            } else {
                e@ == refusal("list favorites"@, reply.status, reply.error)
            },
        },
{
    if !(200 <= reply.status && reply.status < 300) {
        return Err(describe_error("list favorites", reply.status, &reply.error));
    }
    let total: Option<usize> = match &reply.total_count {
        Some(h) => parse_count(trim(h.as_str()).as_str()),
        None => None,
    };
    match reply.body {
        Ok(items) => Ok(FavsPage { items, total }),
        Err(e) => Err(joined("failed to parse favorites list: ", e.as_str())),
    }
}

/// What a reply to `list` means: the items alone.
pub fn list_reply(reply: Reply<Vec<FavItem>>) -> (r: Result<Vec<FavItem>, String>)
    ensures
        match r {
            Ok(items) => success(reply.status) && reply.body == Ok::<Vec<FavItem>, String>(items),
            Err(e) => if success(reply.status) {
                &&& reply.body is Err
                &&& e@ == "failed to parse favorites list: "@ + reply.body->Err_0@
            } else {
                e@ == refusal("list favorites"@, reply.status, reply.error)
            },
        },
{
    match list_page_reply(reply) {
        Ok(page) => Ok(page.items),
        Err(e) => Err(e),
    }
}

/// What a reply to `save` means.
pub fn save_reply(reply: Reply<FavItem>) -> (r: Result<FavItem, String>)
    ensures
        match r {
            Ok(item) => success(reply.status) && reply.body == Ok::<FavItem, String>(item),
            Err(e) => if success(reply.status) {
                &&& reply.body is Err
                &&& e@ == "failed to parse saved favorite: "@ + reply.body->Err_0@
            } else {
                e@ == refusal("save favorite"@, reply.status, reply.error)
            },
        },
{
    if !(200 <= reply.status && reply.status < 300) {
        return Err(describe_error("save favorite", reply.status, &reply.error));
    }
    match reply.body {
        Ok(item) => Ok(item),
        Err(e) => Err(joined("failed to parse saved favorite: ", e.as_str())),
    }
}

/// What a reply to `increment_use` means.
pub fn increment_use_reply(reply: Reply<UseCount>) -> (r: Result<UseCount, String>)
    ensures
        match r {
            Ok(count) => success(reply.status) && reply.body == Ok::<UseCount, String>(count),
            Err(e) => if success(reply.status) {
                &&& reply.body is Err
                &&& e@ == "failed to parse use-count response: "@ + reply.body->Err_0@
            } else {
                e@ == refusal("increment favorite use"@, reply.status, reply.error)
            },
        },
{
    if !(200 <= reply.status && reply.status < 300) {
        return Err(describe_error("increment favorite use", reply.status, &reply.error));
    }
    match reply.body {
        Ok(count) => Ok(count),
        Err(e) => Err(joined("failed to parse use-count response: ", e.as_str())),
    }
}

/// What a reply to `delete` means; its body is of no interest on success.
pub fn delete_reply(status: u16, error: Option<String>) -> (r: Result<(), String>)
    ensures
        match r {
            Ok(()) => success(status),
            Err(e) => !success(status) && e@ == refusal("delete favorite"@, status, error),
        },
{
    if 200 <= status && status < 300 {
        Ok(())
    } else {
        Err(describe_error("delete favorite", status, &error))
    }
}

/// Where favorites live: the self-hosted server, or the local store. The two
/// are alternatives, never a fallback for one another.
#[derive(Debug)]
pub enum FavsBackend {
    Server(FavsClient),
    Local(LocalStore),
}

impl Clone for FavsBackend {
    fn clone(&self) -> (r: Self)
        ensures
            r == *self,
    {
        match self {
            FavsBackend::Server(client) => FavsBackend::Server(client.clone()),
            FavsBackend::Local(store) => FavsBackend::Local(store.clone()),
        }
    }
}

impl FavsBackend {
    /// Whether favorites live in the local store.
    pub fn is_local(&self) -> (r: bool)
        ensures
            r == (self is Local),
    {
        match self {
            FavsBackend::Server(_) => false,
            FavsBackend::Local(_) => true,
        }
    }

    /// The backend that a configuration asks for, given the local store to use
    /// if it is that.
    pub fn choose_for(cfg: &Config, local: LocalStore) -> (r: Result<FavsBackend, String>)
        ensures
            match r {
                Ok(FavsBackend::Server(client)) => {
                    &&& crate::config::on_server(*cfg)
                    &&& cfg.favorites_api is Some
                    &&& client.base@ == without_slashes(cfg.favorites_api->0@)
                    &&& client.token == cfg.favorites_token
                },
                Ok(FavsBackend::Local(store)) => !crate::config::on_server(*cfg) && store == local,
                Err(e) => {
                    &&& crate::config::on_server(*cfg)
                    &&& cfg.favorites_api is None
                    &&& e@ == "GIFDECK_FAVORITES_API is not configured"@
                },
            },
    {
        if cfg.use_server_favorites() {
            match FavsClient::new(cfg) {
                Ok(client) => Ok(FavsBackend::Server(client)),
                Err(e) => Err(e),
            }
        } else {
            Ok(FavsBackend::Local(local))
        }
    }
}

} // verus!

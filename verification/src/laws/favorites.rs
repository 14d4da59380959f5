//! Favorites on the server: what is asked of it, and what its replies mean.

use vstd::prelude::*;
use vstd::utf8::encode_utf8;

use crate::config::Config;
use crate::favs::{
    FavItem, FavsBackend, FavsClient, FavsPage, FavsRequest, Method, Reply, UseCount,
};
use crate::item::UrlItem;
use crate::providers::{GifResult, Provider};
use crate::store::LocalStore;
use crate::text::decimal;

verus! {

/// Whether a text is `head` and, after it, slashes only.
pub open spec fn then_slashes(s: Seq<char>, head: Seq<char>) -> bool {
    &&& head.len() <= s.len()
    &&& s.take(head.len() as int) == head
    &&& forall|i: int| head.len() <= i < s.len() ==> #[trigger] s[i] == '/'
}

proof fn lemma_slashes_off(s: Seq<char>)
    ensures
        then_slashes(s, crate::favs::without_slashes(s)),
        crate::favs::without_slashes(s).len() > 0 ==> crate::favs::without_slashes(s).last() != '/',
    decreases s.len(),
{
    if s.len() > 0 && s.last() == '/' {
        let shorter = s.drop_last();
        lemma_slashes_off(shorter);
        let head = crate::favs::without_slashes(s);
        assert(s.take(head.len() as int) == shorter.take(head.len() as int));
        assert forall|i: int| head.len() <= i < s.len() implies #[trigger] s[i] == '/' by {
            if i < shorter.len() {
                assert(shorter[i] == '/');
            }
        }
    } else {
        assert(s.take(s.len() as int) == s);
    }
}

/// The server is the one that the configuration names, whatever slashes its address
/// ends with, and is shown the token of the configuration. There is no other: without
/// an address there is no client.
pub proof fn lemma_client(cfg: Config, r: Result<FavsClient, String>)
    requires
        call_ensures(FavsClient::new, (&cfg,), r),
    ensures
        r is Ok <==> cfg.favorites_api is Some,
        r is Ok ==> {
            &&& then_slashes(cfg.favorites_api->0@, r->Ok_0.base@)
            &&& r->Ok_0.base@.len() > 0 ==> r->Ok_0.base@.last() != '/'
            &&& r->Ok_0.token == cfg.favorites_token
        },
        r is Err ==> r->Err_0@ == "GIFDECK_FAVORITES_API is not configured"@,
{
    if cfg.favorites_api is Some {
        lemma_slashes_off(cfg.favorites_api->0@);
    }
}

/// Favorites live on the server if the mode says so, or if there is no mode and there
/// is a token; and in the local store otherwise. The one is never taken for the
/// other: without an address, a server that is asked for is an error.
pub proof fn lemma_backend(cfg: Config, local: LocalStore, r: Result<FavsBackend, String>)
    requires
        call_ensures(FavsBackend::choose_for, (&cfg, local), r),
    ensures
        ({
            let mode = cfg.favorites_mode;
            let server = if mode is Some && mode->0@ == "server"@ {
                true
            } else if mode is Some && mode->0@ == "local"@ {
                false
            } else {
                cfg.favorites_token is Some
            };
            &&& !server ==> r == Ok::<FavsBackend, String>(FavsBackend::Local(local))
            &&& server && cfg.favorites_api is Some ==> {
                &&& r is Ok
                &&& r->Ok_0 is Server
                &&& then_slashes(cfg.favorites_api->0@, r->Ok_0->Server_0.base@)
                &&& r->Ok_0->Server_0.base@.len() > 0 ==> r->Ok_0->Server_0.base@.last() != '/'
                &&& r->Ok_0->Server_0.token == cfg.favorites_token
            }
            &&& server && cfg.favorites_api is None ==> r is Err && r->Err_0@
                == "GIFDECK_FAVORITES_API is not configured"@
        }),
{
    reveal_strlit("server");
    reveal_strlit("local");
    assert("server"@.len() == 6 && "local"@.len() == 5);
    if cfg.favorites_api is Some {
        lemma_slashes_off(cfg.favorites_api->0@);
    }
}

/// Whether favorites live in the local store is what `is_local` tells.
pub proof fn lemma_is_local(b: FavsBackend, r: bool)
    requires
        call_ensures(FavsBackend::is_local, (&b,), r),
    ensures
        b is Local ==> r,
        b is Server ==> !r,
{
}

/// A page of favorites is asked for by how many are wanted and how many come before
/// them; the whole list by no limit, from the first on.
pub proof fn lemma_list_requests(
    c: FavsClient,
    limit: usize,
    offset: usize,
    page: FavsRequest,
    all: FavsRequest,
)
    requires
        call_ensures(FavsClient::list_page, (&c, limit, offset), page),
        call_ensures(FavsClient::list, (&c,), all),
    ensures
        page.method == Method::Get,
        page.url@ == c.base@ + "/favorites?limit="@ + decimal(limit as nat) + "&offset="@
            + decimal(offset as nat),
        page.token == c.token,
        page.body is None,
        all.method == Method::Get,
        all.token == c.token,
        all.body is None,
        limit == 0 && offset == 0 ==> all.url@ == page.url@,
{
}

/// A GIF is saved as it is: id, title, both addresses, and the name of its provider.
pub proof fn lemma_save_request(c: FavsClient, gif: GifResult, r: FavsRequest)
    requires
        call_ensures(FavsClient::save, (&c, &gif), r),
    ensures
        r.method == Method::Post,
        r.url@ == c.base@ + "/favorites"@,
        r.token == c.token,
        r.body is Some,
        r.body->0.id@ == gif.id@,
        r.body->0.title@ == gif.title@,
        r.body->0.url@ == gif.url@,
        r.body->0.preview@ == gif.preview_url@,
        gif.provider == Provider::Giphy ==> r.body->0.provider@ == "giphy"@,
        gif.provider == Provider::Klipy ==> r.body->0.provider@ == "klipy"@,
{
}

/// A favorite is removed, and a use of it counted, at the address that its id leads
/// to; favorites with different ids have different ones.
pub proof fn lemma_item_requests(
    c: FavsClient,
    id: &str,
    name: String,
    gone: FavsRequest,
    used: FavsRequest,
)
    requires
        call_ensures(FavsClient::delete, (&c, id), gone),
        call_ensures(FavsClient::increment_use, (&c, id), used),
        call_ensures(crate::favs::urlenc, (id,), name),
    ensures
        gone.method == Method::Delete,
        gone.url@ == c.base@ + "/favorites/"@ + name@,
        gone.token == c.token,
        gone.body is None,
        used.method == Method::Patch,
        used.url@ == c.base@ + "/favorites/"@ + name@ + "/use"@,
        used.token == c.token,
        used.body is None,
{
}

/// Texts that differ differ in an address too.
pub proof fn lemma_encoding_tells_apart(a: &str, b: &str, x: String, y: String)
    requires
        call_ensures(crate::favs::urlenc, (a,), x),
        call_ensures(crate::favs::urlenc, (b,), y),
        x@ == y@,
    ensures
        a@ == b@,
{
    crate::favs::lemma_paths_differ(a@, b@);
}

/// Whether a character stands for itself in an address.
pub open spec fn plain(c: char) -> bool {
    ||| 'A' <= c <= 'Z'
    ||| 'a' <= c <= 'z'
    ||| '0' <= c <= '9'
    ||| c == '-'
    ||| c == '_'
    ||| c == '.'
    ||| c == '~'
}

proof fn lemma_plain_bytes(bytes: Seq<u8>)
    requires
        forall|i: int| 0 <= i < bytes.len() ==> #[trigger] bytes[i] <= 127 && plain(bytes[i] as char),
    ensures
        crate::favs::escaped(bytes).len() == bytes.len(),
        forall|i: int|
            0 <= i < bytes.len() ==> #[trigger] crate::favs::escaped(bytes)[i] == bytes[i] as char,
    decreases bytes.len(),
{
    if bytes.len() > 0 {
        let rest = bytes.drop_first();
        assert(bytes[0] <= 127 && plain(bytes[0] as char));
        assert forall|i: int| 0 <= i < rest.len() implies #[trigger] rest[i] <= 127 && plain(
            rest[i] as char,
        ) by {
            assert(rest[i] == bytes[i + 1]);
        }
        lemma_plain_bytes(rest);
        assert(crate::favs::unreserved(bytes[0]));
        assert forall|i: int| 0 <= i < bytes.len() implies #[trigger] crate::favs::escaped(bytes)[i]
            == bytes[i] as char by {
            if i > 0 {
                assert(crate::favs::escaped(bytes)[i] == crate::favs::escaped(rest)[i - 1]);
                assert(rest[i - 1] == bytes[i]);
            }
        }
    }
}

/// Bytes that stand for themselves in an address are written as they are.
pub proof fn lemma_plain_text_stays(id: &str, r: String, i: int)
    requires
        call_ensures(crate::favs::urlenc, (id,), r),
        forall|k: int|
            0 <= k < encode_utf8(id@).len() ==> #[trigger] encode_utf8(id@)[k] <= 127 && plain(
                encode_utf8(id@)[k] as char,
            ),
        0 <= i < encode_utf8(id@).len(),
    ensures
        r@.len() == encode_utf8(id@).len(),
        r@[i] == encode_utf8(id@)[i] as char,
{
    lemma_plain_bytes(encode_utf8(id@));
}

/// What comes out of the encoding can stand in an address: characters that stand for
/// themselves, and percent signs.
pub proof fn lemma_encoded_is_safe(id: &str, r: String, i: int)
    requires
        call_ensures(crate::favs::urlenc, (id,), r),
        0 <= i < r@.len(),
    ensures
        r@[i] == '%' || plain(r@[i]),
{
    lemma_safe_bytes(encode_utf8(id@), i);
}

proof fn lemma_safe_bytes(bytes: Seq<u8>, i: int)
    requires
        0 <= i < crate::favs::escaped(bytes).len(),
    ensures
        crate::favs::escaped(bytes)[i] == '%' || plain(crate::favs::escaped(bytes)[i]),
    decreases bytes.len(),
{
    if bytes.len() > 0 {
        let x = crate::favs::escaped_byte(bytes[0]);
        if i >= x.len() {
            lemma_safe_bytes(bytes.drop_first(), i - x.len());
        }
    }
}

/// The value of a hexadecimal digit in upper case, or none.
pub open spec fn hex_value(c: char) -> Option<int> {
    if '0' <= c <= '9' {
        Some(c as int - '0' as int)
    } else if 'A' <= c <= 'F' {
        Some(c as int - 'A' as int + 10)
    } else {
        None
    }
}

/// A byte that does not stand for itself is written as a percent sign and its value
/// in two hexadecimal digits.
pub proof fn lemma_other_bytes_in_hex(id: &str, r: String, b: u8)
    requires
        call_ensures(crate::favs::urlenc, (id,), r),
        encode_utf8(id@) == seq![b],
        b > 127 || !plain(b as char),
    ensures
        r@.len() == 3,
        r@[0] == '%',
        hex_value(r@[1]) is Some,
        hex_value(r@[2]) is Some,
        16 * hex_value(r@[1])->0 + hex_value(r@[2])->0 == b,
{
    let bytes = seq![b];
    assert(bytes.drop_first().len() == 0);
    assert(crate::favs::escaped(bytes.drop_first()).len() == 0);
    assert(crate::favs::escaped(bytes) == crate::favs::escaped_byte(b));
}

proof fn lemma_escaped_joins(a: Seq<u8>, b: Seq<u8>)
    ensures
        crate::favs::escaped(a + b) == crate::favs::escaped(a) + crate::favs::escaped(b),
    decreases a.len(),
{
    if a.len() == 0 {
        assert(a + b == b);
        assert(crate::favs::escaped(a) + crate::favs::escaped(b) == crate::favs::escaped(b));
    } else {
        lemma_escaped_joins(a.drop_first(), b);
        assert((a + b).drop_first() == a.drop_first() + b);
        assert(crate::favs::escaped(a + b) == crate::favs::escaped(a) + crate::favs::escaped(b));
    }
}

/// A text is encoded byte after byte: what comes first and what follows are encoded
/// each by itself.
pub proof fn lemma_encoded_in_order(
    whole: &str,
    first: &str,
    rest: &str,
    w: String,
    f: String,
    r: String,
)
    requires
        call_ensures(crate::favs::urlenc, (whole,), w),
        call_ensures(crate::favs::urlenc, (first,), f),
        call_ensures(crate::favs::urlenc, (rest,), r),
        encode_utf8(whole@) == encode_utf8(first@) + encode_utf8(rest@),
    ensures
        w@ == f@ + r@,
{
    lemma_escaped_joins(encode_utf8(first@), encode_utf8(rest@));
}

/// A new favorite records the GIF as it is, when it was added, and no use.
pub proof fn lemma_new_favorite(gif: GifResult, now: String, r: FavItem)
    requires
        call_ensures(FavItem::from_gif, (&gif, now), r),
    ensures
        r.id@ == gif.id@,
        r.title@ == gif.title@,
        r.url@ == gif.url@,
        r.preview@ == gif.preview_url@,
        gif.provider == Provider::Giphy ==> r.provider@ == "giphy"@,
        gif.provider == Provider::Klipy ==> r.provider@ == "klipy"@,
        r.use_count == 0,
        r.added_at == Some(now),
        r.last_used is None,
{
}

/// A GIF that was made a favorite shows as the same GIF again.
pub proof fn lemma_favorite_shows_the_gif(gif: GifResult, now: String, f: FavItem, item: UrlItem)
    requires
        call_ensures(FavItem::from_gif, (&gif, now), f),
        call_ensures(<UrlItem as From<FavItem>>::from, (f,), item),
    ensures
        item.id@ == gif.id@,
        item.url@ == gif.url@,
        item.preview_url@ == gif.preview_url@,
        item.provider == gif.provider,
        gif.title@.len() > 0 ==> item.title@ == gif.title@,
{
    crate::providers::lemma_labels_round_trip(gif.provider);
}

/// A time is recorded in digits that read back as it.
pub proof fn lemma_time_in_digits(seconds: u64, r: String)
    requires
        call_ensures(crate::favs::now_epoch, (seconds,), r),
    ensures
        crate::text::is_digits(r@),
        crate::text::digits_value(r@) == seconds,
{
    crate::text::lemma_decimal_reads_back(seconds as nat);
}

/// What is said of a request that was turned down.
pub open spec fn turned_down(action: Seq<char>, status: u16, words: Option<String>, e: Seq<char>)
    -> bool {
    let told = "failed to "@ + action + ": HTTP "@ + decimal(status as nat);
    &&& words is None || words->0@.len() == 0 ==> e == told
    &&& words is Some && words->0@.len() > 0 ==> e == told + " ("@ + words->0@ + ")"@
}

/// A list that the server hands out with success is taken as it is, with the total of
/// its header; any other status is an error, and so is a body that is no list.
pub proof fn lemma_list_reply(
    reply: Reply<Vec<FavItem>>,
    page: Result<FavsPage, String>,
    all: Result<Vec<FavItem>, String>,
)
    requires
        call_ensures(crate::favs::list_page_reply, (reply,), page),
        call_ensures(crate::favs::list_reply, (reply,), all),
    ensures
        ({
            let good = 200 <= reply.status <= 299;
            &&& page is Ok <==> good && reply.body is Ok
            &&& all is Ok <==> good && reply.body is Ok
            &&& page is Ok ==> page->Ok_0.items == reply.body->Ok_0
            &&& all is Ok ==> all->Ok_0 == reply.body->Ok_0
            &&& good && reply.body is Err ==> page->Err_0@ == "failed to parse favorites list: "@
                + reply.body->Err_0@ && all->Err_0@ == page->Err_0@
            &&& !good ==> turned_down(
                "list favorites"@,
                reply.status,
                reply.error,
                page->Err_0@,
            ) && all->Err_0@ == page->Err_0@
        }),
{
}

/// The total of a page of favorites is the number in the header, white space around
/// it aside; without a header, or with one that is no number, there is none.
pub proof fn lemma_list_total(
    reply: Reply<Vec<FavItem>>,
    page: Result<FavsPage, String>,
    header: &str,
    bare: String,
    number: &str,
    count: Option<usize>,
)
    requires
        call_ensures(crate::favs::list_page_reply, (reply,), page),
        page is Ok,
        reply.total_count is Some ==> header@ == reply.total_count->0@,
        call_ensures(crate::text::trim, (header,), bare),
        number@ == bare@,
        call_ensures(crate::text::parse_count, (number,), count),
    ensures
        reply.total_count is None ==> page->Ok_0.total is None,
        reply.total_count is Some ==> page->Ok_0.total == count,
{
}

/// What the server says of a favorite that was saved, used or removed counts only
/// with a status of success.
pub proof fn lemma_item_replies(
    saved: Reply<FavItem>,
    s: Result<FavItem, String>,
    used: Reply<UseCount>,
    u: Result<UseCount, String>,
    status: u16,
    words: Option<String>,
    d: Result<(), String>,
)
    requires
        call_ensures(crate::favs::save_reply, (saved,), s),
        call_ensures(crate::favs::increment_use_reply, (used,), u),
        call_ensures(crate::favs::delete_reply, (status, words), d),
    ensures
        s is Ok <==> 200 <= saved.status <= 299 && saved.body is Ok,
        s is Ok ==> s->Ok_0 == saved.body->Ok_0,
        !(200 <= saved.status <= 299) ==> turned_down(
            "save favorite"@,
            saved.status,
            saved.error,
            s->Err_0@,
        ),
        200 <= saved.status <= 299 && saved.body is Err ==> s->Err_0@
            == "failed to parse saved favorite: "@ + saved.body->Err_0@,
        u is Ok <==> 200 <= used.status <= 299 && used.body is Ok,
        u is Ok ==> u->Ok_0 == used.body->Ok_0,
        !(200 <= used.status <= 299) ==> turned_down(
            "increment favorite use"@,
            used.status,
            used.error,
            u->Err_0@,
        ),
        200 <= used.status <= 299 && used.body is Err ==> u->Err_0@
            == "failed to parse use-count response: "@ + used.body->Err_0@,
        d is Ok <==> 200 <= status <= 299,
        d is Err ==> turned_down("delete favorite"@, status, words, d->Err_0@),
{
}

/// `describe_error` says what was tried, the status, and the words of the server.
pub proof fn lemma_described(action: &str, status: u16, words: Option<String>, r: String)
    requires
        call_ensures(crate::favs::describe_error, (action, status, &words), r),
    ensures
        turned_down(action@, status, words, r@),
{
}

} // verus!

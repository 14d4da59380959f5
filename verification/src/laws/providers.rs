//! What is asked of the search providers, and what their replies become.

use vstd::prelude::*;

use crate::config::Config;
use crate::providers::{
    pairs, GifResult, GiphyResponse, GiphyResult, KlipyResponse, KlipyResult, PageCursor, Provider,
    SearchPage, SearchPlan, SearchRequest, SearchStep, Source,
};
use crate::text::decimal;

verus! {

/// Whether a request carries the parameter with the given name and value.
pub open spec fn carries(r: SearchRequest, name: Seq<char>, value: Seq<char>) -> bool {
    pairs(r.query@).contains((name, value))
}

/// Whether `url` is the address that an optional file has.
pub open spec fn address(given: Option<String>, url: String) -> bool {
    &&& given is Some ==> url@ == given->0@
    &&& given is None ==> url@.len() == 0
}

/// The address of a GIPHY file, if there is a file and it has one.
pub open spec fn giphy_file(m: Option<crate::providers::GiphyImage>) -> Option<String> {
    if m is Some {
        m->0.url
    } else {
        None
    }
}

/// The address of a KLIPY file, if there is a file and it has one.
pub open spec fn klipy_file(m: Option<crate::providers::KlipyMedia>) -> Option<String> {
    if m is Some {
        m->0.url
    } else {
        None
    }
}

/// A GIPHY result keeps its id and its title, and goes by `(untitled)` only if it has
/// none; what is picked is the original file, what is shown the preview.
pub proof fn lemma_giphy_result(k: GiphyResult, r: GifResult)
    requires
        call_ensures(GiphyResult::into_gif, (k,), r),
    ensures
        r.id@ == k.id@,
        k.title is Some ==> r.title@ == k.title->0@,
        k.title is None ==> r.title@ == "(untitled)"@,
        address(giphy_file(k.images.original), r.url),
        address(giphy_file(k.images.preview_gif), r.preview_url),
        r.provider == Provider::Giphy,
{
}

/// A KLIPY result keeps its id and its title; without a title it goes by its
/// description, and by `(untitled)` only if it has neither. What is picked is the GIF,
/// what is shown the small one or, without it, the preview.
pub proof fn lemma_klipy_result(k: KlipyResult, r: GifResult)
    requires
        call_ensures(KlipyResult::into_gif, (k,), r),
    ensures
        r.id@ == k.id@,
        k.title is Some ==> r.title@ == k.title->0@,
        k.title is None && k.content_description is Some ==> r.title@
            == k.content_description->0@,
        k.title is None && k.content_description is None ==> r.title@ == "(untitled)"@,
        address(klipy_file(k.media_formats.gif), r.url),
        klipy_file(k.media_formats.tinygif) is Some ==> address(
            klipy_file(k.media_formats.tinygif),
            r.preview_url,
        ),
        klipy_file(k.media_formats.tinygif) is None ==> address(
            klipy_file(k.media_formats.preview),
            r.preview_url,
        ),
        r.provider == Provider::Klipy,
{
}

/// A page of GIPHY results holds every result of the reply, in order, each with its
/// title and addresses, and the total that GIPHY reports.
pub proof fn lemma_giphy_page(reply: GiphyResponse, cursor: PageCursor, r: SearchPage, i: int)
    requires
        call_ensures(crate::providers::giphy_page, (reply, &cursor), r),
        0 <= i < reply.data@.len(),
    ensures
        r.results@.len() == reply.data@.len(),
        r.total == reply.total_count,
        r.results@[i].id@ == reply.data@[i].id@,
        reply.data@[i].title is Some ==> r.results@[i].title@ == reply.data@[i].title->0@,
        reply.data@[i].title is None ==> r.results@[i].title@ == "(untitled)"@,
        address(giphy_file(reply.data@[i].images.original), r.results@[i].url),
        address(giphy_file(reply.data@[i].images.preview_gif), r.results@[i].preview_url),
        r.results@[i].provider == Provider::Giphy,
{
    assert(0 <= i < r.results@.len());
    let g = r.results@[i];
}

/// The GIPHY page after this one starts where this one ends. There is none after an
/// empty page, or if the total says that all was seen.
pub proof fn lemma_giphy_goes_on(reply: GiphyResponse, cursor: PageCursor, r: SearchPage)
    requires
        call_ensures(crate::providers::giphy_page, (reply, &cursor), r),
    ensures
        ({
            let start = match cursor {
                PageCursor::Giphy { offset } => offset as int,
                _ => 0,
            };
            let seen = start + reply.data@.len();
            let more = reply.data@.len() > 0 && seen <= usize::MAX && (reply.total_count is None
                || seen < reply.total_count->0);
            &&& more ==> r.next is Some && r.next->0 is Giphy && r.next->0->offset == seen
            &&& !more ==> r.next is None
        }),
{
}

/// A page of KLIPY results holds every result of the reply, in order, each with its
/// title and addresses; KLIPY reports no total.
pub proof fn lemma_klipy_page(reply: KlipyResponse, r: SearchPage, i: int)
    requires
        call_ensures(crate::providers::klipy_page, (reply,), r),
        0 <= i < reply.results@.len(),
    ensures
        r.results@.len() == reply.results@.len(),
        r.total is None,
        ({
            let k = reply.results@[i];
            let g = r.results@[i];
            &&& g.id@ == k.id@
            &&& k.title is Some ==> g.title@ == k.title->0@
            &&& k.title is None && k.content_description is Some ==> g.title@
                == k.content_description->0@
            &&& k.title is None && k.content_description is None ==> g.title@ == "(untitled)"@
            &&& address(klipy_file(k.media_formats.gif), g.url)
            &&& klipy_file(k.media_formats.tinygif) is Some ==> address(
                klipy_file(k.media_formats.tinygif),
                g.preview_url,
            )
            &&& klipy_file(k.media_formats.tinygif) is None ==> address(
                klipy_file(k.media_formats.preview),
                g.preview_url,
            )
            &&& g.provider == Provider::Klipy
        }),
{
    assert(0 <= i < r.results@.len());
    let g = r.results@[i];
}

/// The KLIPY page after this one is the one that KLIPY names, if it names one.
pub proof fn lemma_klipy_goes_on(reply: KlipyResponse, r: SearchPage)
    requires
        call_ensures(crate::providers::klipy_page, (reply,), r),
    ensures
        reply.next is Some && reply.next->0@.len() > 0 ==> r.next is Some && r.next->0 is Klipy
            && r.next->0->pos == reply.next->0,
        reply.next is None || reply.next->0@.len() == 0 ==> r.next is None,
        r.results@.len() == reply.results@.len(),
{
}

/// An empty reply is an empty page.
pub proof fn lemma_empty_replies(
    giphy: GiphyResponse,
    klipy: KlipyResponse,
    cursor: PageCursor,
    g: SearchPage,
    k: SearchPage,
)
    requires
        call_ensures(crate::providers::giphy_page, (giphy, &cursor), g),
        call_ensures(crate::providers::klipy_page, (klipy,), k),
    ensures
        g.results@.len() == giphy.data@.len(),
        g.total == giphy.total_count,
        k.results@.len() == klipy.results@.len(),
        k.total is None,
{
}

/// A GIPHY search goes to GIPHY, with the key of the configuration, the query and the
/// number of results, and from the cursor on if GIPHY handed it out. Without a key
/// nothing is sent.
pub proof fn lemma_giphy_request(
    cfg: Config,
    query: &str,
    limit: usize,
    cursor: PageCursor,
    r: Result<SearchRequest, String>,
)
    requires
        call_ensures(crate::providers::giphy_search, (&cfg, query, limit, &cursor), r),
    ensures
        r is Ok <==> cfg.giphy_api_key is Some,
        r is Err ==> r->Err_0@ == "GIPHY_API_KEY is not configured"@,
        r is Ok ==> {
            let q = r->Ok_0;
            &&& q.url@ == "https://api.giphy.com/v1/gifs/search"@
            &&& carries(q, "q"@, query@)
            &&& carries(q, "api_key"@, cfg.giphy_api_key->0@)
            &&& carries(q, "limit"@, decimal(limit as nat))
            &&& carries(q, "rating"@, "g"@)
            &&& cursor is Giphy ==> carries(q, "offset"@, decimal(cursor->offset as nat))
            &&& q.query@.len() == if cursor is Giphy {
                5int
            } else {
                4
            }
        },
{
    if r is Ok {
        let p = pairs(r->Ok_0.query@);
        assert(p[0] == ("q"@, query@));
        assert(p[1] == ("api_key"@, cfg.giphy_api_key->0@));
        assert(p[2] == ("limit"@, decimal(limit as nat)));
        assert(p[3] == ("rating"@, "g"@));
        if cursor is Giphy {
            assert(p[4] == ("offset"@, decimal(cursor->offset as nat)));
        }
    }
}

/// A KLIPY search goes to KLIPY, with the key of the configuration, the query and the
/// number of results, and from the position on that KLIPY handed out, if it did.
/// Without a key nothing is sent.
pub proof fn lemma_klipy_request(
    cfg: Config,
    query: &str,
    limit: usize,
    cursor: PageCursor,
    r: Result<SearchRequest, String>,
)
    requires
        call_ensures(crate::providers::klipy_search, (&cfg, query, limit, &cursor), r),
    ensures
        r is Ok <==> cfg.klipy_api_key is Some,
        r is Err ==> r->Err_0@ == "KLIPY_API_KEY is not configured"@,
        r is Ok ==> {
            let q = r->Ok_0;
            &&& q.url@ == "https://api.klipy.com/v2/search"@
            &&& carries(q, "q"@, query@)
            &&& carries(q, "key"@, cfg.klipy_api_key->0@)
            &&& carries(q, "limit"@, decimal(limit as nat))
            &&& carries(q, "contentfilter"@, "low"@)
            &&& carries(q, "media_filter"@, "gif,tinygif,mediumgif,nanogif,preview"@)
            &&& cursor is Klipy ==> carries(q, "pos"@, cursor->pos@)
            &&& q.query@.len() == if cursor is Klipy {
                6int
            } else {
                5
            }
        },
{
    if r is Ok {
        let p = pairs(r->Ok_0.query@);
        assert(p[0] == ("q"@, query@));
        assert(p[1] == ("key"@, cfg.klipy_api_key->0@));
        assert(p[2] == ("limit"@, decimal(limit as nat)));
        assert(p[3] == ("contentfilter"@, "low"@));
        assert(p[4] == ("media_filter"@, "gif,tinygif,mediumgif,nanogif,preview"@));
        if cursor is Klipy {
            assert(p[5] == ("pos"@, cursor->pos@));
        }
    }
}

/// Parameters are name and value as they are sent.
pub proof fn lemma_parameters(r: SearchRequest, i: int)
    requires
        0 <= i < r.query@.len(),
    ensures
        carries(r, r.query@[i].0@, r.query@[i].1@),
{
    assert(pairs(r.query@)[i] == (r.query@[i].0@, r.query@[i].1@));
}

/// Two requests ask for the same if they go to the same address with the same
/// parameters.
pub open spec fn same_request(a: SearchRequest, b: SearchRequest) -> bool {
    a.url@ == b.url@ && pairs(a.query@) == pairs(b.query@)
}

/// A search is sent to the provider that it is meant for.
pub proof fn lemma_request_goes_to_provider(
    provider: Provider,
    cfg: Config,
    query: &str,
    limit: usize,
    cursor: PageCursor,
    r: Result<SearchRequest, String>,
    giphy: Result<SearchRequest, String>,
    klipy: Result<SearchRequest, String>,
)
    requires
        call_ensures(crate::providers::provider_search, (provider, &cfg, query, limit, &cursor), r),
        call_ensures(crate::providers::giphy_search, (&cfg, query, limit, &cursor), giphy),
        call_ensures(crate::providers::klipy_search, (&cfg, query, limit, &cursor), klipy),
    ensures
        ({
            let meant = match provider {
                Provider::Giphy => giphy,
                Provider::Klipy => klipy,
            };
            &&& r is Ok <==> meant is Ok
            &&& r is Ok ==> same_request(r->Ok_0, meant->Ok_0)
            &&& r is Err ==> r->Err_0@ == meant->Err_0@
        }),
{
}

/// A source that is named is the only one asked. The automatic choice asks GIPHY if
/// there is a key for it, and KLIPY if not; KLIPY stands in for GIPHY only if there
/// are keys for both.
pub proof fn lemma_search_plan(cfg: Config, source: Source, r: SearchPlan)
    requires
        call_ensures(crate::providers::search, (&cfg, source), r),
    ensures
        source == Source::Giphy ==> r.first == Provider::Giphy && r.fallback is None,
        source == Source::Klipy ==> r.first == Provider::Klipy && r.fallback is None,
        source == Source::Auto && cfg.giphy_api_key is Some ==> r.first == Provider::Giphy,
        source == Source::Auto && cfg.giphy_api_key is None ==> r.first == Provider::Klipy
            && r.fallback is None,
        source == Source::Auto && cfg.giphy_api_key is Some && cfg.klipy_api_key is Some
            ==> r.fallback == Some(Provider::Klipy),
        source == Source::Auto && cfg.klipy_api_key is None ==> r.fallback is None,
{
}

/// A cursor goes back to the provider that handed it out, and to no other; the first
/// page is planned as a search is.
pub proof fn lemma_page_plan(
    cfg: Config,
    source: Source,
    cursor: PageCursor,
    r: SearchPlan,
    first: SearchPlan,
)
    requires
        call_ensures(crate::providers::plan_page, (&cfg, source, &cursor), r),
        call_ensures(crate::providers::search, (&cfg, source), first),
    ensures
        cursor is Giphy ==> r.first == Provider::Giphy && r.fallback is None,
        cursor is Klipy ==> r.first == Provider::Klipy && r.fallback is None,
        cursor is Start ==> r == first,
{
}

/// A provider that answered has the last word, and so has one without a fallback; if
/// one with a fallback fails, the fallback is asked, and nobody after it.
pub proof fn lemma_fallback(plan: SearchPlan, outcome: Result<SearchPage, String>, r: SearchStep)
    requires
        call_ensures(SearchPlan::after, (plan, outcome), r),
    ensures
        outcome is Ok || plan.fallback is None ==> r == SearchStep::Finished(outcome),
        outcome is Err && plan.fallback is Some ==> r is Ask && r->Ask_0.first
            == plan.fallback->0 && r->Ask_0.fallback is None,
{
}

/// A search that was turned down is told with the provider, the status and its words.
pub proof fn lemma_search_failure(provider: Provider, status: &str, error: &str, r: String)
    requires
        call_ensures(crate::providers::search_failure, (provider, status, error), r),
    ensures
        provider == Provider::Giphy ==> r@ == "giphy"@ + " search failed ("@ + status@ + "): "@
            + error@,
        provider == Provider::Klipy ==> r@ == "klipy"@ + " search failed ("@ + status@ + "): "@
            + error@,
{
}

/// Whether two texts are the same but for the case of ASCII letters.
pub open spec fn same_letters(a: Seq<char>, b: Seq<char>) -> bool {
    &&& a.len() == b.len()
    &&& forall|i: int|
        0 <= i < a.len() ==> {
            ||| #[trigger] a[i] == b[i]
            ||| 'A' <= a[i] <= 'Z' && a[i] as u32 + 32 == b[i] as u32
        }
}

proof fn lemma_lowered(a: Seq<char>, b: Seq<char>)
    requires
        forall|i: int| 0 <= i < b.len() ==> 'a' <= #[trigger] b[i] <= 'z',
    ensures
        crate::text::ascii_lowercase(a) == b <==> same_letters(a, b),
{
    let low = crate::text::ascii_lowercase(a);
    if low == b {
        assert forall|i: int| 0 <= i < a.len() implies {
            ||| #[trigger] a[i] == b[i]
            ||| 'A' <= a[i] <= 'Z' && a[i] as u32 + 32 == b[i] as u32
        } by {
            assert(low[i] == b[i]);
        }
    }
    if same_letters(a, b) {
        assert forall|i: int| 0 <= i < b.len() implies low[i] == b[i] by {
            assert(a[i] == b[i] || 'A' <= a[i] <= 'Z');
        }
        assert(low == b);
    }
}

/// Sources go by their names in any case, KLIPY by that of Tenor too; any other name
/// is an error.
pub proof fn lemma_source_names(s: &str, r: Result<Source, String>, lower: String)
    requires
        call_ensures(Source::parse, (s,), r),
        call_ensures(crate::text::to_ascii_lowercase, (s,), lower),
    ensures
        r is Err ==> r->Err_0@ == "unknown source '"@ + lower@
            + "' (expected auto|giphy|klipy|tenor)"@,
        r == Ok::<Source, String>(Source::Auto) <==> same_letters(s@, "auto"@),
        r == Ok::<Source, String>(Source::Giphy) <==> same_letters(s@, "giphy"@),
        r == Ok::<Source, String>(Source::Klipy) <==> same_letters(s@, "klipy"@) || same_letters(
            s@,
            "tenor"@,
        ),
{
    reveal_strlit("auto");
    reveal_strlit("giphy");
    reveal_strlit("klipy");
    reveal_strlit("tenor");
    lemma_lowered(s@, "auto"@);
    lemma_lowered(s@, "giphy"@);
    lemma_lowered(s@, "klipy"@);
    lemma_lowered(s@, "tenor"@);
    assert("giphy"@[0] == 'g' && "klipy"@[0] == 'k' && "tenor"@[0] == 't' && "auto"@.len() == 4
        && "giphy"@.len() == 5);
}

/// A favorite of GIPHY is known by that name in any case; every other is one of
/// KLIPY. Each provider is recorded under its own name.
pub proof fn lemma_provider_names(s: &str, r: Provider, p: Provider, label: &'static str)
    requires
        call_ensures(Provider::from_label, (s,), r),
        call_ensures(Provider::label, (p,), label),
    ensures
        r == Provider::Giphy <==> same_letters(s@, "giphy"@),
        p == Provider::Giphy ==> label@ == "giphy"@,
        p == Provider::Klipy ==> label@ == "klipy"@,
        s@ == label@ ==> r == p,
{
    reveal_strlit("giphy");
    reveal_strlit("klipy");
    lemma_lowered(s@, "giphy"@);
    assert("giphy"@[0] == 'g' && "klipy"@[0] == 'k');
}

} // verus!

//! GIF search providers: what is asked of them and what their replies mean.

use vstd::prelude::*;
use vstd::string::*;

use crate::config::Config;
use crate::text::{ascii_lowercase, decimal, push_decimal, same, to_ascii_lowercase};

verus! {

/// Which GIF backend a result came from.
#[derive(Debug, Clone, Copy, PartialEq, Eq, Structural)]
pub enum Provider {
    Giphy,
    Klipy,
}

/// The name of a provider.
pub open spec fn label_of(p: Provider) -> Seq<char> {
    match p {
        Provider::Giphy => "giphy"@,
        Provider::Klipy => "klipy"@,
    }
}

/// The provider that a name stands for: GIPHY in any mix of upper and lower
/// case, and KLIPY for every other name.
pub open spec fn provider_named(label: Seq<char>) -> Provider {
    if ascii_lowercase(label) == "giphy"@ {
        Provider::Giphy
    } else {
        Provider::Klipy
    }
}

impl Provider {
    /// The name under which favorites record the provider.
    pub fn label(self) -> (r: &'static str)
        ensures
            r@ == label_of(self),
    {
        match self {
            Provider::Giphy => "giphy",
            Provider::Klipy => "klipy",
        }
    }

    /// The provider with the given name; an unknown name counts as KLIPY.
    pub fn from_label(label: &str) -> (r: Provider)
        ensures
            r == provider_named(label@),
    {
        if same(to_ascii_lowercase(label).as_str(), "giphy") {
            Provider::Giphy
        } else {
            Provider::Klipy
        }
    }
}

/// Reading a provider's name gives the provider back.
pub proof fn lemma_labels_round_trip(p: Provider)
    ensures
        provider_named(label_of(p)) == p,
{
    reveal_strlit("giphy");
    reveal_strlit("klipy");
    assert(ascii_lowercase("giphy"@) == "giphy"@);
    assert(ascii_lowercase("klipy"@)[0] == 'k');
    assert("giphy"@[0] == 'g');
}

/// Unified search result across providers.
#[derive(Debug, PartialEq, Eq)]
pub struct GifResult {
    pub id: String,
    pub title: String,
    pub url: String,
    pub preview_url: String,
    pub provider: Provider,
}

impl Clone for GifResult {
    fn clone(&self) -> (r: Self)
        ensures
            r == *self,
    {
        GifResult {
            id: self.id.clone(),
            title: self.title.clone(),
            url: self.url.clone(),
            preview_url: self.preview_url.clone(),
            provider: self.provider,
        }
    }
}

/// Source selection for a search.
#[derive(Debug, Clone, Copy, PartialEq, Eq, Structural)]
pub enum Source {
    Auto,
    Giphy,
    Klipy,
}

/// The source with the given name, if there is one; `tenor` is another name
/// for KLIPY.
pub open spec fn source_named(name: Seq<char>) -> Option<Source> {
    let lower = ascii_lowercase(name);
    if lower == "auto"@ {
        Some(Source::Auto)
    } else if lower == "giphy"@ {
        Some(Source::Giphy)
    } else if lower == "klipy"@ || lower == "tenor"@ {
        Some(Source::Klipy)
    } else {
        None
    }
}

/// What is said of a name that no source has.
pub open spec fn unknown_source(name: Seq<char>) -> Seq<char> {
    "unknown source '"@ + ascii_lowercase(name) + "' (expected auto|giphy|klipy|tenor)"@
}

impl Source {
    /// Reads the name of a source, in any mix of upper and lower case.
    pub fn parse(s: &str) -> (r: Result<Source, String>)
        ensures
            match r {
                Ok(source) => source_named(s@) == Some(source),
                Err(e) => source_named(s@) is None && e@ == unknown_source(s@),
            },
    {
        let lower: String = to_ascii_lowercase(s);
        if same(lower.as_str(), "auto") {
            Ok(Source::Auto)
        } else if same(lower.as_str(), "giphy") {
            Ok(Source::Giphy)
        } else if same(lower.as_str(), "klipy") || same(lower.as_str(), "tenor") {
            Ok(Source::Klipy)
        } else {
            let mut e: String = "unknown source '".to_owned();
            e.append(lower.as_str());
            e.append("' (expected auto|giphy|klipy|tenor)");
            Err(e)
        }
    }
}

/// Where a page of search results starts.
#[derive(Debug, PartialEq, Eq)]
pub enum PageCursor {
    /// The first page.
    Start,
    /// A number of GIPHY results to skip.
    Giphy { offset: usize },
    /// The position that KLIPY handed out with the page before.
    Klipy { pos: String },
}

impl Clone for PageCursor {
    fn clone(&self) -> (r: Self)
        ensures
            r == *self,
    {
        match self {
            PageCursor::Start => PageCursor::Start,
            PageCursor::Giphy { offset } => PageCursor::Giphy { offset: *offset },
            PageCursor::Klipy { pos } => PageCursor::Klipy { pos: pos.clone() },
        }
    }
}

/// The providers of a search: the one to ask, and the one to ask should the
/// first fail.
#[derive(Debug, Clone, Copy, PartialEq, Eq, Structural)]
pub struct SearchPlan {
    pub first: Provider,
    pub fallback: Option<Provider>,
}

/// Which providers a search goes to. An explicit source is the only one asked.
/// Automatic choice takes GIPHY if its key is set and KLIPY if not; with both
/// keys set, KLIPY stands in for a GIPHY that fails.
pub open spec fn planned(source: Source, has_giphy: bool, has_klipy: bool) -> SearchPlan {
    match source {
        Source::Giphy => SearchPlan { first: Provider::Giphy, fallback: None },
        Source::Klipy => SearchPlan { first: Provider::Klipy, fallback: None },
        Source::Auto => SearchPlan {
            first: if has_giphy {
                Provider::Giphy
            } else {
                Provider::Klipy
            },
            fallback: if has_giphy && has_klipy {
                Some(Provider::Klipy)
            } else {
                None
            },
        },
    }
}

/// Decides which providers a search goes to.
pub fn search(cfg: &Config, source: Source) -> (r: SearchPlan)
    ensures
        r == planned(source, cfg.giphy_api_key is Some, cfg.klipy_api_key is Some),
{
    match source {
        Source::Giphy => SearchPlan { first: Provider::Giphy, fallback: None },
        Source::Klipy => SearchPlan { first: Provider::Klipy, fallback: None },
        Source::Auto => {
            let has_giphy: bool = cfg.giphy_api_key.is_some();
            let has_klipy: bool = cfg.klipy_api_key.is_some();
            match (has_giphy, has_klipy) {
                (true, false) => SearchPlan { first: Provider::Giphy, fallback: None },
                (false, _) => SearchPlan { first: Provider::Klipy, fallback: None },
                (true, true) => SearchPlan {
                    first: Provider::Giphy,
                    fallback: Some(Provider::Klipy),
                },
            }
        },
    }
}

/// Decides which providers a page of a search goes to: a cursor that a provider
/// handed out goes back to that provider alone.
pub fn plan_page(cfg: &Config, source: Source, cursor: &PageCursor) -> (r: SearchPlan)
    ensures
        r == match *cursor {
            PageCursor::Start => planned(
                source,
                cfg.giphy_api_key is Some,
                cfg.klipy_api_key is Some,
            ),
            PageCursor::Giphy { .. } => SearchPlan { first: Provider::Giphy, fallback: None },
            PageCursor::Klipy { .. } => SearchPlan { first: Provider::Klipy, fallback: None },
        },
{
    match cursor {
        PageCursor::Start => search(cfg, source),
        PageCursor::Giphy { .. } => SearchPlan { first: Provider::Giphy, fallback: None },
        PageCursor::Klipy { .. } => SearchPlan { first: Provider::Klipy, fallback: None },
    }
}

/// A search to send to a provider: an address and its query parameters.
#[derive(Debug)]
pub struct SearchRequest {
    pub url: String,
    pub query: Vec<(String, String)>,
}

/// The texts of query parameters.
pub open spec fn pairs(query: Seq<(String, String)>) -> Seq<(Seq<char>, Seq<char>)> {
    query.map_values(|p: (String, String)| (p.0@, p.1@))
}

fn push_pair(query: &mut Vec<(String, String)>, name: &str, value: &str)
    ensures
        pairs(final(query)@) == pairs(old(query)@).push((name@, value@)),
{
    query.push((name.to_owned(), value.to_owned()));
    assert(pairs(query@) == pairs(old(query)@).push((name@, value@)));
}

/// The query parameters of a KLIPY search.
pub open spec fn klipy_query(
    query: Seq<char>,
    key: Seq<char>,
    limit: nat,
    cursor: PageCursor,
) -> Seq<(Seq<char>, Seq<char>)> {
    let asked = seq![
        ("q"@, query),
        ("key"@, key),
        ("limit"@, decimal(limit)),
        ("contentfilter"@, "low"@),
        ("media_filter"@, "gif,tinygif,mediumgif,nanogif,preview"@),
    ];
    match cursor {
        PageCursor::Klipy { pos } => asked.push(("pos"@, pos@)),
        _ => asked,
    }
}

/// The search to send to KLIPY; it takes a key.
pub fn klipy_search(cfg: &Config, query: &str, limit: usize, cursor: &PageCursor) -> (r: Result<
    SearchRequest,
    String,
>)
    ensures
        match r {
            Ok(request) => {
                &&& cfg.klipy_api_key is Some
                &&& request.url@ == "https://api.klipy.com/v2/search"@
                &&& pairs(request.query@) == klipy_query(
                    query@,
                    cfg.klipy_api_key->0@,
                    limit as nat,
                    *cursor,
                )
            },
            Err(e) => cfg.klipy_api_key is None && e@ == "KLIPY_API_KEY is not configured"@,
        },
{
    match &cfg.klipy_api_key {
        None => Err("KLIPY_API_KEY is not configured".to_owned()),
        Some(key) => {
            let mut params: Vec<(String, String)> = Vec::new();
            let mut count: String = String::new();
            push_decimal(&mut count, limit as u128);
            assert(count@ == decimal(limit as nat));
            push_pair(&mut params, "q", query);
            push_pair(&mut params, "key", key.as_str());
            push_pair(&mut params, "limit", count.as_str());
            push_pair(&mut params, "contentfilter", "low");
            push_pair(&mut params, "media_filter", "gif,tinygif,mediumgif,nanogif,preview");
            if let PageCursor::Klipy { pos } = cursor {
                push_pair(&mut params, "pos", pos.as_str());
            }
            assert(pairs(params@) == klipy_query(query@, key@, limit as nat, *cursor));
            Ok(SearchRequest { url: "https://api.klipy.com/v2/search".to_owned(), query: params })
        },
    }
}

/// The query parameters of a GIPHY search.
pub open spec fn giphy_query(
    query: Seq<char>,
    key: Seq<char>,
    limit: nat,
    cursor: PageCursor,
) -> Seq<(Seq<char>, Seq<char>)> {
    let asked = seq![
        ("q"@, query),
        ("api_key"@, key),
        ("limit"@, decimal(limit)),
        ("rating"@, "g"@),
    ];
    match cursor {
        PageCursor::Giphy { offset } => asked.push(("offset"@, decimal(offset as nat))),
        _ => asked,
    }
}

/// The search to send to GIPHY; it takes a key.
pub fn giphy_search(cfg: &Config, query: &str, limit: usize, cursor: &PageCursor) -> (r: Result<
    SearchRequest,
    String,
>)
    ensures
        match r {
            Ok(request) => {
                &&& cfg.giphy_api_key is Some
                &&& request.url@ == "https://api.giphy.com/v1/gifs/search"@
                &&& pairs(request.query@) == giphy_query(
                    query@,
                    cfg.giphy_api_key->0@,
                    limit as nat,
                    *cursor,
                )
            },
            Err(e) => cfg.giphy_api_key is None && e@ == "GIPHY_API_KEY is not configured"@,
        },
{
    match &cfg.giphy_api_key {
        None => Err("GIPHY_API_KEY is not configured".to_owned()),
        Some(key) => {
            let mut params: Vec<(String, String)> = Vec::new();
            let mut count: String = String::new();
            push_decimal(&mut count, limit as u128);
            assert(count@ == decimal(limit as nat));
            push_pair(&mut params, "q", query);
            push_pair(&mut params, "api_key", key.as_str());
            push_pair(&mut params, "limit", count.as_str());
            push_pair(&mut params, "rating", "g");
            if let PageCursor::Giphy { offset } = cursor {
                let mut skip: String = String::new();
                push_decimal(&mut skip, *offset as u128);
                assert(skip@ == decimal(*offset as nat));
                push_pair(&mut params, "offset", skip.as_str());
            }
            assert(pairs(params@) == giphy_query(query@, key@, limit as nat, *cursor));
            Ok(
                SearchRequest {
                    url: "https://api.giphy.com/v1/gifs/search".to_owned(),
                    query: params,
                },
            )
        },
    }
}

/// The search to send to a provider.
pub fn provider_search(
    provider: Provider,
    cfg: &Config,
    query: &str,
    limit: usize,
    cursor: &PageCursor,
) -> (r: Result<SearchRequest, String>)
    ensures
        match provider {
            Provider::Giphy => match r {
                Ok(request) => {
                    &&& cfg.giphy_api_key is Some
                    &&& request.url@ == "https://api.giphy.com/v1/gifs/search"@
                    &&& pairs(request.query@) == giphy_query(
                        query@,
                        cfg.giphy_api_key->0@,
                        limit as nat,
                        *cursor,
                    )
                },
                Err(e) => cfg.giphy_api_key is None && e@ == "GIPHY_API_KEY is not configured"@,
            },
            Provider::Klipy => match r {
                Ok(request) => {
                    &&& cfg.klipy_api_key is Some
                    &&& request.url@ == "https://api.klipy.com/v2/search"@
                    &&& pairs(request.query@) == klipy_query(
                        query@,
                        cfg.klipy_api_key->0@,
                        limit as nat,
                        *cursor,
                    )
                },
                Err(e) => cfg.klipy_api_key is None && e@ == "KLIPY_API_KEY is not configured"@,
            },
        },
{
    match provider {
        Provider::Giphy => giphy_search(cfg, query, limit, cursor),
        Provider::Klipy => klipy_search(cfg, query, limit, cursor),
    }
}

/// What is said of a provider that answers with an error status.
pub fn search_failure(provider: Provider, status: &str, error: &str) -> (r: String)
    ensures
        r@ == label_of(provider) + " search failed ("@ + status@ + "): "@ + error@,
{
    let mut out: String = provider.label().to_owned();
    out.append(" search failed (");
    out.append(status);
    out.append("): ");
    out.append(error);
    out
}

/// A media file of a KLIPY result.
#[derive(Debug)]
pub struct KlipyMedia {
    pub url: Option<String>,
}

/// The media files of a KLIPY result that are of use here.
#[derive(Debug)]
pub struct KlipyMediaFormats {
    pub gif: Option<KlipyMedia>,
    pub tinygif: Option<KlipyMedia>,
    pub preview: Option<KlipyMedia>,
}

/// One result of a KLIPY search.
#[derive(Debug)]
pub struct KlipyResult {
    pub id: String,
    pub title: Option<String>,
    pub content_description: Option<String>,
    pub media_formats: KlipyMediaFormats,
}

/// A reply of KLIPY. A missing or empty `next` means that there is no further
/// page.
#[derive(Debug)]
pub struct KlipyResponse {
    pub results: Vec<KlipyResult>,
    pub next: Option<String>,
}

/// The text of an optional string, empty if there is none.
pub open spec fn text_or_empty(s: Option<String>) -> Seq<char> {
    match s {
        Some(t) => t@,
        None => Seq::empty(),
    }
}

/// The address of an optional KLIPY file.
pub open spec fn klipy_url(m: Option<KlipyMedia>) -> Option<String> {
    match m {
        Some(media) => media.url,
        None => None,
    }
}

/// What a KLIPY result says as a search result: titled by its title or else its
/// description, and previewed by the small animation or else the preview file.
pub open spec fn klipy_maps(k: KlipyResult, g: GifResult) -> bool {
    &&& g.id@ == k.id@
    &&& g.title@ == (if k.title is Some {
        k.title->0@
    } else if k.content_description is Some {
        k.content_description->0@
    } else {
        "(untitled)"@
    })
    &&& g.url@ == text_or_empty(klipy_url(k.media_formats.gif))
    &&& g.preview_url@ == text_or_empty(
        if klipy_url(k.media_formats.tinygif) is Some {
            klipy_url(k.media_formats.tinygif)
        } else {
            klipy_url(k.media_formats.preview)
        },
    )
    &&& g.provider == Provider::Klipy
}

fn klipy_media_url(m: Option<KlipyMedia>) -> (r: Option<String>)
    ensures
        r == klipy_url(m),
{
    match m {
        Some(media) => media.url,
        None => None,
    }
}

fn or_empty(s: Option<String>) -> (r: String)
    ensures
        r@ == text_or_empty(s),
{
    match s {
        Some(t) => t,
        None => String::new(),
    }
}

impl KlipyResult {
    /// The search result that this one stands for.
    pub fn into_gif(self) -> (r: GifResult)
        ensures
            klipy_maps(self, r),
    {
        let title: String = match self.title {
            Some(t) => t,
            None => match self.content_description {
                Some(d) => d,
                None => "(untitled)".to_owned(),
            },
        };
        let preview: Option<String> = match klipy_media_url(self.media_formats.tinygif) {
            Some(u) => Some(u),
            None => klipy_media_url(self.media_formats.preview),
        };
        GifResult {
            id: self.id,
            title,
            url: or_empty(klipy_media_url(self.media_formats.gif)),
            preview_url: or_empty(preview),
            provider: Provider::Klipy,
        }
    }
}

/// An image file of a GIPHY result.
#[derive(Debug)]
pub struct GiphyImage {
    pub url: Option<String>,
}

/// The image files of a GIPHY result that are of use here.
#[derive(Debug)]
pub struct GiphyImages {
    pub original: Option<GiphyImage>,
    pub preview_gif: Option<GiphyImage>,
}

/// One result of a GIPHY search.
#[derive(Debug)]
pub struct GiphyResult {
    pub id: String,
    pub title: Option<String>,
    pub images: GiphyImages,
}

/// A reply of GIPHY, with the number of results there are in all.
#[derive(Debug)]
pub struct GiphyResponse {
    pub data: Vec<GiphyResult>,
    pub total_count: Option<usize>,
}

/// The address of an optional GIPHY file.
pub open spec fn giphy_url(m: Option<GiphyImage>) -> Option<String> {
    match m {
        Some(image) => image.url,
        None => None,
    }
}

/// What a GIPHY result says as a search result.
pub open spec fn giphy_maps(k: GiphyResult, g: GifResult) -> bool {
    &&& g.id@ == k.id@
    &&& g.title@ == (if k.title is Some {
        k.title->0@
    } else {
        "(untitled)"@
    })
    &&& g.url@ == text_or_empty(giphy_url(k.images.original))
    &&& g.preview_url@ == text_or_empty(giphy_url(k.images.preview_gif))
    &&& g.provider == Provider::Giphy
}

fn giphy_image_url(m: Option<GiphyImage>) -> (r: Option<String>)
    ensures
        r == giphy_url(m),
{
    match m {
        Some(image) => image.url,
        None => None,
    }
}

impl GiphyResult {
    /// The search result that this one stands for.
    pub fn into_gif(self) -> (r: GifResult)
        ensures
            giphy_maps(self, r),
    {
        let title: String = match self.title {
            Some(t) => t,
            None => "(untitled)".to_owned(),
        };
        GifResult {
            id: self.id,
            title,
            url: or_empty(giphy_image_url(self.images.original)),
            preview_url: or_empty(giphy_image_url(self.images.preview_gif)),
            provider: Provider::Giphy,
        }
    }
}

/// One page of search results, with the cursor of the page after it and the
/// number of results there are in all, as far as the provider reports it.
#[derive(Debug)]
pub struct SearchPage {
    pub results: Vec<GifResult>,
    pub next: Option<PageCursor>,
    pub total: Option<usize>,
}

/// The results of a KLIPY reply, in order. KLIPY names the page after this one
/// and reports no total.
pub fn klipy_page(reply: KlipyResponse) -> (r: SearchPage)
    ensures
        r.results@.len() == reply.results@.len(),
        forall|i: int|
            0 <= i < r.results@.len() ==> klipy_maps(reply.results@[i], #[trigger] r.results@[i]),
        r.next == (match reply.next {
            Some(pos) if pos@.len() > 0 => Some(PageCursor::Klipy { pos }),
            _ => None,
        }),
        r.total is None,
{
    let mut results: Vec<GifResult> = Vec::new();
    let given: Vec<KlipyResult> = reply.results;
    for k in it: given
        invariant
            it.seq() == given@,
            results@.len() == it.index(),
            forall|i: int|
                0 <= i < results@.len() ==> klipy_maps(given@[i], #[trigger] results@[i]),
    {
        results.push(k.into_gif());
    }
    let next: Option<PageCursor> = match reply.next {
        Some(pos) => if pos.as_str().is_empty() {
            None
        } else {
            Some(PageCursor::Klipy { pos })
        },
        None => None,
    };
    SearchPage { results, next, total: None }
}

/// Where the GIPHY page after this one starts: past the results seen so far,
/// as long as there are more.
pub open spec fn giphy_next(skipped: nat, got: nat, total: Option<usize>) -> Option<PageCursor> {
    let seen = skipped + got;
    if got == 0 || seen > usize::MAX || (total is Some && seen >= total->0) {
        None
    } else {
        Some(PageCursor::Giphy { offset: seen as usize })
    }
}

/// How many results a cursor skips at GIPHY.
pub open spec fn skipped_by(cursor: PageCursor) -> nat {
    match cursor {
        PageCursor::Giphy { offset } => offset as nat,
        _ => 0,
    }
}

/// The results of a GIPHY reply to a search at `cursor`, in order.
pub fn giphy_page(reply: GiphyResponse, cursor: &PageCursor) -> (r: SearchPage)
    ensures
        r.results@.len() == reply.data@.len(),
        forall|i: int|
            0 <= i < r.results@.len() ==> giphy_maps(reply.data@[i], #[trigger] r.results@[i]),
        r.next == giphy_next(skipped_by(*cursor), reply.data@.len(), reply.total_count),
        r.total == reply.total_count,
{
    let mut results: Vec<GifResult> = Vec::new();
    let given: Vec<GiphyResult> = reply.data;
    for k in it: given
        invariant
            it.seq() == given@,
            results@.len() == it.index(),
            forall|i: int|
                0 <= i < results@.len() ==> giphy_maps(given@[i], #[trigger] results@[i]),
    {
        results.push(k.into_gif());
    }
    let skipped: usize = match cursor {
        PageCursor::Giphy { offset } => *offset,
        _ => 0,
    };
    let next: Option<PageCursor> = if results.len() == 0 {
        None
    } else {
        match skipped.checked_add(results.len()) {
            None => None,
            Some(seen) => match reply.total_count {
                Some(total) if seen >= total => None,
                _ => Some(PageCursor::Giphy { offset: seen }),
            },
        }
    };
    SearchPage { results, next, total: reply.total_count }
}

/// What follows once a provider was asked.
#[derive(Debug)]
pub enum SearchStep {
    /// Nothing: this is what came of the search.
    Finished(Result<SearchPage, String>),
    /// Another provider is asked.
    Ask(SearchPlan),
}

impl SearchPlan {
    /// What follows once the first provider was asked: should it have failed,
    /// the fallback is asked in its place, and nobody after that.
    pub open spec fn step(self, outcome: Result<SearchPage, String>) -> SearchStep {
        match (outcome, self.fallback) {
            (Err(_), Some(provider)) => SearchStep::Ask(
                SearchPlan { first: provider, fallback: None },
            ),
            _ => SearchStep::Finished(outcome),
        }
    }

    /// Takes what came of asking the first provider. Where a fallback is asked,
    /// the failure of the first one is not told.
    pub fn after(self, outcome: Result<SearchPage, String>) -> (r: SearchStep)
        ensures
            r == self.step(outcome),
    {
        match (outcome, self.fallback) {
            (Err(_), Some(provider)) => SearchStep::Ask(
                SearchPlan { first: provider, fallback: None },
            ),
            (outcome, _) => SearchStep::Finished(outcome),
        }
    }
}

/// A search asks one provider and, if that fails, one more at most: the fallback
/// has the last word. Only the automatic choice with both keys set has one, and
/// it is KLIPY in the place of a GIPHY that failed.
pub proof fn lemma_search_falls_back(
    source: Source,
    has_giphy: bool,
    has_klipy: bool,
    first: Result<SearchPage, String>,
    second: Result<SearchPage, String>,
)
    ensures
        ({
            let plan = planned(source, has_giphy, has_klipy);
            match plan.step(first) {
                SearchStep::Finished(r) => {
                    &&& r == first
                    &&& first is Ok || source != Source::Auto || !has_giphy || !has_klipy
                },
                SearchStep::Ask(other) => {
                    &&& first is Err
                    &&& source == Source::Auto && has_giphy && has_klipy
                    &&& plan.first == Provider::Giphy
                    &&& other.first == Provider::Klipy
                    &&& other.step(second) == SearchStep::Finished(second)
                },
            }
        }),
{
}

} // verus!

use gifdeck::config::Config;
use gifdeck::providers::{
    giphy_page, giphy_search, klipy_page, klipy_search, plan_page, provider_search, search,
    search_failure, GiphyImage, GiphyImages, GiphyResponse, GiphyResult, KlipyMedia,
    KlipyMediaFormats, KlipyResponse, KlipyResult, PageCursor, Provider, SearchPage,
    SearchPlan, SearchStep, Source,
};
use serde_json::Value;

fn text(v: &Value) -> Option<String> {
    v.as_str().map(|s| s.to_string())
}

fn media(v: &Value) -> Option<KlipyMedia> {
    if v.is_object() {
        Some(KlipyMedia { url: text(&v["url"]) })
    } else {
        None
    }
}

fn klipy(json: &str) -> KlipyResponse {
    let v: Value = serde_json::from_str(json).unwrap();
    KlipyResponse {
        results: v["results"]
            .as_array()
            .unwrap()
            .iter()
            .map(|r| KlipyResult {
                id: text(&r["id"]).unwrap(),
                title: text(&r["title"]),
                content_description: text(&r["content_description"]),
                media_formats: KlipyMediaFormats {
                    gif: media(&r["media_formats"]["gif"]),
                    tinygif: media(&r["media_formats"]["tinygif"]),
                    preview: media(&r["media_formats"]["preview"]),
                },
            })
            .collect(),
        next: text(&v["next"]),
    }
}

fn image(v: &Value) -> Option<GiphyImage> {
    if v.is_object() {
        Some(GiphyImage { url: text(&v["url"]) })
    } else {
        None
    }
}

fn giphy(json: &str) -> GiphyResponse {
    let v: Value = serde_json::from_str(json).unwrap();
    GiphyResponse {
        data: v["data"]
            .as_array()
            .unwrap()
            .iter()
            .map(|r| GiphyResult {
                id: text(&r["id"]).unwrap(),
                title: text(&r["title"]),
                images: GiphyImages {
                    original: image(&r["images"]["original"]),
                    preview_gif: image(&r["images"]["preview_gif"]),
                },
            })
            .collect(),
        total_count: v["pagination"]["total_count"].as_u64().map(|n| n as usize),
    }
}

fn keys(klipy: Option<&str>, giphy: Option<&str>) -> Config {
    Config {
        klipy_api_key: klipy.map(String::from),
        giphy_api_key: giphy.map(String::from),
        ..Config::default()
    }
}

#[test]
fn source_parse() {
    assert_eq!(Source::parse("auto").unwrap(), Source::Auto);
    assert_eq!(Source::parse("GIPHY").unwrap(), Source::Giphy);
    assert_eq!(Source::parse("klipy").unwrap(), Source::Klipy);
    assert_eq!(Source::parse("tenor").unwrap(), Source::Klipy);
    assert!(Source::parse("bing").is_err());
}

#[test]
fn unknown_source_is_named_in_lower_case() {
    assert_eq!(
        Source::parse("Bing").unwrap_err(),
        "unknown source 'bing' (expected auto|giphy|klipy|tenor)"
    );
    assert!(Source::parse("").is_err());
}

#[test]
fn provider_labels_round_trip() {
    assert_eq!(Provider::Giphy.label(), "giphy");
    assert_eq!(Provider::Klipy.label(), "klipy");
    assert_eq!(Provider::from_label("giphy"), Provider::Giphy);
    assert_eq!(Provider::from_label("GIPHY"), Provider::Giphy);
    assert_eq!(Provider::from_label("klipy"), Provider::Klipy);
    assert_eq!(Provider::from_label("weird"), Provider::Klipy);
}

#[test]
fn klipy_preview_prefers_animated_tinygif() {
    let json = r#"
        {
          "results": [
            {
              "id": "k4",
              "content_description": "tiny animated cat",
              "tags": [],
              "media_formats": {
                "gif": { "url": "https://static.klipy.com/gifs/k4.gif" },
                "tinygif": { "url": "https://static.klipy.com/tiny/k4.gif" },
                "preview": { "url": "https://static.klipy.com/previews/k4.jpg" }
              }
            }
          ]
        }"#;
    let parsed = klipy(json);
    let gif = parsed.results.into_iter().next().unwrap().into_gif();
    assert_eq!(gif.preview_url, "https://static.klipy.com/tiny/k4.gif");
}

#[test]
fn klipy_preview_falls_back_to_preview_media() {
    let json = r#"
        {
          "results": [
            {
              "id": "k5",
              "content_description": "no tinygif",
              "tags": [],
              "media_formats": {
                "gif": { "url": "https://static.klipy.com/gifs/k5.gif" },
                "preview": { "url": "https://static.klipy.com/previews/k5.jpg" }
              }
            }
          ]
        }"#;
    let parsed = klipy(json);
    let gif = parsed.results.into_iter().next().unwrap().into_gif();
    assert_eq!(gif.preview_url, "https://static.klipy.com/previews/k5.jpg");
}

#[test]
fn parse_klipy_response() {
    let json = r#"
        {
          "results": [
            {
              "id": "k1",
              "title": "Cat dance",
              "content_description": "cat dance",
              "tags": ["cat"],
              "media_formats": {
                "gif": { "url": "https://static.klipy.com/gifs/k1.gif" },
                "preview": { "url": "https://static.klipy.com/previews/k1.gif" },
                "tinygif": { "url": "https://static.klipy.com/tiny/k1.gif" }
              }
            }
          ]
        }"#;
    let parsed = klipy(json);
    assert_eq!(parsed.results.len(), 1);
    let r = &parsed.results[0];
    assert_eq!(r.id, "k1");
    assert_eq!(
        r.media_formats.gif.as_ref().unwrap().url.as_deref(),
        Some("https://static.klipy.com/gifs/k1.gif")
    );
    assert_eq!(
        r.media_formats.preview.as_ref().unwrap().url.as_deref(),
        Some("https://static.klipy.com/previews/k1.gif")
    );
}

#[test]
fn klipy_result_maps_fields_and_title_fallback() {
    let json = r#"
        {
          "results": [
            {
              "id": "k2",
              "content_description": "a very descriptive cat",
              "tags": [],
              "media_formats": {
                "gif": { "url": "https://static.klipy.com/gifs/k2.gif" },
                "preview": { "url": "https://static.klipy.com/previews/k2.gif" }
              }
            }
          ]
        }"#;
    let parsed = klipy(json);
    let gif = parsed.results.into_iter().next().unwrap().into_gif();
    assert_eq!(gif.id, "k2");
    assert_eq!(gif.title, "a very descriptive cat");
    assert_eq!(gif.url, "https://static.klipy.com/gifs/k2.gif");
    assert_eq!(gif.preview_url, "https://static.klipy.com/previews/k2.gif");
    assert_eq!(gif.provider, Provider::Klipy);
}

#[test]
fn klipy_result_untitled_fallback() {
    let json = r#"
        {
          "results": [
            {
              "id": "k3",
              "tags": [],
              "media_formats": { "gif": { "url": "https://static.klipy.com/gifs/k3.gif" } }
            }
          ]
        }"#;
    let parsed = klipy(json);
    let gif = parsed.results.into_iter().next().unwrap().into_gif();
    assert_eq!(gif.title, "(untitled)");
    assert_eq!(gif.provider, Provider::Klipy);
}

#[test]
fn parse_giphy_response() {
    let json = r#"
        {
          "data": [
            {
              "id": "g1",
              "title": "happy cat",
              "images": {
                "original": { "url": "https://media.giphy.com/media/g1/original.gif" },
                "preview_gif": { "url": "https://media.giphy.com/media/g1/preview.gif" },
                "fixed_width_small": { "url": "https://media.giphy.com/media/g1/fw.gif" }
              }
            }
          ]
        }"#;
    let parsed = giphy(json);
    assert_eq!(parsed.data.len(), 1);
    let r = &parsed.data[0];
    assert_eq!(r.id, "g1");
    assert_eq!(
        r.images.original.as_ref().unwrap().url.as_deref(),
        Some("https://media.giphy.com/media/g1/original.gif")
    );
    assert_eq!(
        r.images.preview_gif.as_ref().unwrap().url.as_deref(),
        Some("https://media.giphy.com/media/g1/preview.gif")
    );
}

#[test]
fn giphy_results_map_fields() {
    let reply = giphy(
        r#"{"data": [
            {"id": "g1", "title": "t", "images": {
                "original": {"url": "https://o/1.gif"},
                "preview_gif": {"url": "https://p/1.gif"}}},
            {"id": "g2", "images": {"original": {}}}
        ], "pagination": {"total_count": 120}}"#,
    );
    let page = giphy_page(reply, &PageCursor::Giphy { offset: 50 });
    assert_eq!(page.results.len(), 2);
    assert_eq!(page.results[0].url, "https://o/1.gif");
    assert_eq!(page.results[0].preview_url, "https://p/1.gif");
    assert_eq!(page.results[0].provider, Provider::Giphy);
    assert_eq!(page.results[1].title, "(untitled)");
    assert_eq!(page.results[1].url, "");
    assert_eq!(page.results[1].preview_url, "");
    assert_eq!(page.next, Some(PageCursor::Giphy { offset: 52 }));
    assert_eq!(page.total, Some(120));
}

#[test]
fn giphy_paging_ends_at_the_total() {
    let one = || giphy(r#"{"data": [{"id": "g", "images": {}}], "pagination": {"total_count": 1}}"#);
    assert_eq!(giphy_page(one(), &PageCursor::Start).next, None);
    let unknown = giphy(r#"{"data": [{"id": "g", "images": {}}]}"#);
    assert_eq!(
        giphy_page(unknown, &PageCursor::Start).next,
        Some(PageCursor::Giphy { offset: 1 })
    );
    let none = giphy(r#"{"data": []}"#);
    assert_eq!(giphy_page(none, &PageCursor::Start).next, None);
}

#[test]
fn klipy_paging_follows_the_cursor() {
    let page = klipy_page(klipy(r#"{"results": [], "next": "abc"}"#));
    assert_eq!(
        page.next,
        Some(PageCursor::Klipy {
            pos: "abc".to_string()
        })
    );
    assert_eq!(page.total, None);
    assert_eq!(klipy_page(klipy(r#"{"results": [], "next": ""}"#)).next, None);
    assert_eq!(klipy_page(klipy(r#"{"results": []}"#)).next, None);
}

fn pairs(query: &[(String, String)]) -> Vec<(&str, &str)> {
    query.iter().map(|(a, b)| (a.as_str(), b.as_str())).collect()
}

#[test]
fn klipy_request_parameters() {
    let cfg = keys(Some("kk"), None);
    let r = klipy_search(&cfg, "cat dance", 20, &PageCursor::Start).unwrap();
    assert_eq!(r.url, "https://api.klipy.com/v2/search");
    assert_eq!(
        pairs(&r.query),
        vec![
            ("q", "cat dance"),
            ("key", "kk"),
            ("limit", "20"),
            ("contentfilter", "low"),
            ("media_filter", "gif,tinygif,mediumgif,nanogif,preview"),
        ]
    );
    let paged = klipy_search(
        &cfg,
        "cat",
        50,
        &PageCursor::Klipy {
            pos: "p2".to_string(),
        },
    )
    .unwrap();
    assert_eq!(pairs(&paged.query)[5], ("pos", "p2"));
    assert_eq!(
        klipy_search(&keys(None, Some("g")), "cat", 1, &PageCursor::Start).unwrap_err(),
        "KLIPY_API_KEY is not configured"
    );
}

#[test]
fn giphy_request_parameters() {
    let cfg = keys(None, Some("gg"));
    let r = giphy_search(&cfg, "cat", 7, &PageCursor::Start).unwrap();
    assert_eq!(r.url, "https://api.giphy.com/v1/gifs/search");
    assert_eq!(
        pairs(&r.query),
        vec![("q", "cat"), ("api_key", "gg"), ("limit", "7"), ("rating", "g")]
    );
    let paged = giphy_search(&cfg, "cat", 50, &PageCursor::Giphy { offset: 100 }).unwrap();
    assert_eq!(pairs(&paged.query)[4], ("offset", "100"));
    assert_eq!(
        giphy_search(&keys(Some("k"), None), "cat", 1, &PageCursor::Start).unwrap_err(),
        "GIPHY_API_KEY is not configured"
    );
}

#[test]
fn provider_search_goes_to_the_provider() {
    let cfg = keys(Some("k"), Some("g"));
    let at = |p| {
        provider_search(p, &cfg, "cat", 5, &PageCursor::Start)
            .unwrap()
            .url
    };
    assert_eq!(at(Provider::Giphy), "https://api.giphy.com/v1/gifs/search");
    assert_eq!(at(Provider::Klipy), "https://api.klipy.com/v2/search");
}

#[test]
fn search_plan_follows_source_and_keys() {
    let plan = |k, g, s| search(&keys(k, g), s);
    let only = |p| SearchPlan {
        first: p,
        fallback: None,
    };
    assert_eq!(plan(Some("k"), Some("g"), Source::Giphy), only(Provider::Giphy));
    assert_eq!(plan(Some("k"), Some("g"), Source::Klipy), only(Provider::Klipy));
    assert_eq!(plan(None, Some("g"), Source::Auto), only(Provider::Giphy));
    assert_eq!(plan(Some("k"), None, Source::Auto), only(Provider::Klipy));
    assert_eq!(plan(None, None, Source::Auto), only(Provider::Klipy));
    assert_eq!(
        plan(Some("k"), Some("g"), Source::Auto),
        SearchPlan {
            first: Provider::Giphy,
            fallback: Some(Provider::Klipy)
        }
    );
}

#[test]
fn page_plan_stays_with_the_provider_of_the_cursor() {
    let cfg = keys(Some("k"), Some("g"));
    let klipy_cursor = PageCursor::Klipy {
        pos: "x".to_string(),
    };
    let plan = plan_page(&cfg, Source::Auto, &klipy_cursor);
    assert_eq!((plan.first, plan.fallback), (Provider::Klipy, None));
    let plan = plan_page(&cfg, Source::Auto, &PageCursor::Giphy { offset: 50 });
    assert_eq!((plan.first, plan.fallback), (Provider::Giphy, None));
    let plan = plan_page(&cfg, Source::Auto, &PageCursor::Start);
    assert_eq!(
        (plan.first, plan.fallback),
        (Provider::Giphy, Some(Provider::Klipy))
    );
}

#[test]
fn search_failures_name_provider_and_status() {
    assert_eq!(
        search_failure(Provider::Klipy, "404 Not Found", "gone"),
        "klipy search failed (404 Not Found): gone"
    );
    assert_eq!(
        search_failure(Provider::Giphy, "500", "x"),
        "giphy search failed (500): x"
    );
}

fn empty_page() -> SearchPage {
    SearchPage {
        results: Vec::new(),
        next: None,
        total: None,
    }
}

#[test]
fn a_failed_search_falls_back_once() {
    let plan = search(&keys(Some("k"), Some("g")), Source::Auto);
    assert_eq!(plan.first, Provider::Giphy);
    let SearchStep::Ask(other) = plan.after(Err("giphy down".to_string())) else {
        panic!("the fallback is not asked");
    };
    assert_eq!(other.first, Provider::Klipy);
    assert!(matches!(
        other.after(Err("klipy down".to_string())),
        SearchStep::Finished(Err(e)) if e == "klipy down"
    ));
    assert!(matches!(
        other.after(Ok(empty_page())),
        SearchStep::Finished(Ok(_))
    ));
}

#[test]
fn a_search_that_succeeds_or_has_no_fallback_is_finished() {
    let both = search(&keys(Some("k"), Some("g")), Source::Auto);
    assert!(matches!(
        both.after(Ok(empty_page())),
        SearchStep::Finished(Ok(_))
    ));
    let one = search(&keys(None, Some("g")), Source::Auto);
    assert!(matches!(
        one.after(Err("down".to_string())),
        SearchStep::Finished(Err(e)) if e == "down"
    ));
}

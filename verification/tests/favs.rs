use gifdeck::config::Config;
use gifdeck::favs::{
    delete_reply, describe_error, increment_use_reply, list_page_reply, list_reply, now_epoch,
    save_reply, urlenc, FavItem, FavsBackend, FavsClient, Method, Reply, UseCount,
};
use gifdeck::providers::{GifResult, Provider};
use gifdeck::store::LocalStore;
use serde_json::Value;

fn test_gif() -> GifResult {
    GifResult {
        id: "abc123".into(),
        title: "test gif".into(),
        url: "https://static.klipy.com/gifs/abc123.gif".into(),
        preview_url: "https://static.klipy.com/previews/abc123.gif".into(),
        provider: Provider::Klipy,
    }
}

fn client_for(base: &str) -> FavsClient {
    let cfg = Config {
        klipy_api_key: None,
        giphy_api_key: None,
        favorites_api: Some(base.to_string()),
        favorites_token: Some("sekret".to_string()),
        favorites_mode: None,
    };
    FavsClient::new(&cfg).unwrap()
}

fn text(v: &Value) -> String {
    v.as_str().unwrap_or("").to_string()
}

fn item(v: &Value) -> FavItem {
    FavItem {
        id: text(&v["id"]),
        url: text(&v["url"]),
        preview: text(&v["preview"]),
        provider: text(&v["provider"]),
        title: text(&v["title"]),
        use_count: v["use_count"].as_u64().unwrap_or(0),
        added_at: v["added_at"].as_str().map(String::from),
        last_used: v["last_used"].as_str().map(String::from),
    }
}

fn list(status: u16, total: Option<&str>, body: &str) -> Reply<Vec<FavItem>> {
    let v: Value = serde_json::from_str(body).unwrap();
    Reply {
        status,
        total_count: total.map(String::from),
        body: match v.as_array() {
            Some(a) => Ok(a.iter().map(item).collect()),
            None => Err("not a list".into()),
        },
        error: v["error"].as_str().map(String::from),
    }
}

#[test]
fn list_returns_items() {
    let client = client_for("http://server");
    let request = client.list();
    assert_eq!(request.method, Method::Get);
    assert_eq!(request.url, "http://server/favorites?limit=0&offset=0");
    assert_eq!(request.token.as_deref(), Some("sekret"));
    let items = list_reply(list(
        200,
        None,
        r#"[{
            "id": "a1",
            "url": "https://static.klipy.com/gifs/a1.gif",
            "preview": "https://static.klipy.com/previews/a1.gif",
            "provider": "klipy",
            "title": "cool gif",
            "use_count": 3,
            "added_at": "2026-01-01T00:00:00Z",
            "last_used": null
        }]"#,
    ))
    .unwrap();
    assert_eq!(items.len(), 1);
    assert_eq!(items[0].id, "a1");
    assert_eq!(items[0].use_count, 3);
    assert_eq!(items[0].provider, "klipy");
}

#[test]
fn list_page_sends_limit_and_offset() {
    let client = client_for("http://server");
    let request = client.list_page(50, 50);
    assert_eq!(request.method, Method::Get);
    assert_eq!(request.url, "http://server/favorites?limit=50&offset=50");
    assert!(request.body.is_none());
    let page = list_page_reply(list(200, Some("137"), "[]")).unwrap();
    assert!(page.items.is_empty());
    assert_eq!(page.total, Some(137));
}

#[test]
fn list_page_total_absent_is_none() {
    let page = list_page_reply(list(200, None, "[]")).unwrap();
    assert!(page.items.is_empty());
    assert_eq!(page.total, None);
}

#[test]
fn list_page_total_is_trimmed_and_must_be_a_count() {
    let total = |h| list_page_reply(list(200, Some(h), "[]")).unwrap().total;
    assert_eq!(total(" 42 "), Some(42));
    assert_eq!(total("many"), None);
    assert_eq!(total(""), None);
}

#[test]
fn list_empty_is_ok() {
    let items = list_reply(list(200, None, "[]")).unwrap();
    assert!(items.is_empty());
}

#[test]
fn list_that_cannot_be_read_is_an_error() {
    let reply = list(200, None, r#"{"x": 1}"#);
    assert_eq!(
        list_page_reply(reply).unwrap_err(),
        "failed to parse favorites list: not a list"
    );
}

#[test]
fn save_upserts() {
    let client = client_for("http://server/");
    let request = client.save(&test_gif());
    assert_eq!(request.method, Method::Post);
    assert_eq!(request.url, "http://server/favorites");
    assert_eq!(request.token.as_deref(), Some("sekret"));
    let body = request.body.unwrap();
    assert_eq!(body.id, "abc123");
    assert_eq!(body.url, "https://static.klipy.com/gifs/abc123.gif");
    assert_eq!(body.preview, "https://static.klipy.com/previews/abc123.gif");
    assert_eq!(body.provider, "klipy");
    assert_eq!(body.title, "test gif");

    let v: Value = serde_json::from_str(
        r#"{
            "id": "abc123",
            "url": "https://static.klipy.com/gifs/abc123.gif",
            "preview": "https://static.klipy.com/previews/abc123.gif",
            "provider": "klipy",
            "title": "test gif",
            "use_count": 1
        }"#,
    )
    .unwrap();
    let saved = save_reply(Reply {
        status: 200,
        total_count: None,
        body: Ok(item(&v)),
        error: None,
    })
    .unwrap();
    assert_eq!(saved.id, "abc123");
    assert_eq!(saved.use_count, 1);
}

#[test]
fn save_failures_are_described() {
    let reply = |status, body: Result<FavItem, String>, error: Option<&str>| Reply {
        status,
        total_count: None,
        body,
        error: error.map(String::from),
    };
    assert_eq!(
        save_reply(reply(502, Err("x".into()), Some("upstream down"))).unwrap_err(),
        "failed to save favorite: HTTP 502 (upstream down)"
    );
    assert_eq!(
        save_reply(reply(201, Err("bad json".into()), None)).unwrap_err(),
        "failed to parse saved favorite: bad json"
    );
}

#[test]
fn increment_use() {
    let client = client_for("http://server");
    let request = client.increment_use("abc123");
    assert_eq!(request.method, Method::Patch);
    assert_eq!(request.url, "http://server/favorites/abc123/use");
    assert_eq!(request.token.as_deref(), Some("sekret"));
    let use_count = increment_use_reply(Reply {
        status: 200,
        total_count: None,
        body: Ok(UseCount {
            id: "abc123".into(),
            use_count: 7,
            last_used: Some("2026-09-06T00:00:00Z".into()),
        }),
        error: None,
    })
    .unwrap();
    assert_eq!(use_count.use_count, 7);
}

#[test]
fn increment_use_failures_are_described() {
    let reply = |status| Reply::<UseCount> {
        status,
        total_count: None,
        body: Err("eof".into()),
        error: None,
    };
    assert_eq!(
        increment_use_reply(reply(404)).unwrap_err(),
        "failed to increment favorite use: HTTP 404"
    );
    assert_eq!(
        increment_use_reply(reply(200)).unwrap_err(),
        "failed to parse use-count response: eof"
    );
}

#[test]
fn delete_no_content() {
    let client = client_for("http://server");
    let request = client.delete("abc123");
    assert_eq!(request.method, Method::Delete);
    assert_eq!(request.url, "http://server/favorites/abc123");
    assert_eq!(request.token.as_deref(), Some("sekret"));
    delete_reply(204, None).unwrap();
}

#[test]
fn unauthorized_returns_descriptive_error() {
    let err = list_reply(list(401, None, r#"{"error": "invalid token"}"#)).unwrap_err();
    assert!(err.contains("401"), "got: {err}");
    assert!(err.contains("invalid token"), "got: {err}");
}

#[test]
fn not_found_on_delete() {
    assert_eq!(
        client_for("http://server").delete("nope").url,
        "http://server/favorites/nope"
    );
    let err = delete_reply(404, Some("no such favorite".into())).unwrap_err();
    assert!(err.contains("404"), "got: {err}");
    assert!(err.contains("no such favorite"), "got: {err}");
}

#[test]
fn server_error_is_descriptive() {
    let err = list_reply(list(502, None, r#"{"error": "upstream down"}"#)).unwrap_err();
    assert!(err.contains("502"), "got: {err}");
    assert!(err.contains("upstream down"), "got: {err}");
    assert_eq!(err, "failed to list favorites: HTTP 502 (upstream down)");
}

#[test]
fn empty_error_words_are_left_out() {
    assert_eq!(
        describe_error("delete favorite", 500, &Some(String::new())),
        "failed to delete favorite: HTTP 500"
    );
    assert_eq!(
        delete_reply(300, None).unwrap_err(),
        "failed to delete favorite: HTTP 300"
    );
    assert_eq!(delete_reply(299, None), Ok(()));
    assert!(delete_reply(199, None).is_err());
}

#[test]
fn urlenc_escapes_all_but_unreserved() {
    assert_eq!(urlenc("aZ09-_.~"), "aZ09-_.~");
    assert_eq!(urlenc("a b/c?%"), "a%20b%2Fc%3F%25");
    assert_eq!(urlenc("ä★"), "%C3%A4%E2%98%85");
    assert_eq!(urlenc(""), "");
    assert_eq!(
        client_for("http://s").delete("a/b").url,
        "http://s/favorites/a%2Fb"
    );
}

#[test]
fn base_loses_its_trailing_slashes() {
    assert_eq!(client_for("http://s///").base, "http://s");
    assert_eq!(client_for("/").base, "");
    let err = FavsClient::new(&Config::default()).unwrap_err();
    assert_eq!(err, "GIFDECK_FAVORITES_API is not configured");
}

#[test]
fn requests_without_a_token_have_none() {
    let cfg = Config {
        favorites_api: Some("http://s".into()),
        ..Config::default()
    };
    let client = FavsClient::new(&cfg).unwrap();
    assert_eq!(client.list().token, None);
    assert_eq!(client.delete("x").token, None);
}

#[test]
fn backend_follows_the_mode() {
    let local = || LocalStore::at("/tmp/f.json".to_string());
    let mut cfg = Config {
        favorites_api: Some("http://s".into()),
        favorites_token: Some("t".into()),
        ..Config::default()
    };
    assert!(!FavsBackend::choose_for(&cfg, local()).unwrap().is_local());
    cfg.favorites_mode = Some("local".into());
    assert!(FavsBackend::choose_for(&cfg, local()).unwrap().is_local());
    cfg.favorites_mode = Some("server".into());
    cfg.favorites_api = None;
    assert_eq!(
        FavsBackend::choose_for(&cfg, local()).unwrap_err(),
        "GIFDECK_FAVORITES_API is not configured"
    );
    assert!(FavsBackend::choose_for(&Config::default(), local())
        .unwrap()
        .is_local());
}

#[test]
fn new_favorites_record_the_time() {
    let fav = FavItem::from_gif(&test_gif(), now_epoch(1_790_000_000));
    assert_eq!(fav.id, "abc123");
    assert_eq!(fav.preview, "https://static.klipy.com/previews/abc123.gif");
    assert_eq!(fav.provider, "klipy");
    assert_eq!(fav.added_at.as_deref(), Some("1790000000"));
    assert_eq!(fav.use_count, 0);
    assert!(fav.last_used.is_none());
}

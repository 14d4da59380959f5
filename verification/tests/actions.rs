use gifdeck::actions::{announced, page_offset, Toggle};
use gifdeck::app::{App, Pending, Tab};
use gifdeck::config::Config;
use gifdeck::favs::{delete_reply, list_page_reply, save_reply, FavItem, FavsBackend, FavsClient,
    FavsPage, Method, Reply};
use gifdeck::item::UrlItem;
use gifdeck::pager::{PageDir, PageFetch, PageReply, Pager};
use gifdeck::providers::{GifResult, PageCursor, Provider, SearchPage, Source};
use gifdeck::store::{LocalStore, StoreFile};

fn items(n: usize) -> Vec<UrlItem> {
    (0..n)
        .map(|i| UrlItem {
            id: format!("id{i}"),
            title: format!("gif {i}"),
            url: format!("https://gifdeck.test/{i}.gif"),
            preview_url: format!("https://gifdeck.test/{i}-preview.gif"),
            provider: Provider::Klipy,
        })
        .collect()
}

fn fav(id: &str) -> FavItem {
    FavItem {
        id: id.into(),
        url: format!("https://x/{id}.gif"),
        preview: String::new(),
        provider: "klipy".into(),
        title: id.to_uppercase(),
        use_count: 0,
        added_at: None,
        last_used: None,
    }
}

fn local_backend() -> FavsBackend {
    FavsBackend::Local(LocalStore::at("/data/favorites.json".to_string()))
}

fn cfg_for(base: &str) -> Config {
    Config {
        klipy_api_key: None,
        giphy_api_key: None,
        favorites_api: Some(base.to_string()),
        favorites_token: Some("sekret".to_string()),
        favorites_mode: None,
    }
}

fn server_backend(cfg: &Config) -> FavsBackend {
    FavsBackend::Server(FavsClient::new(cfg).unwrap())
}

fn app_on(favs: FavsBackend) -> App<()> {
    App::new(Config::default(), Source::Auto, favs)
}

#[test]
fn toggle_saves_then_removes_favorite() {
    let cfg = cfg_for("http://server");
    let mut app = app_on(server_backend(&cfg));
    app.search.items = items(1);
    let client = FavsClient::new(&cfg).unwrap();

    assert!(!app.fav_ids.contains("id0"));
    let toggle = app.begin_toggle().unwrap();
    let request = match &toggle {
        Toggle::Save(gif) => client.save(gif),
        Toggle::Delete(_) => panic!("not a favorite yet"),
    };
    assert_eq!((request.method, request.url.as_str()), (Method::Post, "http://server/favorites"));
    let saved = save_reply(Reply {
        status: 200,
        total_count: None,
        body: Ok(fav("id0")),
        error: None,
    });
    assert!(!app.finish_toggle(toggle, saved.map(|_| ())));
    assert!(app.fav_ids.contains("id0"));
    assert!(app.status.as_deref().unwrap().contains("saved to favorites"));
    assert_eq!(app.status.as_deref(), Some("★ saved to favorites"));

    let toggle = app.begin_toggle().unwrap();
    let request = match &toggle {
        Toggle::Delete(id) => client.delete(id),
        Toggle::Save(_) => panic!("already a favorite"),
    };
    assert_eq!(
        (request.method, request.url.as_str()),
        (Method::Delete, "http://server/favorites/id0")
    );
    assert!(!app.finish_toggle(toggle, delete_reply(204, None)));
    assert!(!app.fav_ids.contains("id0"));
    assert!(app.status.as_deref().unwrap().contains("removed from favorites"));
}

#[test]
fn toggle_server_error_surfaces_in_status() {
    let cfg = cfg_for("http://server");
    let mut app = app_on(server_backend(&cfg));
    app.search.items = items(1);

    let toggle = app.begin_toggle().unwrap();
    let failed = save_reply(Reply {
        status: 502,
        total_count: None,
        body: Err("no item".into()),
        error: Some("upstream down".into()),
    });
    assert!(!app.finish_toggle(toggle, failed.map(|_| ())));
    assert!(app.fav_ids.is_empty(), "failed save must not mark as fav");
    let status = app.status.as_deref().unwrap();
    assert!(status.contains("502"), "got: {status}");
}

#[test]
fn toggle_local_backend_writes_store() {
    let store = LocalStore::at("/data/favorites.json".to_string());
    let mut app = app_on(FavsBackend::Local(store.clone()));
    app.search.items = items(1);

    let toggle = app.begin_toggle().unwrap();
    let stored = match &toggle {
        Toggle::Save(gif) => store.upsert(StoreFile::Missing, gif, "1".into()).unwrap().0,
        Toggle::Delete(_) => panic!("not a favorite yet"),
    };
    app.finish_toggle(toggle, Ok(()));
    assert!(app.fav_ids.contains("id0"));
    assert!(app
        .status
        .as_deref()
        .unwrap()
        .contains("saved to local favorites"));
    assert_eq!(stored.len(), 1);
    assert_eq!(stored[0].id, "id0");
    assert_eq!(stored[0].url, "https://gifdeck.test/0.gif");

    let toggle = app.begin_toggle().unwrap();
    let stored = match &toggle {
        Toggle::Delete(id) => store.remove(StoreFile::Parsed(stored), id).unwrap().unwrap(),
        Toggle::Save(_) => panic!("already a favorite"),
    };
    app.finish_toggle(toggle, Ok(()));
    assert!(!app.fav_ids.contains("id0"));
    assert!(stored.is_empty());
    assert_eq!(app.status.as_deref(), Some("☆ removed from local favorites"));
}

#[test]
fn toggle_local_backend_surfaces_damaged_store() {
    let store = LocalStore::at("/data/favorites.json".to_string());
    let mut app = app_on(FavsBackend::Local(store.clone()));
    app.search.items = items(1);

    let toggle = app.begin_toggle().unwrap();
    let outcome = match &toggle {
        Toggle::Save(gif) => store
            .upsert(StoreFile::Damaged("broken".into()), gif, "1".into())
            .map(|_| ()),
        Toggle::Delete(_) => panic!("not a favorite yet"),
    };
    app.finish_toggle(toggle, outcome);
    assert!(app.fav_ids.is_empty(), "a damaged store must not be toggled");
    let status = app.status.as_deref().unwrap();
    assert!(status.contains("favorite failed"), "got: {status}");
}

#[test]
fn toggle_without_an_item_does_nothing() {
    assert!(app_on(local_backend()).begin_toggle().is_none());
}

#[test]
fn toggle_on_favorites_asks_for_a_refresh() {
    let mut app = app_on(local_backend());
    app.tab = Tab::Favorites;
    app.favorites.items = items(1);
    app.set_fav_ids(vec!["id0".into(), "other".into()]);
    let toggle = app.begin_toggle().unwrap();
    assert!(matches!(&toggle, Toggle::Delete(id) if id == "id0"));
    assert!(app.finish_toggle(toggle, Ok(())));
    assert!(!app.fav_ids.contains("id0") && app.fav_ids.contains("other"));
    let toggle = app.begin_toggle().unwrap();
    assert!(!app.finish_toggle(toggle, Err("x".into())), "nothing changed");
    assert_eq!(app.status.as_deref(), Some("favorite failed: x"));
}

fn favs_page(ids: &[&str], total: &str) -> Result<FavsPage, String> {
    list_page_reply(Reply {
        status: 200,
        total_count: Some(total.into()),
        body: Ok(ids.iter().map(|id| fav(id)).collect()),
        error: None,
    })
}

#[test]
fn refresh_favorites_keeps_cursor_in_sync() {
    // Page shrinks from 3 items to 2 after a delete.
    let cfg = cfg_for("http://server");
    let backend = server_backend(&cfg);
    let mut app = app_on(backend.clone());
    app.favorites.items = items(3);
    app.favorites.selected = 1;
    app.favorites.page = 0;
    app.favorites.pager = Some(Pager::favs(backend, Some(3)));

    assert_eq!(page_offset(app.favorites.page), 0);
    assert_eq!(app.refresh_favorites_page(0, favs_page(&["a", "b"], "2")), None);
    assert_eq!(app.favorites.items.len(), 2);
    assert_eq!(app.favorites.selected, 1, "cursor kept when in range");
    assert!(matches!(
        &app.favorites.pager,
        Some(Pager::Favs { total: Some(2), .. })
    ));
}

#[test]
fn refresh_favorites_steps_back_when_page_empties() {
    // Current page (offset 50) is now empty; page 0 has one item.
    let cfg = cfg_for("http://server");
    let backend = server_backend(&cfg);
    let mut app = app_on(backend.clone());
    app.favorites.items = items(1);
    app.favorites.page = 1;
    app.favorites.pager = Some(Pager::favs(backend, Some(51)));

    assert_eq!(page_offset(app.favorites.page), 50);
    let back = app.refresh_favorites_page(1, favs_page(&[], "1"));
    assert_eq!(back, Some(0));
    assert_eq!(app.refresh_favorites_page(0, favs_page(&["a"], "1")), None);
    assert_eq!(app.favorites.page, 0, "emptied page steps back to page 0");
    assert_eq!(app.favorites.items.len(), 1);
}

#[test]
fn refresh_moves_the_cursor_to_the_last_item_or_leaves_all() {
    let mut app = app_on(local_backend());
    app.favorites.items = items(3);
    app.favorites.selected = 2;
    app.favorites.first_item = 2;
    assert_eq!(app.refresh_favorites_page(0, Err("down".into())), None);
    assert_eq!((app.favorites.items.len(), app.favorites.first_item), (3, 2));
    app.refresh_favorites_page(0, favs_page(&["a"], "1"));
    assert_eq!((app.favorites.selected, app.favorites.first_item), (0, 0));
    app.refresh_favorites_page(0, favs_page(&[], "0"));
    assert_eq!((app.favorites.items.len(), app.favorites.selected), (0, 0));
    assert!(app.favorites.pager.is_none());
}

fn offset(n: usize) -> PageCursor {
    PageCursor::Giphy { offset: n }
}

fn searching(next: Option<PageCursor>, total: Option<usize>) -> App<()> {
    let mut app = app_on(local_backend());
    let pager = Pager::search(Config::default(), Source::Auto, "cats".into(), next, total);
    app.set_search_page(items(50), pager);
    app
}

#[test]
fn page_turns_replace_the_grid() {
    let mut app = searching(Some(offset(50)), None);
    app.search.selected = 7;
    app.status = Some("loading…".into());
    let fetch = app.begin_page(PageDir::Next).unwrap();
    assert!(matches!(
        fetch,
        PageFetch::Search { limit: 50, cursor: PageCursor::Giphy { offset: 50 }, .. }
    ));
    app.finish_page(
        PageDir::Next,
        Ok(PageReply {
            items: items(3),
            next: None,
            total: Some(53),
        }),
    );
    assert_eq!(app.search.items.len(), 3);
    assert_eq!((app.search.selected, app.search.page), (0, 1));
    assert_eq!(app.status, None);
    // The end of the results.
    assert!(app.begin_page(PageDir::Next).is_none());
    assert_eq!(app.status.as_deref(), Some("no more results"));
    // And back.
    let fetch = app.begin_page(PageDir::Prev).unwrap();
    assert!(matches!(fetch, PageFetch::Search { cursor: PageCursor::Start, .. }));
    app.finish_page(
        PageDir::Prev,
        Ok(PageReply {
            items: items(50),
            next: Some(offset(50)),
            total: Some(53),
        }),
    );
    assert_eq!((app.search.items.len(), app.search.page), (50, 0));
    assert!(app.begin_page(PageDir::Prev).is_none());
    assert_eq!(app.status.as_deref(), Some("already on the first page"));
}

#[test]
fn failed_page_turns_keep_the_page() {
    let mut app = searching(Some(offset(50)), None);
    app.search.selected = 7;
    app.begin_page(PageDir::Next).unwrap();
    app.finish_page(PageDir::Next, Err("timeout".into()));
    assert_eq!(app.status.as_deref(), Some("page load failed: timeout"));
    assert_eq!((app.search.items.len(), app.search.selected, app.search.page), (50, 7, 0));
    app.finish_page(
        PageDir::Next,
        Ok(PageReply {
            items: Vec::new(),
            next: None,
            total: None,
        }),
    );
    assert_eq!(app.status.as_deref(), Some("no more results"));
    assert_eq!((app.search.items.len(), app.search.selected, app.search.page), (50, 7, 0));
    assert!(app.begin_page(PageDir::Next).is_some(), "the cursor is kept");
}

#[test]
fn page_turns_without_a_pager_do_nothing() {
    let mut app = app_on(local_backend());
    assert!(app.begin_page(PageDir::Next).is_none());
    app.finish_page(PageDir::Next, Err("x".into()));
    assert_eq!(app.status, None);
}

fn results(n: usize, next: Option<PageCursor>, total: Option<usize>) -> Result<SearchPage, String> {
    Ok(SearchPage {
        results: items(n)
            .into_iter()
            .map(|i| i.to_gif_result())
            .collect::<Vec<GifResult>>(),
        next,
        total,
    })
}

#[test]
fn search_replaces_the_grid_and_tells_how_many() {
    let mut app = app_on(local_backend());
    app.tab = Tab::Favorites;
    app.search.selected = 3;
    app.search.page = 4;
    app.query = "  cat dance ".into();
    match app.begin_search() {
        Some(PageFetch::Search { source, query, limit, cursor }) => {
            assert_eq!((source, query.as_str(), limit), (Source::Auto, "cat dance", 50));
            assert_eq!(cursor, PageCursor::Start);
        }
        other => panic!("got {other:?}"),
    }
    app.finish_search("cat dance".into(), results(2, Some(offset(2)), Some(9)));
    assert_eq!(app.tab, Tab::Search);
    assert_eq!((app.search.items.len(), app.search.selected, app.search.page), (2, 0, 0));
    assert_eq!(app.status.as_deref(), Some("2 results"));
    assert!(matches!(
        &app.search.pager,
        Some(Pager::Search { query, back, total: Some(9), .. })
            if query == "cat dance" && back == &vec![PageCursor::Start]
    ));
    app.finish_search("none".into(), results(0, None, None));
    assert_eq!(app.status.as_deref(), Some("no results"));
    assert!(app.search.items.is_empty());
}

#[test]
fn failed_search_keeps_the_grid() {
    let mut app = searching(None, None);
    app.finish_search("q".into(), Err("GIPHY_API_KEY is not configured".into()));
    assert_eq!(
        app.status.as_deref(),
        Some("search failed: GIPHY_API_KEY is not configured")
    );
    assert_eq!(app.search.items.len(), 50);
}

#[test]
fn blank_query_is_not_searched() {
    let mut app = app_on(local_backend());
    app.query = " \t".into();
    assert!(app.begin_search().is_none());
    assert_eq!(app.status.as_deref(), Some("type a query, then Enter"));
}

#[test]
fn queued_work_is_announced_once() {
    let mut app = app_on(local_backend());
    app.query = " cat ".into();
    let told = |app: &mut App<()>, work| {
        app.status = None;
        app.pending = Some(work);
        assert_eq!(app.begin_pending(), Some(work));
        assert_eq!(app.pending, None);
        app.status.clone()
    };
    assert_eq!(
        told(&mut app, Pending::Page(PageDir::Next)).as_deref(),
        Some("loading…")
    );
    assert_eq!(told(&mut app, Pending::Search).as_deref(), Some("searching 'cat'…"));
    assert_eq!(told(&mut app, Pending::CopyGif).as_deref(), Some("copying gif…"));
    assert_eq!(told(&mut app, Pending::CopyUrl), None);
    assert_eq!(told(&mut app, Pending::Toggle), None);
    assert_eq!(told(&mut app, Pending::TabLoad), None);
    assert_eq!(app.begin_pending(), None);
}

#[test]
fn copies_are_reported() {
    let mut app = app_on(local_backend());
    assert_eq!(app.begin_copy(), None);
    app.search.items = items(2);
    app.search.selected = 1;
    assert_eq!(app.begin_copy().as_deref(), Some("https://gifdeck.test/1.gif"));
    app.finish_copy_gif(Ok(()));
    assert_eq!(app.status.as_deref(), Some("copied GIF to clipboard"));
    app.finish_copy_url(Ok(()));
    assert_eq!(app.status.as_deref(), Some("copied URL"));
    app.finish_copy_gif(Err("no tool".into()));
    assert_eq!(app.status.as_deref(), Some("copy failed: no tool"));
    app.finish_copy_url(Err("no tool".into()));
    assert_eq!(app.status.as_deref(), Some("copy failed: no tool"));
}

#[test]
fn tab_load_fetches_favorites_once() {
    let mut app = app_on(local_backend());
    assert!(!app.wants_favorites(), "not on the Search tab");
    app.tab = Tab::Favorites;
    app.finish_favorite_ids(Ok(vec![fav("a"), fav("b")]));
    assert!(app.fav_ids.contains("a") && app.fav_ids.contains("b") && app.fav_ids.len() == 2);
    assert!(app.wants_favorites());
    app.finish_tab_load(Some(favs_page(&["a", "b"], "2")));
    assert_eq!(app.favorites.items.len(), 2);
    assert_eq!(app.favorites.items[0].title, "A");
    assert!(matches!(
        &app.favorites.pager,
        Some(Pager::Favs { backend, total: Some(2) }) if backend.is_local()
    ));
    assert!(!app.wants_favorites());
    app.finish_tab_load(Some(favs_page(&[], "0")));
    assert_eq!(app.favorites.items.len(), 2, "not wanted any more");
    app.finish_tab_load(None);
    assert_eq!(app.favorites.items.len(), 2);
}

#[test]
fn tab_load_failures_are_told() {
    let mut app = app_on(local_backend());
    app.tab = Tab::Favorites;
    app.set_fav_ids(vec!["x".into()]);
    app.finish_favorite_ids(Err("down".into()));
    assert_eq!(app.status.as_deref(), Some("favorites unavailable: down"));
    assert!(app.fav_ids.contains("x"));
    app.finish_tab_load(Some(Err("down".into())));
    assert_eq!(app.status.as_deref(), Some("favorites load failed: down"));
    assert!(app.wants_favorites());
}

#[test]
fn work_that_is_waited_for_is_announced() {
    assert!(announced(Pending::Page(PageDir::Next)));
    assert!(announced(Pending::Search));
    assert!(announced(Pending::CopyGif));
    assert!(!announced(Pending::Toggle));
    assert!(!announced(Pending::CopyUrl));
    assert!(!announced(Pending::TabLoad));
}

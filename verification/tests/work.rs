use gifdeck::actions::Toggle;
use gifdeck::app::{App, Pending, Tab};
use gifdeck::config::Config;
use gifdeck::favs::{FavItem, FavsBackend, FavsPage};
use gifdeck::item::UrlItem;
use gifdeck::pager::{PageDir, PageFetch, PageReply, Pager};
use gifdeck::providers::{PageCursor, Provider, SearchPage, Source};
use gifdeck::session::Opening;
use gifdeck::store::LocalStore;
use gifdeck::work::{Effect, Reply};

fn items(n: usize) -> Vec<UrlItem> {
    (0..n)
        .map(|i| UrlItem {
            id: format!("id{i}"),
            title: format!("gif {i}"),
            url: format!("https://gifdeck.test/{i}.gif"),
            preview_url: String::new(),
            provider: Provider::Klipy,
        })
        .collect()
}

fn fav(id: &str) -> FavItem {
    FavItem {
        id: id.into(),
        url: format!("https://x/{id}.gif"),
        preview: String::new(),
        provider: "klipy".into(),
        title: String::new(),
        use_count: 0,
        added_at: None,
        last_used: None,
    }
}

fn app() -> App<()> {
    let mut app = App::new(
        Config::default(),
        Source::Auto,
        FavsBackend::Local(LocalStore::at("/data/favorites.json".to_string())),
    );
    app.search.items = items(2);
    app
}

fn favorites(ids: &[&str]) -> Reply {
    Reply::Favorites(Ok(FavsPage {
        items: ids.iter().map(|id| fav(id)).collect(),
        total: Some(ids.len()),
    }))
}

#[test]
fn page_work_is_one_fetch() {
    let mut a = app();
    let next = Some(PageCursor::Giphy { offset: 50 });
    a.search.pager = Some(Pager::search(Config::default(), Source::Auto, "q".into(), next, None));
    let effect = a.begin_work(Pending::Page(PageDir::Next)).unwrap();
    assert!(matches!(
        &effect,
        Effect::TurnPage {
            dir: PageDir::Next,
            fetch: PageFetch::Search { limit: 50, .. }
        }
    ));
    let page = PageReply {
        items: items(5),
        next: None,
        total: None,
    };
    assert!(a.take_reply(effect, Reply::Page(Ok(page))).is_none());
    assert_eq!((a.search.items.len(), a.search.page), (5, 1));
    assert!(a.begin_work(Pending::Page(PageDir::Next)).is_none());
    assert_eq!(a.status.as_deref(), Some("no more results"));
}

#[test]
fn search_work_uses_the_query_that_was_sent() {
    let mut a = app();
    a.query = " cat ".into();
    let effect = a.begin_work(Pending::Search).unwrap();
    a.query = "something else".into();
    let page = SearchPage {
        results: Vec::new(),
        next: None,
        total: None,
    };
    assert!(a.take_reply(effect, Reply::Search(Ok(page))).is_none());
    assert!(matches!(&a.search.pager, Some(Pager::Search { query, .. }) if query == "cat"));
    a.query.clear();
    assert!(a.begin_work(Pending::Search).is_none());
}

#[test]
fn toggle_work_refreshes_the_favorites_tab_page_by_page() {
    let mut a = app();
    a.tab = Tab::Favorites;
    a.favorites.items = items(1);
    a.favorites.page = 2;
    a.set_fav_ids(vec!["id0".into()]);
    let effect = a.begin_work(Pending::Toggle).unwrap();
    assert!(matches!(&effect, Effect::Toggle { toggle: Toggle::Delete(id) } if id == "id0"));
    let effect = a.take_reply(effect, Reply::Done(Ok(()))).unwrap();
    assert!(matches!(
        effect,
        Effect::RefreshFavorites { page: 2, limit: 50, offset: 100 }
    ));
    let effect = a.take_reply(effect, favorites(&[])).unwrap();
    assert!(matches!(
        effect,
        Effect::RefreshFavorites { page: 1, limit: 50, offset: 50 }
    ));
    assert!(a.take_reply(effect, favorites(&["a"])).is_none());
    assert_eq!((a.favorites.page, a.favorites.items.len()), (1, 1));
}

#[test]
fn toggle_work_on_search_is_one_step() {
    let mut a = app();
    let effect = a.begin_work(Pending::Toggle).unwrap();
    assert!(a.take_reply(effect, Reply::Done(Ok(()))).is_none());
    assert!(a.fav_ids.contains("id0"));
    a.search.items.clear();
    assert!(a.begin_work(Pending::Toggle).is_none());
}

#[test]
fn tab_work_lists_and_loads() {
    let mut a = app();
    a.tab = Tab::Favorites;
    let effect = a.begin_work(Pending::TabLoad).unwrap();
    assert!(matches!(effect, Effect::ListFavorites));
    let effect = a
        .take_reply(effect, Reply::Listed(Ok(vec![fav("a"), fav("b")])))
        .unwrap();
    assert!(a.fav_ids.contains("b"));
    assert!(matches!(effect, Effect::LoadFavorites { limit: 50 }));
    assert!(a.take_reply(effect, favorites(&["a", "b"])).is_none());
    assert_eq!(a.favorites.items.len(), 2);
    // The second time the page is there already.
    let effect = a.begin_work(Pending::TabLoad).unwrap();
    assert!(a.take_reply(effect, Reply::Listed(Ok(Vec::new()))).is_none());
}

#[test]
fn copy_work() {
    let mut a = app();
    a.search.selected = 1;
    let effect = a.begin_work(Pending::CopyGif).unwrap();
    assert!(matches!(&effect, Effect::CopyGif { url } if url == "https://gifdeck.test/1.gif"));
    a.take_reply(effect, Reply::Done(Ok(())));
    assert_eq!(a.status.as_deref(), Some("copied GIF to clipboard"));
    let effect = a.begin_work(Pending::CopyUrl).unwrap();
    a.take_reply(effect, Reply::Done(Err("x".into())));
    assert_eq!(a.status.as_deref(), Some("copy failed: x"));
}

#[test]
fn replies_to_something_else_change_nothing() {
    let mut a = app();
    assert!(a.take_reply(Effect::ListFavorites, Reply::Done(Ok(()))).is_none());
    assert_eq!(a.status, None);
    assert_eq!(a.search.items.len(), 2);
}

#[test]
fn sessions_open_step_by_step() {
    let mut a = app();
    let next = a.open_listed(Ok(vec![fav("a")]), Some("cat".into()), true);
    assert!(a.fav_ids.contains("a"));
    let query = match next {
        Opening::Search {
            fetch: PageFetch::Search { query, .. },
        } => query,
        other => panic!("got {other:?}"),
    };
    let next = a.open_searched(query, Err("offline".into()));
    assert_eq!(a.status.as_deref(), Some("search failed: offline"));
    assert!(matches!(next, Opening::LoadFavorites { limit: 50 }));

    let mut a = app();
    let next = a.open_listed(Err("down".into()), None, false);
    assert!(matches!(next, Opening::Open));
    assert_eq!(a.status.as_deref(), Some("favorites unavailable: down"));
    assert!(a.search_focused);
}

#[test]
fn grids_and_pagers_stay_in_step() {
    let mut a = app();
    let fetch = Effect::Search {
        fetch: PageFetch::Search {
            source: Source::Auto,
            query: "cat".into(),
            limit: 50,
            cursor: PageCursor::Start,
        },
    };
    let found = SearchPage {
        results: Vec::new(),
        next: Some(PageCursor::Giphy { offset: 50 }),
        total: None,
    };
    assert!(a.take_reply(fetch, Reply::Search(Ok(found))).is_none());
    for page in 1..4 {
        let effect = a.begin_work(Pending::Page(PageDir::Next)).unwrap();
        let reply = PageReply {
            items: items(1),
            next: Some(PageCursor::Giphy { offset: 50 * (page + 1) }),
            total: None,
        };
        assert!(a.take_reply(effect, Reply::Page(Ok(reply))).is_none());
        assert_eq!(a.search.page, page);
        let Some(Pager::Search { back, .. }) = &a.search.pager else {
            panic!("the search lost its pager");
        };
        assert_eq!(back.len(), page + 1);
        assert_eq!(back[0], PageCursor::Start);
    }
}

use gifdeck::app::{App, Tab};
use gifdeck::config::Config;
use gifdeck::favs::{FavItem, FavsBackend, FavsPage};
use gifdeck::pager::{PageFetch, Pager};
use gifdeck::providers::{GifResult, PageCursor, Provider, SearchPage, Source};
use gifdeck::session::{
    check_output, check_session, next_opening, search_limit, Cli, Command, Opening,
};
use gifdeck::store::LocalStore;

fn app() -> App<()> {
    App::new(
        Config::default(),
        Source::Auto,
        FavsBackend::Local(LocalStore::at("/data/favorites.json".to_string())),
    )
}

#[test]
fn bare_command_line_opens_the_picker() {
    assert!(matches!(
        Cli { command: None }.resolve(),
        Command::Tui {
            query: None,
            favs: false
        }
    ));
    let favs = Command::Favs {
        json: true,
        export: false,
        import: false,
    };
    assert!(matches!(
        Cli { command: Some(favs) }.resolve(),
        Command::Favs { json: true, .. }
    ));
}

#[test]
fn search_limit_is_kept_in_bounds() {
    assert_eq!(search_limit(0), 1);
    assert_eq!(search_limit(20), 20);
    assert_eq!(search_limit(100), 100);
    assert_eq!(search_limit(101), 100);
}

#[test]
fn sessions_need_a_terminal() {
    assert_eq!(
        check_session(false, false).unwrap_err(),
        "stdin/stdout are not terminals; the TUI requires an interactive session"
    );
    assert_eq!(check_session(true, false), Ok(()));
    assert_eq!(check_session(false, true), Ok(()));
    assert_eq!(
        check_output(false).unwrap_err(),
        "stdout is not a terminal; the TUI requires an interactive session"
    );
    assert_eq!(check_output(true), Ok(()));
}

#[test]
fn fresh_session_focuses_the_search_box() {
    for query in [None, Some("  ".to_string())] {
        let mut a = app();
        assert!(a.start(query, false).is_none());
        assert_eq!(a.tab, Tab::Search);
        assert!(a.search_focused);
        assert_eq!(a.query, "");
    }
}

#[test]
fn session_with_a_query_runs_it() {
    let mut a = app();
    match a.start(Some(" cat".to_string()), false) {
        Some(PageFetch::Search { source, query, limit, cursor }) => {
            assert_eq!((source, query.as_str(), limit), (Source::Auto, " cat", 50));
            assert_eq!(cursor, PageCursor::Start);
        }
        other => panic!("got {other:?}"),
    }
    assert!(!a.search_focused);
    assert_eq!(a.query, " cat");
    a.finish_start_search(
        " cat".into(),
        Ok(SearchPage {
            results: vec![GifResult {
                id: "g".into(),
                title: "t".into(),
                url: "u".into(),
                preview_url: "p".into(),
                provider: Provider::Giphy,
            }],
            next: None,
            total: Some(1),
        }),
    );
    assert_eq!(a.search.items.len(), 1);
    assert!(matches!(&a.search.pager, Some(Pager::Search { query, .. }) if query == " cat"));
    a.finish_start_search("x".into(), Err("boom".into()));
    assert_eq!(a.status.as_deref(), Some("search failed: boom"));
    assert_eq!(a.search.items.len(), 1);
}

#[test]
fn favorites_are_loaded_only_where_there_are_any() {
    let load = || Opening::LoadFavorites { limit: 50 };
    assert!(matches!(next_opening(load(), false), Opening::Open));
    assert!(matches!(
        next_opening(load(), true),
        Opening::LoadFavorites { limit: 50 }
    ));
    assert!(matches!(next_opening(Opening::Open, false), Opening::Open));
    let mut a = app();
    let fetch = a.start(Some("cats".into()), true).unwrap();
    assert!(matches!(
        next_opening(Opening::Search { fetch }, false),
        Opening::Search { .. }
    ));
}

#[test]
fn session_on_favorites_loads_them() {
    let mut a = app();
    assert!(a.start(None, true).is_none());
    assert_eq!(a.tab, Tab::Favorites);
    assert!(!a.search_focused);
    a.finish_start_favorites(Err("down".into()));
    assert_eq!(a.status.as_deref(), Some("favorites load failed: down"));
    a.finish_start_favorites(Ok(FavsPage {
        items: vec![FavItem {
            id: "f".into(),
            url: "u".into(),
            preview: "p".into(),
            provider: "giphy".into(),
            title: "t".into(),
            use_count: 0,
            added_at: None,
            last_used: None,
        }],
        total: Some(1),
    }));
    assert_eq!(a.favorites.items[0].provider, Provider::Giphy);
    assert!(matches!(&a.favorites.pager, Some(Pager::Favs { total: Some(1), .. })));
}

#[test]
fn setters_set() {
    let mut a = app();
    a.start_on(Tab::Favorites);
    a.set_query("q".into());
    a.focus_search(true);
    a.set_status("s".into());
    a.set_fav_ids(vec!["a".into(), "b".into(), "a".into()]);
    assert_eq!((a.tab, a.query.as_str(), a.search_focused), (Tab::Favorites, "q", true));
    assert_eq!(a.status.as_deref(), Some("s"));
    assert!(a.fav_ids.contains("a") && a.fav_ids.contains("b"));
    assert_eq!(a.fav_ids.len(), 2);
    let pager = Pager::favs(a.favs.clone(), None);
    a.set_favorites_page(Vec::new(), pager);
    assert!(a.favorites.pager.is_some());
}

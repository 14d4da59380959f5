use gifdeck::config::Config;
use gifdeck::favs::{FavItem, FavsBackend, FavsPage};
use gifdeck::item::UrlItem;
use gifdeck::pager::{
    favs_reply, search_reply, PageDir, PageFetch, PageReply, PageTurn, Pager, TurnStart,
};
use gifdeck::providers::{GifResult, PageCursor, Provider, SearchPage, Source};
use gifdeck::store::{LocalStore, StoreFile};

fn search_pager(next: Option<PageCursor>, total: Option<usize>) -> Pager {
    Pager::search(
        Config::default(),
        Source::Auto,
        "cats".to_string(),
        next,
        total,
    )
}

fn local() -> LocalStore {
    LocalStore::at("/data/favorites.json".to_string())
}

fn items(n: usize) -> Vec<UrlItem> {
    (0..n)
        .map(|i| UrlItem {
            id: format!("id{i}"),
            title: format!("gif {i}"),
            url: format!("https://gifdeck.test/{i}.gif"),
            preview_url: format!("https://gifdeck.test/{i}-preview.gif"),
            provider: Provider::Klipy,
        })
        .collect()
}

fn page(n: usize, next: Option<PageCursor>, total: Option<usize>) -> Result<PageReply, String> {
    Ok(PageReply {
        items: items(n),
        next,
        total,
    })
}

fn offset(n: usize) -> PageCursor {
    PageCursor::Giphy { offset: n }
}

#[test]
fn pager_next_without_cursor_reports_last_page() {
    let pager = search_pager(None, None);
    assert!(matches!(pager.turn(PageDir::Next, 0), TurnStart::AtLast));
}

#[test]
fn pager_prev_at_first_page_is_refused() {
    let pager = search_pager(
        Some(PageCursor::Klipy {
            pos: "abc".to_string(),
        }),
        None,
    );
    assert!(matches!(pager.turn(PageDir::Prev, 0), TurnStart::AtFirst));

    // Local backend on page 0: refused before touching the store.
    let pager = Pager::favs(FavsBackend::Local(local()), None);
    assert!(matches!(pager.turn(PageDir::Prev, 0), TurnStart::AtFirst));
}

#[test]
fn pager_next_past_known_total_is_refused_offline() {
    // 100 items = 2 pages; on page 1 (0-based) a Next turn asks for nothing.
    let pager = Pager::favs(FavsBackend::Local(local()), Some(100));
    assert!(matches!(pager.turn(PageDir::Next, 1), TurnStart::AtLast));

    // 101 items = 3 pages; page 1 still has a successor, so the turn
    // proceeds and fetches: with a seeded store it returns a real page.
    let seeded: Vec<FavItem> = (0..101)
        .map(|i| FavItem {
            id: format!("f{i}"),
            url: format!("https://x/{i}.gif"),
            preview: String::new(),
            provider: "klipy".into(),
            title: String::new(),
            use_count: 0,
            added_at: None,
            last_used: None,
        })
        .collect();
    let mut pager = Pager::favs(FavsBackend::Local(local()), Some(101));
    let fetched = match pager.turn(PageDir::Next, 1) {
        TurnStart::Fetch(PageFetch::Favs { limit, offset }) => local()
            .list_page(StoreFile::Parsed(seeded), limit, offset)
            .unwrap(),
        other => panic!("page 2 of 3 must be fetched, got {other:?}"),
    };
    let result = pager.turned(PageDir::Next, Ok(favs_reply(fetched)));
    assert!(
        matches!(&result, Ok(PageTurn::Page(items)) if items.len() == 1
            && items[0].id == "f100"),
        "page 2 of 3 (offset 100) must be fetched, got {result:?}"
    );

    // Same refusal logic on the search pager, purely from the total.
    let pager = search_pager(Some(offset(50)), Some(100));
    assert!(matches!(pager.turn(PageDir::Next, 1), TurnStart::AtLast));
}

fn asked(start: TurnStart) -> (String, usize, PageCursor) {
    match start {
        TurnStart::Fetch(PageFetch::Search {
            source,
            query,
            limit,
            cursor,
        }) => {
            assert_eq!(source, Source::Auto);
            (query, limit, cursor)
        }
        other => panic!("expected a fetch, got {other:?}"),
    }
}

#[test]
fn search_turns_follow_the_cursors() {
    let mut p = search_pager(Some(offset(50)), None);
    assert_eq!(
        asked(p.turn(PageDir::Next, 0)),
        ("cats".to_string(), 50, offset(50))
    );
    assert!(matches!(
        p.turned(PageDir::Next, page(2, Some(offset(100)), Some(130))),
        Ok(PageTurn::Page(_))
    ));
    assert_eq!(p.total(), Some(130));
    assert_eq!(asked(p.turn(PageDir::Next, 1)).2, offset(100));
    // Back to the first page.
    assert_eq!(asked(p.turn(PageDir::Prev, 1)).2, PageCursor::Start);
    assert!(p.turned(PageDir::Prev, page(2, Some(offset(50)), None)).is_ok());
    assert_eq!(p.total(), Some(130), "a total once known stays");
    assert!(matches!(p.turn(PageDir::Prev, 0), TurnStart::AtFirst));
    assert_eq!(asked(p.turn(PageDir::Next, 0)).2, offset(50));
}

#[test]
fn search_turns_go_by_cursor_on_any_page() {
    let p = search_pager(Some(offset(50)), None);
    let far = usize::MAX / 2;
    assert_eq!(asked(p.turn(PageDir::Next, far)).2, offset(50));
}

#[test]
fn failed_turns_change_nothing() {
    let mut p = search_pager(Some(offset(50)), Some(200));
    p.turned(PageDir::Next, page(1, Some(offset(100)), None)).unwrap();
    assert_eq!(
        p.turned(PageDir::Prev, Err("timeout".into())).unwrap_err(),
        "timeout"
    );
    assert_eq!(asked(p.turn(PageDir::Prev, 1)).2, PageCursor::Start);
    assert_eq!(asked(p.turn(PageDir::Next, 1)).2, offset(100));
    // An empty page is no page, and keeps the cursors too.
    assert!(matches!(
        p.turned(PageDir::Prev, page(0, None, Some(7))),
        Ok(PageTurn::AtLast)
    ));
    assert_eq!(asked(p.turn(PageDir::Prev, 1)).2, PageCursor::Start);
    assert_eq!(asked(p.turn(PageDir::Next, 1)).2, offset(100));
    assert_eq!(p.total(), Some(200));
}

#[test]
fn favorites_turn_by_offset() {
    let mut p = Pager::favs(FavsBackend::Local(local()), None);
    assert!(matches!(
        p.turn(PageDir::Next, 0),
        TurnStart::Fetch(PageFetch::Favs { limit: 50, offset: 50 })
    ));
    assert!(matches!(
        p.turn(PageDir::Prev, 3),
        TurnStart::Fetch(PageFetch::Favs { limit: 50, offset: 100 })
    ));
    // The total is noted even if the page is empty.
    assert!(matches!(
        p.turned(PageDir::Next, page(0, None, Some(50))),
        Ok(PageTurn::AtLast)
    ));
    assert_eq!(p.total(), Some(50));
    assert!(matches!(p.turn(PageDir::Next, 0), TurnStart::AtLast));
}

#[test]
fn total_allows_exactly_the_pages_that_hold_items() {
    for total in [0, 1, 49, 50, 51, 100, 101] {
        let p = Pager::favs(FavsBackend::Local(local()), Some(total));
        for at in 0..4 {
            let fetches = matches!(p.turn(PageDir::Next, at), TurnStart::Fetch(_));
            assert_eq!(fetches, (at + 1) * 50 < total, "page {at} of {total} items");
        }
    }
}

#[test]
fn replies_turn_into_items() {
    let gif = GifResult {
        id: "g".into(),
        title: String::new(),
        url: "u".into(),
        preview_url: "p".into(),
        provider: Provider::Giphy,
    };
    let r = search_reply(SearchPage {
        results: vec![gif],
        next: Some(offset(1)),
        total: Some(9),
    });
    assert_eq!(r.items[0].title, "g");
    assert_eq!((r.next, r.total), (Some(offset(1)), Some(9)));
    let r = favs_reply(FavsPage {
        items: Vec::new(),
        total: Some(3),
    });
    assert!(r.items.is_empty() && r.next.is_none() && r.total == Some(3));
}

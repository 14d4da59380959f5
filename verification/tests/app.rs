use gifdeck::app::{App, Pending, Tab};
use gifdeck::config::Config;
use gifdeck::favs::{FavItem, FavsBackend};
use gifdeck::item::{fav_items, gif_items, UrlItem};
use gifdeck::keys::{KeyCode, KeyEvent, KeyModifiers};
use gifdeck::pager::{PageDir, Pager};
use gifdeck::providers::{GifResult, PageCursor, Provider, Source};
use gifdeck::store::LocalStore;

fn items(n: usize) -> Vec<UrlItem> {
    (0..n)
        .map(|i| UrlItem {
            id: format!("id{i}"),
            title: format!("gif {i}"),
            url: format!("https://gifdeck.test/{i}.gif"),
            preview_url: format!("https://gifdeck.test/{i}-preview.gif"),
            provider: Provider::Klipy,
        })
        .collect()
}

fn test_app(items: Vec<UrlItem>) -> App<()> {
    let mut app = App::new(
        Config::default(),
        Source::Auto,
        FavsBackend::Local(LocalStore::at("/data/favorites.json".to_string())),
    );
    app.search.items = items;
    app
}

const PLAIN: KeyModifiers = KeyModifiers {
    control: false,
    alt: false,
};

fn key(code: KeyCode) -> KeyEvent {
    KeyEvent {
        code,
        modifiers: PLAIN,
    }
}

fn ctrl(c: char) -> KeyEvent {
    KeyEvent {
        code: KeyCode::Char(c),
        modifiers: KeyModifiers {
            control: true,
            alt: false,
        },
    }
}

#[test]
fn ensure_visible_scrolls_down() {
    let mut app = test_app(items(20));
    app.cols = 3;
    app.rows = 2;
    app.search.selected = 10;
    app.ensure_visible();
    assert_eq!(app.search.first_item, 6);
}

#[test]
fn ensure_visible_scrolls_up() {
    let mut app = test_app(items(20));
    app.cols = 3;
    app.rows = 2;
    app.search.first_item = 6;
    app.search.selected = 5;
    app.ensure_visible();
    assert_eq!(app.search.first_item, 3);
}

#[test]
fn ensure_visible_clamps_to_last_row() {
    let mut app = test_app(items(5));
    app.cols = 3;
    app.rows = 3;
    app.search.selected = 4;
    app.ensure_visible();
    assert_eq!(app.search.first_item, 0);
}

#[test]
fn ensure_visible_empty_items_is_safe() {
    let mut app = test_app(Vec::new());
    app.cols = 3;
    app.rows = 2;
    app.search.selected = 0;
    app.ensure_visible();
    assert_eq!(app.search.first_item, 0);
}

#[test]
fn gif_result_maps_to_url_item() {
    let gif = GifResult {
        id: "abc".into(),
        title: String::new(),
        url: "https://x/y.gif".into(),
        preview_url: "https://x/y-preview.gif".into(),
        provider: Provider::Klipy,
    };
    let item = UrlItem::from(gif);
    assert_eq!(item.id, "abc");
    assert_eq!(item.title, "abc");
    assert_eq!(item.url, "https://x/y.gif");
    assert_eq!(item.preview_url, "https://x/y-preview.gif");
    assert_eq!(item.provider, Provider::Klipy);
}

#[test]
fn fav_item_maps_to_url_item() {
    let fav = FavItem {
        id: "f1".into(),
        url: "https://x/f1.gif".into(),
        preview: "https://x/f1-preview.gif".into(),
        provider: "giphy".into(),
        title: String::new(),
        use_count: 0,
        added_at: None,
        last_used: None,
    };
    let item = UrlItem::from(fav);
    assert_eq!(item.id, "f1");
    assert_eq!(item.title, "f1");
    assert_eq!(item.provider, Provider::Giphy);
    let back = item.to_gif_result();
    assert_eq!(back.id, "f1");
    assert_eq!(back.url, "https://x/f1.gif");
    assert_eq!(back.provider, Provider::Giphy);
}

#[test]
fn titled_results_go_there_and_back() {
    let gif = GifResult {
        id: "abc".into(),
        title: "a title".into(),
        url: "u".into(),
        preview_url: "p".into(),
        provider: Provider::Giphy,
    };
    assert_eq!(UrlItem::from(gif.clone()).to_gif_result(), gif);
    assert_eq!(gif_items(vec![gif.clone(), gif])[1].title, "a title");
    assert!(fav_items(Vec::new()).is_empty());
}

#[test]
fn space_selects_current_item() {
    let mut app = test_app(items(3));
    app.search.selected = 2;
    app.handle_key(key(KeyCode::Char(' ')));
    assert!(app.should_quit);
    assert_eq!(
        app.selected_url.as_deref(),
        Some("https://gifdeck.test/2.gif")
    );
}

#[test]
fn enter_selects_and_empty_grid_selects_nothing() {
    for code in [KeyCode::Enter, KeyCode::Char('\n')] {
        let mut app = test_app(items(1));
        app.handle_key(key(code));
        assert!(app.should_quit && app.selected_url.is_some());
        let mut app = test_app(Vec::new());
        app.handle_key(key(code));
        assert!(!app.should_quit && app.selected_url.is_none());
    }
}

#[test]
fn d_and_u_half_page_without_pager() {
    let mut down = test_app(items(40));
    down.cols = 4;
    down.rows = 6;
    down.search.selected = 0;
    down.handle_key(key(KeyCode::Char('d')));
    assert_eq!(down.search.selected, 12);

    let mut up = test_app(items(40));
    up.cols = 4;
    up.rows = 6;
    up.search.selected = 30;
    up.handle_key(key(KeyCode::Char('u')));
    assert_eq!(up.search.selected, 18);

    let mut c = test_app(items(40));
    c.cols = 4;
    c.rows = 6;
    c.search.selected = 0;
    c.handle_key(ctrl('d'));
    assert_eq!(c.search.selected, 12);
}

#[test]
fn d_clamps_at_end() {
    let mut app = test_app(items(40));
    app.cols = 4;
    app.rows = 6;
    app.search.selected = 38;
    app.handle_key(key(KeyCode::Char('d')));
    assert_eq!(app.search.selected, 39, "half-page clamps to last item");
}

fn search_pager(next: Option<PageCursor>, total: Option<usize>) -> Pager {
    Pager::search(
        Config::default(),
        Source::Auto,
        "cats".to_string(),
        next,
        total,
    )
}

#[test]
fn d_with_pager_queues_next_page() {
    let mut app = test_app(items(40));
    app.search.pager = Some(search_pager(Some(PageCursor::Giphy { offset: 40 }), None));
    app.cols = 4;
    app.rows = 6;
    app.search.selected = 7;
    app.handle_key(key(KeyCode::Char('d')));
    assert_eq!(app.pending, Some(Pending::Page(PageDir::Next)));
    assert_eq!(app.search.selected, 7, "cursor does not move when paging");

    app.pending = None;
    app.handle_key(ctrl('d'));
    assert_eq!(app.pending, Some(Pending::Page(PageDir::Next)));
}

#[test]
fn u_with_pager_queues_prev_page() {
    let mut app = test_app(items(40));
    app.search.pager = Some(search_pager(Some(PageCursor::Giphy { offset: 40 }), None));
    app.search.page = 1;
    app.search.selected = 7;
    app.handle_key(key(KeyCode::Char('u')));
    assert_eq!(app.pending, Some(Pending::Page(PageDir::Prev)));
    assert_eq!(app.search.selected, 7, "cursor does not move when paging");

    app.pending = None;
    app.handle_key(ctrl('u'));
    assert_eq!(app.pending, Some(Pending::Page(PageDir::Prev)));
}

#[test]
fn page_up_and_page_down_are_not_bound() {
    let mut app = test_app(items(40));
    app.search.pager = Some(search_pager(
        Some(PageCursor::Giphy { offset: 40 }),
        Some(200),
    ));
    app.search.page = 1;
    app.search.selected = 7;
    for code in [KeyCode::PageDown, KeyCode::PageUp] {
        app.handle_key(key(code));
        assert_eq!(app.pending, None, "{code:?} must not page");
        assert_eq!(app.search.selected, 7, "{code:?} must not move the cursor");
        assert_eq!(app.search.page, 1, "{code:?} must not change the page");
        assert!(!app.should_quit, "{code:?} must not quit");
    }
}

#[test]
fn apply_page_replaces_items_and_resets_cursor() {
    let mut app = test_app(items(40));
    app.cols = 4;
    app.rows = 6;
    app.search.selected = 17;
    app.search.first_item = 16;
    app.search.page = 2;
    app.apply_page(items(3));
    assert_eq!(app.search.items.len(), 3);
    assert_eq!(app.search.items[0].url, "https://gifdeck.test/0.gif");
    assert_eq!(app.search.selected, 0);
    assert_eq!(app.search.first_item, 0);
    assert_eq!(app.status, None);
}

#[test]
fn tab_key_switches_tab_and_swaps_grid() {
    let mut app = test_app(items(3));
    app.search.pager = Some(search_pager(None, Some(3)));
    app.favorites.items = items(5);
    app.handle_key(key(KeyCode::Tab));
    assert_eq!(app.tab, Tab::Favorites);
    assert_eq!(app.pending, Some(Pending::TabLoad));
    assert_eq!(app.grid().items.len(), 5);
    assert!(app.grid().pager.is_none(), "tabs keep separate pagers");
    assert!(!app.search_focused);

    app.pending = None;
    app.handle_key(key(KeyCode::Tab));
    assert_eq!(app.tab, Tab::Search);
    assert_eq!(app.pending, Some(Pending::TabLoad));
    assert_eq!(app.grid().items.len(), 3);
    assert!(app.grid().pager.is_some());
}

#[test]
fn switch_tab_preserves_per_tab_cursors() {
    let mut app = test_app(items(3));
    app.favorites.items = items(9);
    app.search.selected = 1;
    app.favorites.selected = 7;
    app.handle_key(key(KeyCode::Tab));
    assert_eq!(app.favorites.selected, 7);
    app.handle_key(key(KeyCode::Tab));
    assert_eq!(app.search.selected, 1);
}

#[test]
fn tab_from_search_box_blurs_and_switches() {
    let mut app = test_app(items(3));
    app.search_focused = true;
    app.handle_key(key(KeyCode::Tab));
    assert_eq!(app.tab, Tab::Favorites);
    assert!(!app.search_focused);
    assert_eq!(app.pending, Some(Pending::TabLoad));
}

#[test]
fn slash_focuses_search_box() {
    let mut app = test_app(items(3));
    app.handle_key(key(KeyCode::Char('/')));
    assert!(app.search_focused);
}

#[test]
fn slash_does_nothing_on_favorites() {
    let mut app = test_app(items(3));
    app.tab = Tab::Favorites;
    app.handle_key(key(KeyCode::Char('/')));
    assert!(!app.search_focused);
    assert_eq!(Tab::Favorites.toggle(), Tab::Search);
    assert_eq!(Tab::Search.toggle(), Tab::Favorites);
}

#[test]
fn typing_while_focused_builds_query_without_commands() {
    let mut app = test_app(items(3));
    app.search_focused = true;
    for c in "cat".chars() {
        app.handle_key(key(KeyCode::Char(c)));
    }
    assert_eq!(app.query, "cat");
    // Keys that are commands when blurred (j, v, c, y, d, u, q) are
    // plain input while focused, and never queue actions or move.
    for c in "jvcyduq".chars() {
        app.handle_key(key(KeyCode::Char(c)));
    }
    assert_eq!(app.query, "catjvcyduq");
    assert_eq!(app.pending, None);
    assert_eq!(app.search.selected, 0);
    assert!(!app.should_quit);
}

#[test]
fn modified_characters_are_not_typed() {
    let mut app = test_app(items(3));
    app.search_focused = true;
    app.handle_key(ctrl('x'));
    app.handle_key(KeyEvent {
        code: KeyCode::Char('x'),
        modifiers: KeyModifiers {
            control: false,
            alt: true,
        },
    });
    app.handle_key(key(KeyCode::Down));
    app.handle_key(key(KeyCode::Other));
    assert_eq!(app.query, "");
    assert_eq!(app.search.selected, 0);
}

#[test]
fn backspace_and_ctrl_u_edit_query() {
    let mut app = test_app(items(3));
    app.search_focused = true;
    for c in "cat".chars() {
        app.handle_key(key(KeyCode::Char(c)));
    }
    app.handle_key(key(KeyCode::Backspace));
    assert_eq!(app.query, "ca");
    app.handle_key(ctrl('u'));
    assert_eq!(app.query, "");
    app.handle_key(key(KeyCode::Backspace));
    assert_eq!(app.query, "");
    app.handle_key(key(KeyCode::Char('é')));
    app.handle_key(key(KeyCode::Backspace));
    assert_eq!(app.query, "");
}

#[test]
fn esc_clears_then_blurs_but_never_eats_quit() {
    let mut app = test_app(items(3));
    app.search_focused = true;
    for c in "cat".chars() {
        app.handle_key(key(KeyCode::Char(c)));
    }
    app.handle_key(key(KeyCode::Esc));
    assert_eq!(app.query, "", "first Esc clears the query");
    assert!(app.search_focused);
    app.handle_key(key(KeyCode::Esc));
    assert!(!app.search_focused, "second Esc blurs");
    assert!(!app.should_quit, "blur Esc must not quit");
    app.handle_key(key(KeyCode::Esc));
    assert!(app.should_quit, "Esc while blurred quits");
}

#[test]
fn enter_queues_search_and_blurs() {
    let mut app = test_app(items(3));
    app.search_focused = true;
    for c in "cat".chars() {
        app.handle_key(key(KeyCode::Char(c)));
    }
    app.handle_key(key(KeyCode::Enter));
    assert!(!app.search_focused);
    assert_eq!(app.pending, Some(Pending::Search));

    // Empty query: Enter blurs but does not hammer the API.
    app.pending = None;
    app.search_focused = true;
    app.query.clear();
    app.handle_key(key(KeyCode::Enter));
    assert!(!app.search_focused);
    assert_eq!(app.pending, None);
    assert!(app.status.as_deref().unwrap().contains("type a query"));
}

#[test]
fn ctrl_c_quits_from_search_box() {
    let mut app = test_app(items(3));
    app.search_focused = true;
    app.handle_key(ctrl('c'));
    assert!(app.should_quit);
    assert!(app.search_focused && app.pending.is_none());
}

#[test]
fn q_quits_without_a_choice() {
    let mut app = test_app(items(3));
    app.handle_key(key(KeyCode::Char('q')));
    assert!(app.should_quit);
    assert_eq!(app.selected_url, None);
}

#[test]
fn v_c_y_without_selection_are_noops() {
    let mut app = test_app(Vec::new());
    for c in ['v', 'c', 'y'] {
        app.handle_key(key(KeyCode::Char(c)));
        assert_eq!(app.pending, None, "'{c}' with no items must not queue");
    }
}

#[test]
fn v_c_y_with_selection_queue_actions() {
    let mut app = test_app(items(2));
    app.handle_key(key(KeyCode::Char('v')));
    assert_eq!(app.pending, Some(Pending::Toggle));
    app.pending = None;
    app.handle_key(key(KeyCode::Char('c')));
    assert_eq!(app.pending, Some(Pending::CopyGif));
    app.pending = None;
    app.handle_key(key(KeyCode::Char('y')));
    assert_eq!(app.pending, Some(Pending::CopyUrl));
}

#[test]
fn arrows_and_letters_move_alike() {
    let pairs = [
        (KeyCode::Down, 'j', 5),
        (KeyCode::Up, 'k', 9),
        (KeyCode::Left, 'h', 1),
        (KeyCode::Right, 'l', 3),
    ];
    for (arrow, letter, lands) in pairs {
        for code in [arrow, KeyCode::Char(letter)] {
            let mut app = test_app(items(10));
            app.cols = 3;
            app.rows = 2;
            app.search.selected = 2;
            app.handle_key(key(code));
            assert_eq!(app.search.selected, lands, "{code:?}");
        }
    }
}

#[test]
fn home_and_end_jump() {
    let mut app = test_app(items(20));
    app.cols = 3;
    app.rows = 2;
    app.handle_key(key(KeyCode::End));
    assert_eq!(app.search.selected, 19);
    assert_eq!(app.search.first_item, 15);
    app.handle_key(key(KeyCode::Home));
    assert_eq!((app.search.selected, app.search.first_item), (0, 0));
    let mut none = test_app(Vec::new());
    none.handle_key(key(KeyCode::End));
    assert_eq!(none.search.selected, 0);
}

#[test]
fn cursor_stays_on_the_items_whatever_is_pressed() {
    let codes = [
        KeyCode::Down,
        KeyCode::Up,
        KeyCode::Left,
        KeyCode::Right,
        KeyCode::Home,
        KeyCode::End,
        KeyCode::Char('d'),
        KeyCode::Char('u'),
        KeyCode::PageUp,
    ];
    for len in [0usize, 1, 2, 7, 23] {
        let mut app = test_app(items(len));
        app.cols = 4;
        app.rows = 2;
        for step in 0..200 {
            app.handle_key(key(codes[(step * 7 + step / 3) % codes.len()]));
            let g = app.grid();
            assert!(g.selected < len.max(1));
            if len > 0 {
                assert!(g.first_item <= g.selected && g.selected < g.first_item + 8);
                assert_eq!(g.first_item % 4, 0);
            }
        }
    }
}

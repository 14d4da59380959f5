use std::sync::Arc;

use gifdeck::app::{App, Tab};
use gifdeck::config::Config;
use gifdeck::draw::{CellBody, GridBody};
use gifdeck::favs::{FavsBackend, FavsClient};
use gifdeck::geometry::Rect;
use gifdeck::item::UrlItem;
use gifdeck::layout::{cell_areas, screen_areas};
use gifdeck::lines::{image_height, truncate, Look, Piece};
use gifdeck::pager::Pager;
use gifdeck::preview::{CachedPreview, Loaded, PreviewCache};
use gifdeck::providers::{Provider, Source};
use gifdeck::store::LocalStore;

fn items(n: usize) -> Vec<UrlItem> {
    (0..n)
        .map(|i| UrlItem {
            id: format!("id{i}"),
            title: format!("gif {i}"),
            url: format!("https://gifdeck.test/{i}.gif"),
            preview_url: format!("p{i}"),
            provider: Provider::Klipy,
        })
        .collect()
}

fn test_app(items: Vec<UrlItem>) -> App<u8> {
    let mut app = App::new(
        Config::default(),
        Source::Auto,
        FavsBackend::Local(LocalStore::at("/data/favorites.json".to_string())),
    );
    app.search.items = items;
    app
}

fn preview() -> CachedPreview<u8> {
    CachedPreview {
        frames: vec![0],
        delays: vec![40],
        loaded_at: 0,
        bytes: Arc::new(vec![1]),
    }
}

/// The screen whose grid has the given area: two lines above it and two below.
fn around(x: u16, y: u16, width: u16, height: u16) -> Rect {
    Rect::new(x, y - 2, width, height + 4)
}

fn pieces(p: &[Piece]) -> Vec<(&str, Look)> {
    p.iter().map(|p| (p.text.as_str(), p.look)).collect()
}

#[test]
fn truncate_respects_width() {
    assert_eq!(truncate("short", 20), "short");
    assert_eq!(truncate("abcdefgh", 5), "abcd…");
}

#[test]
fn truncate_counts_characters() {
    assert_eq!(truncate("äöü", 3), "äöü");
    assert_eq!(truncate("äöüß", 3), "äö…");
    assert_eq!(truncate("ab", 1), "…");
    assert_eq!(truncate("ab", 0), "…");
    assert_eq!(truncate("", 0), "");
}

#[test]
fn image_height_leaves_a_line_for_the_title() {
    assert_eq!(image_height(0), 0);
    assert_eq!(image_height(1), 0);
    assert_eq!(image_height(3), 2);
    assert_eq!(image_height(5), 4);
    assert_eq!(image_height(50), 4);
}

#[test]
fn tabs_mark_the_active_one() {
    let mut app = test_app(Vec::new());
    assert_eq!(
        pieces(&app.tabs_line()),
        vec![
            (" gifdeck · ", Look::Dim),
            ("[Search]", Look::Active),
            (" ", Look::Dim),
            ("[Favorites]", Look::Dim),
            (" · q quit", Look::Dim),
        ]
    );
    app.tab = Tab::Favorites;
    let line = app.tabs_line();
    assert_eq!((line[1].look, line[3].look), (Look::Dim, Look::Active));
}

#[test]
fn search_box_shows_what_it_takes() {
    let mut app = test_app(Vec::new());
    assert_eq!(
        pieces(&app.search_line()),
        vec![(" > type a query… (/ focus, Enter search)", Look::Dim)]
    );
    app.query = "cat".into();
    assert_eq!(
        pieces(&app.search_line()),
        vec![(" > ", Look::Dim), ("cat", Look::Dim)]
    );
    app.search_focused = true;
    assert_eq!(
        pieces(&app.search_line()),
        vec![(" > ", Look::Plain), ("cat", Look::Colored), ("█", Look::Active)]
    );
    app.tab = Tab::Favorites;
    app.search_focused = false;
    app.query.clear();
    assert_eq!(
        pieces(&app.search_line()),
        vec![(" > ", Look::Dim), ("", Look::Dim)]
    );
}

#[test]
fn empty_grids_say_what_to_do() {
    let mut app = test_app(Vec::new());
    assert_eq!(
        app.empty_message(),
        "type a query, then Enter — press / to focus the search box\nq quit"
    );
    app.query = " cat ".into();
    assert_eq!(
        app.empty_message(),
        "no results for 'cat' — press / to edit, Enter to search\nq quit"
    );
    app.tab = Tab::Favorites;
    assert_eq!(
        app.empty_message(),
        "no favorites yet — press v on the Search tab to star one\nq quit"
    );
}

#[test]
fn footer_lines() {
    let mut app = test_app(items(12));
    assert_eq!(
        app.nav_line(),
        "12 items · ←↑↓→ / hjkl move · u/d page · Enter/Space pick · q quit \
         · no graphics protocol — title-only mode"
    );
    assert_eq!(
        app.action_line(),
        "Tab switch · c copy gif · y copy url · v favorite · local favorites"
    );
    app.search.pager = Some(Pager::favs(app.favs.clone(), Some(120)));
    app.search.page = 1;
    app.status = Some("copied URL".into());
    app.enable_previews(PreviewCache::new(4));
    assert_eq!(
        app.nav_line(),
        "12 items · page 2/3 · ←↑↓→ / hjkl move · u/d page · Enter/Space pick · q quit \
         · 0 loaded"
    );
    let cfg = Config {
        favorites_api: Some("http://s".into()),
        ..Config::default()
    };
    app.favs = FavsBackend::Server(FavsClient::new(&cfg).unwrap());
    assert_eq!(
        app.action_line(),
        "Tab switch · c copy gif · y copy url · v favorite — copied URL"
    );
}

#[test]
fn footer_counts_previews() {
    let mut app = test_app(items(3));
    app.enable_previews(PreviewCache::new(4));
    app.cols = 3;
    app.rows = 1;
    assert_eq!(app.request_previews(), vec!["p0", "p1", "p2"]);
    assert!(app.nav_line().ends_with(" · 0 loaded · 3 loading"));
    app.preview_loaded("p0", Loaded::Decoded(preview()));
    app.preview_loaded("p1", Loaded::NotGif);
    assert!(app.nav_line().ends_with(" · 1 loaded · 1 loading · 1 failed"));
}

#[test]
fn previews_are_asked_for_once_and_nearest_first() {
    let mut app = test_app(items(30));
    assert!(app.request_previews().is_empty(), "title-only mode");
    app.items_without_preview(1);
    app.enable_previews(PreviewCache::new(100));
    app.cols = 3;
    app.rows = 2;
    app.search.selected = 4;
    assert_eq!(app.request_previews(), vec!["p4", "p3", "p5", "p0", "p2"]);
    assert!(app.request_previews().is_empty());
    app.preview_loaded("p4", Loaded::Failed("x".into()));
    assert!(app.request_previews().is_empty(), "failures are not retried");
}

trait WithoutPreview {
    fn items_without_preview(&mut self, idx: usize);
}

impl WithoutPreview for App<u8> {
    fn items_without_preview(&mut self, idx: usize) {
        self.search.items[idx].preview_url.clear();
    }
}

#[test]
fn viewport_sizes_the_cache_to_twice_the_cells() {
    let mut app = test_app(items(40));
    app.enable_previews(PreviewCache::new(4096));
    app.search.selected = 39;
    app.set_viewport(45, 15);
    assert_eq!((app.cols, app.rows), (3, 2));
    assert_eq!(app.search.first_item, 36);
    // 3 x 2 cells: room for 12 previews that are done.
    for i in 0..40 {
        app.search.selected = i;
        app.ensure_visible();
        for url in app.request_previews() {
            app.preview_loaded(&url, Loaded::Decoded(preview()));
        }
    }
    assert!(app.nav_line().contains(" · 12 loaded"), "{}", app.nav_line());
}

#[test]
fn page_change_drops_previews() {
    let mut app = test_app(items(3));
    app.enable_previews(PreviewCache::new(10));
    app.cols = 3;
    app.request_previews();
    app.apply_page(items(2));
    assert!(app.nav_line().ends_with(" · 0 loaded"));
    app.preview_loaded("p0", Loaded::Decoded(preview()));
    assert!(app.nav_line().ends_with(" · 0 loaded"), "late result dropped");
}

#[test]
fn headlines_have_star_number_and_title() {
    let mut app = test_app(items(3));
    app.set_fav_ids(vec!["id1".into()]);
    app.search.items[2].title = "  ".into();
    assert_eq!(app.headline(0), "☆ 0001 · gif 0");
    assert_eq!(app.headline(1), "★ 0002 · gif 1");
    assert_eq!(app.headline(2), "☆ 0003");
    assert_eq!(app.title_line(0, 4), "gif…");
    assert_eq!(app.title_line(2, 4), "");
}

fn cells(body: GridBody) -> Vec<gifdeck::draw::DrawnCell> {
    match body {
        GridBody::Cells(c) => c,
        GridBody::Message(m) => panic!("{m}"),
    }
}

#[test]
fn cells_fill_the_area_row_by_row() {
    let mut app = test_app(items(5));
    let screen = app.draw(around(2, 3, 30, 15));
    assert!(screen.loads.is_empty());
    let cells = cells(screen.body);
    assert_eq!(cells.len(), 4);
    let areas: Vec<Rect> = cells.iter().map(|c| c.area).collect();
    assert_eq!(
        areas,
        vec![
            Rect::new(2, 3, 14, 7),
            Rect::new(16, 3, 14, 7),
            Rect::new(2, 10, 14, 7),
            Rect::new(16, 10, 14, 7),
        ]
    );
    assert!(cells[0].selected && !cells[1].selected);
    assert_eq!(cells[0].inner, Rect::new(3, 4, 12, 5));
    assert!(matches!(&cells[3].body, CellBody::Title { title } if title == "gif 3"));
    assert_eq!(cells[3].headline, "☆ 0004 · gif 3");
}

#[test]
fn cells_shrink_with_the_area() {
    let mut app = test_app(items(5));
    let one = cells(app.draw(around(0, 2, 10, 4)).body);
    assert_eq!(one.len(), 1);
    assert_eq!(one[0].area, Rect::new(0, 2, 10, 4));
    assert_eq!(one[0].inner, Rect::new(1, 3, 8, 2));
    assert_eq!(cells(app.draw(around(0, 2, 0, 9)).body).len(), 0);
    let flat = cells(app.draw(around(0, 2, 14, 2)).body);
    assert!(matches!(flat[0].body, CellBody::Nothing));
}

#[test]
fn last_cells_are_partial_rows() {
    let mut app = test_app(items(5));
    app.search.selected = 4;
    let drawn = cells(app.draw(around(0, 2, 28, 7)).body);
    assert_eq!(drawn.len(), 1);
    assert!(drawn[0].selected);
    assert_eq!(drawn[0].headline, "☆ 0005 · gif 4");
}

#[test]
fn graphics_cells_hold_image_and_title() {
    let mut app = test_app(items(2));
    app.search.items[1].preview_url.clear();
    app.enable_previews(PreviewCache::new(4));
    let screen = app.draw(around(0, 2, 28, 7));
    assert_eq!(screen.loads, vec!["p0"]);
    assert!(screen.nav.ends_with(" · 0 loaded · 1 loading"));
    let drawn = cells(screen.body);
    assert!(matches!(
        &drawn[0].body,
        CellBody::Image { preview_url, title, .. } if preview_url == "p0" && title == "gif 0"
    ));
    assert!(matches!(
        drawn[0].body,
        CellBody::Image { image, text, .. }
            if image == Rect::new(1, 3, 12, 4) && text == Rect::new(1, 7, 12, 1)
    ));
    assert!(matches!(
        &drawn[1].body,
        CellBody::Image { preview_url, .. } if preview_url.is_empty()
    ));
    // Room for one line inside the border is too little for an image.
    let low = cells(app.draw(around(0, 2, 28, 3)).body);
    assert!(matches!(low[0].body, CellBody::Nothing));
}

#[test]
fn empty_grid_draws_a_message() {
    let mut app = test_app(Vec::new());
    app.enable_previews(PreviewCache::new(4));
    let screen = app.draw(around(0, 2, 80, 20));
    assert!(matches!(screen.body, GridBody::Message(m) if m.starts_with("type a query")));
    assert_eq!((app.cols, app.rows), (5, 2));
    assert!(screen.actions.starts_with("Tab switch"));
    assert_eq!(screen.tabs.len(), 5);
    assert_eq!(screen.search.len(), 1);
}

#[test]
fn the_screen_has_a_header_a_grid_and_a_footer() {
    let mut app = test_app(items(1));
    let areas = app.draw(Rect::new(3, 1, 80, 24)).areas;
    assert_eq!(areas.tabs, Rect::new(3, 1, 80, 1));
    assert_eq!(areas.search, Rect::new(3, 2, 80, 1));
    assert_eq!(areas.grid, Rect::new(3, 3, 80, 20));
    assert_eq!(areas.nav, Rect::new(3, 23, 80, 1));
    assert_eq!(areas.actions, Rect::new(3, 24, 80, 1));
}

#[test]
fn every_part_of_a_screen_lies_in_it() {
    for y in [0, 7, 60_000] {
        for height in 0..60 {
            let screen = Rect::new(5, y, 30, height);
            let a = screen_areas(screen);
            let parts = [a.tabs, a.search, a.grid, a.nav, a.actions];
            for p in parts {
                assert_eq!((p.x, p.width), (5, 30));
                assert!(y <= p.y && p.y + p.height <= y + height, "{screen:?} {a:?}");
            }
            if height >= 4 {
                assert_eq!(parts.map(|p| p.height), [1, 1, height - 4, 1, 1]);
                let tops = [0, 1, 2, height - 2, height - 1];
                assert_eq!(parts.map(|p| p.y - y), tops);
            }
        }
    }
    assert_eq!(screen_areas(Rect::new(0, 0, 9, u16::MAX)).grid.height, u16::MAX - 4);
}

#[test]
fn cells_are_split_exactly() {
    for height in 2..40 {
        for image in 0..height {
            let (img, text) = cell_areas(Rect::new(1, 2, 12, height), image);
            assert_eq!(img, Rect::new(1, 2, 12, image));
            assert_eq!(text, Rect::new(1, 2 + image, 12, height - image));
        }
    }
}

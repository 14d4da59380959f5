//! What holds of the picker whatever is pressed and whatever comes in.

use vstd::prelude::*;

pub mod clipboard;
pub mod config;
pub mod favorites;
pub mod grid;
pub mod keys;
pub mod lines;
pub mod paging;
pub mod previews;
pub mod providers;
pub mod screen;
pub mod session;
pub mod store;
pub mod text;
pub mod work;

use crate::app::{empty_grid, half_page, other_tab, GridView, Pending, PickerView, Tab};
use crate::favs::{FavItem, FavsPage};
use crate::grid::{
    above, at_least_one, below, capped_product, left_of, lemma_nav_stays_inside,
    lemma_scrolled_shows_cursor, right_of,
};
use crate::item::UrlItem;
use crate::keys::{KeyCode, KeyEvent, KeyModifiers};
use crate::pager::{PageDir, PageReply};
use crate::providers::SearchPage;
use crate::text::is_blank;
use crate::work::{Effect, Reply};

verus! {

impl<F> PickerView<F> {
    /// Both cursors are on items, as far as there are any, and typing goes to
    /// the search box on the Search tab only.
    pub open spec fn sound(self) -> bool {
        &&& self.search.cursor_ok()
        &&& self.favorites.cursor_ok()
        &&& self.search_focused ==> self.tab == Tab::Search
    }
}

/// Ctrl+C quits, whatever the picker is doing, and does nothing else.
pub proof fn lemma_ctrl_c_quits<F>(v: PickerView<F>, alt: bool)
    ensures
        v.key(
            KeyEvent {
                code: KeyCode::Char('c'),
                modifiers: KeyModifiers { control: true, alt },
            },
        ) == (PickerView { should_quit: true, ..v }),
{
}

/// PageUp and PageDown are not bound.
pub proof fn lemma_page_keys_unbound<F>(v: PickerView<F>, modifiers: KeyModifiers)
    ensures
        v.key(KeyEvent { code: KeyCode::PageUp, modifiers }) == v,
        v.key(KeyEvent { code: KeyCode::PageDown, modifiers }) == v,
{
}

/// While the search box is focused, no key reaches the grid: both grids stay as
/// they are, and only Enter and Tab queue work.
pub proof fn lemma_typing_stays_in_the_box<F>(v: PickerView<F>, key: KeyEvent)
    requires
        v.search_focused,
    ensures
        v.key(key).search == v.search,
        v.key(key).favorites == v.favorites,
        v.key(key).selected_url == v.selected_url,
        key.code != KeyCode::Enter && key.code != KeyCode::Tab ==> v.key(key).pending == v.pending
            && v.key(key).tab == v.tab,
        v.key(key).should_quit ==> v.should_quit || key.code == KeyCode::Char('c'),
{
}

/// Text typed into the search box is the query, and as many presses of Backspace
/// take it back.
pub proof fn lemma_backspace_undoes_typing<F>(v: PickerView<F>, c: char)
    requires
        v.search_focused,
    ensures
        ({
            let plain = KeyModifiers { control: false, alt: false };
            let typed = v.key(KeyEvent { code: KeyCode::Char(c), modifiers: plain });
            &&& typed.query == v.query.push(c)
            &&& typed.key(KeyEvent { code: KeyCode::Backspace, modifiers: plain }) == v
        }),
{
    assert(v.query.push(c).drop_last() == v.query);
}

/// Esc in the search box clears the query first, then leaves the box, and never
/// quits.
pub proof fn lemma_esc_clears_then_blurs<F>(v: PickerView<F>, modifiers: KeyModifiers)
    requires
        v.search_focused,
        v.query.len() > 0,
    ensures
        ({
            let esc = KeyEvent { code: KeyCode::Esc, modifiers };
            let cleared = v.key(esc);
            let blurred = cleared.key(esc);
            &&& cleared == (PickerView { query: Seq::empty(), ..v })
            &&& blurred == (PickerView { search_focused: false, ..cleared })
            &&& blurred.should_quit == v.should_quit
            &&& blurred.key(esc).should_quit
        }),
{
}

/// Switching tabs keeps both grids, cursors and pages; switching twice leads
/// back.
pub proof fn lemma_tab_switch_keeps_grids<F>(v: PickerView<F>, modifiers: KeyModifiers)
    ensures
        ({
            let tab = KeyEvent { code: KeyCode::Tab, modifiers };
            let there = v.key(tab);
            let back = there.key(tab);
            &&& there.tab == other_tab(v.tab)
            &&& there.search == v.search
            &&& there.favorites == v.favorites
            &&& there.pending == Some(Pending::TabLoad)
            &&& !there.search_focused
            &&& back.tab == v.tab
            &&& back.grid() == v.grid()
        }),
{
}

/// With a pager, d and u queue a page turn and leave the cursor where it is.
pub proof fn lemma_paging_keeps_cursor<F>(v: PickerView<F>, modifiers: KeyModifiers)
    requires
        !v.search_focused,
        v.grid().pager is Some,
    ensures
        v.key(KeyEvent { code: KeyCode::Char('d'), modifiers }) == v.queued(
            Pending::Page(PageDir::Next),
        ),
        v.key(KeyEvent { code: KeyCode::Char('u'), modifiers }) == v.queued(
            Pending::Page(PageDir::Prev),
        ),
        v.key(KeyEvent { code: KeyCode::Char('d'), modifiers }).grid() == v.grid(),
{
}

/// Without an item at the cursor, v, c and y queue nothing, and nothing can be
/// chosen.
pub proof fn lemma_nothing_selected<F>(v: PickerView<F>, modifiers: KeyModifiers)
    requires
        !v.search_focused,
        !modifiers.control,
        v.grid().active() is None,
    ensures
        v.key(KeyEvent { code: KeyCode::Char('v'), modifiers }) == v,
        v.key(KeyEvent { code: KeyCode::Char('c'), modifiers }) == v,
        v.key(KeyEvent { code: KeyCode::Char('y'), modifiers }) == v,
        v.key(KeyEvent { code: KeyCode::Enter, modifiers }) == v,
        v.key(KeyEvent { code: KeyCode::Char(' '), modifiers }) == v,
{
}

proof fn lemma_moved_sound<F>(v: PickerView<F>, selected: int)
    requires
        v.sound(),
        0 <= selected,
        selected < v.grid().items.len() || selected == 0,
    ensures
        v.moved(selected).sound(),
{
}

proof fn lemma_half_sound<F>(v: PickerView<F>, dir: PageDir)
    requires
        v.sound(),
    ensures
        v.scrolled_half(dir).sound(),
{
    let g = v.grid();
    let len = g.items.len() as int;
    let jump = half_page(v.cols as int, v.rows as int);
    assert(jump >= 0) by {
        let rows = at_least_one(at_least_one(v.rows as int) / 2);
        let cols = at_least_one(v.cols as int);
        assert(rows * cols >= 0) by (nonlinear_arith)
            requires
                rows >= 0,
                cols >= 0,
        ;
    }
    if len > 0 {
        match dir {
            PageDir::Next => {
                if g.selected + jump >= len {
                    lemma_moved_sound(v, len - 1);
                } else {
                    lemma_moved_sound(v, g.selected + jump);
                }
            },
            PageDir::Prev => {
                if g.selected < jump {
                    lemma_moved_sound(v, 0);
                } else {
                    lemma_moved_sound(v, g.selected - jump);
                }
            },
        }
    }
}

/// No key takes a cursor off the items, or typing to the Favorites tab.
pub proof fn lemma_keys_keep_sound<F>(v: PickerView<F>, key: KeyEvent)
    requires
        v.sound(),
    ensures
        v.key(key).sound(),
{
    let g = v.grid();
    let len = g.items.len() as int;
    let cols = at_least_one(v.cols as int);
    if len > 0 {
        lemma_nav_stays_inside(g.selected, cols, len);
    }
    lemma_moved_sound(v, below(g.selected, cols, len));
    lemma_moved_sound(v, above(g.selected, cols, len));
    lemma_moved_sound(v, left_of(g.selected, len));
    lemma_moved_sound(v, right_of(g.selected, len));
    lemma_moved_sound(v, 0);
    lemma_moved_sound(
        v,
        if len > 0 {
            len - 1
        } else {
            0
        },
    );
    lemma_half_sound(v, PageDir::Next);
    lemma_half_sound(v, PageDir::Prev);
    if v.search_focused {
        assert(v.search_key(key).sound());
    } else {
        assert(v.grid_key(key).sound());
    }
}

/// A search is queued by Enter in the search box only, and never for a blank
/// query.
pub proof fn lemma_enter_alone_searches<F>(v: PickerView<F>, key: KeyEvent)
    requires
        v.pending != Some(Pending::Search),
        v.key(key).pending == Some(Pending::Search),
    ensures
        v.search_focused,
        key.code == KeyCode::Enter,
        !is_blank(v.query),
{
}

/// Whatever comes in keeps the cursors on the items.
pub proof fn lemma_replies_keep_sound<F>(
    v: PickerView<F>,
    dir: PageDir,
    page: Result<PageReply, String>,
    q: Seq<char>,
    found: Result<SearchPage, String>,
    favorites: Result<FavsPage, String>,
)
    requires
        v.sound(),
    ensures
        v.page_finished(dir, page).sound(),
        v.search_finished(q, found).sound(),
        v.wants_favorites() ==> v.favorites_loaded(favorites).sound(),
{
}

/// Fitting the picker to another area keeps items, cursors and tab.
pub proof fn lemma_fitting_keeps_cursor<F>(v: PickerView<F>, width: u16, height: u16)
    requires
        v.sound(),
    ensures
        v.fitted(width, height).sound(),
        v.fitted(width, height).grid().selected == v.grid().selected,
        v.fitted(width, height).grid().items == v.grid().items,
        v.fitted(width, height).tab == v.tab,
{
}

/// Whatever key is pressed, the cursor of the active grid is in view if it moved,
/// and a window that started at the beginning of a row still does.
pub proof fn lemma_moves_stay_in_view<F>(v: PickerView<F>, selected: int)
    requires
        0 <= v.grid().first_item,
        0 <= selected < v.grid().items.len() <= usize::MAX,
    ensures
        ({
            let g = v.moved(selected).grid();
            let cols = at_least_one(v.cols as int);
            &&& g.selected == selected
            &&& 0 <= g.first_item <= selected < g.first_item + capped_product(
                at_least_one(v.rows as int),
                cols,
            )
            &&& v.grid().first_item % cols == 0 ==> g.first_item % cols == 0
        }),
{
    lemma_scrolled_shows_cursor(
        v.grid().first_item,
        selected,
        at_least_one(v.cols as int),
        at_least_one(v.rows as int),
        v.grid().items.len() as int,
    );
}

/// A page that could not be loaded leaves the current one as it is, and so does
/// an empty one but for what the pager learns; only the footer says so.
pub proof fn lemma_failed_page_keeps_grid<F>(
    v: PickerView<F>,
    dir: PageDir,
    reply: Result<PageReply, String>,
)
    requires
        reply is Err || reply->Ok_0.items@.len() == 0,
    ensures
        ({
            let after = v.page_finished(dir, reply);
            &&& after.grid().items == v.grid().items
            &&& after.grid().selected == v.grid().selected
            &&& after.grid().page == v.grid().page
            &&& after.previews == v.previews
            &&& reply is Err ==> after.grid() == v.grid()
            &&& v.grid().pager is Some ==> after.status is Some
        }),
{
}

/// A page that came in replaces the whole grid, with the cursor at the top left.
pub proof fn lemma_new_page_resets_cursor<F>(
    v: PickerView<F>,
    dir: PageDir,
    reply: Result<PageReply, String>,
)
    requires
        v.grid().pager is Some,
        reply is Ok,
        reply->Ok_0.items@.len() > 0,
    ensures
        ({
            let after = v.page_finished(dir, reply);
            &&& after.grid().items == reply->Ok_0.items@
            &&& after.grid().selected == 0
            &&& after.grid().first_item == 0
            &&& after.status is None
            &&& after.tab == v.tab
        }),
{
}

/// The pager of a grid leads to the page that the grid shows.
pub open spec fn in_step(g: GridView) -> bool {
    g.page >= 0 && (g.pager is Some ==> g.pager->0.at_page(g.page))
}

/// A page turn that was not refused keeps the pager in step with its grid,
/// however it ends.
pub proof fn lemma_turns_keep_step<F>(
    v: PickerView<F>,
    dir: PageDir,
    reply: Result<PageReply, String>,
)
    requires
        in_step(v.grid()),
        v.grid().pager is Some,
        v.grid().pager->0.refuses(dir, v.grid().page) is None,
    ensures
        in_step(v.page_finished(dir, reply).grid()),
{
}

/// A new search starts in step, on its first page.
pub proof fn lemma_searches_start_in_step<F>(
    v: PickerView<F>,
    q: Seq<char>,
    reply: Result<SearchPage, String>,
)
    requires
        reply is Ok,
    ensures
        in_step(v.search_finished(q, reply).search),
        v.search_finished(q, reply).search.page == 0,
        v.search_finished(q, reply).tab == Tab::Search,
        v.search_finished(q, reply).favorites == v.favorites,
{
}

/// Saving an item that was no favorite and removing it again restores the set of
/// favorites, and so does the reverse.
pub proof fn lemma_toggle_twice<F>(v: PickerView<F>, id: Seq<char>)
    ensures
        !v.fav_ids.contains(id) ==> v.toggled(id, false).toggled(id, true).fav_ids == v.fav_ids,
        v.fav_ids.contains(id) ==> v.toggled(id, true).toggled(id, false).fav_ids == v.fav_ids,
        v.toggled(id, false).fav_ids.contains(id),
        !v.toggled(id, true).fav_ids.contains(id),
{
    assert(!v.fav_ids.contains(id) ==> v.fav_ids.insert(id).remove(id) =~= v.fav_ids);
    assert(v.fav_ids.contains(id) ==> v.fav_ids.remove(id).insert(id) =~= v.fav_ids);
}

/// Refreshing the favorites keeps the cursor where it was as long as there is an
/// item there, and on the last item if not.
pub proof fn lemma_refresh_keeps_cursor<F>(
    v: PickerView<F>,
    page: int,
    items: Seq<UrlItem>,
    total: Option<usize>,
)
    requires
        v.sound(),
    ensures
        v.refreshed(page, items, total).sound(),
        v.favorites.selected < items.len() ==> v.refreshed(
            page,
            items,
            total,
        ).favorites.selected == v.favorites.selected,
        v.refreshed(page, items, total).search == v.search,
{
}

impl<F> PickerView<F> {
    /// The cursors are on items, typing goes to the search box on the Search tab
    /// only, and each tab has a pager of its own kind, if any, that leads to the
    /// page that its grid shows.
    pub open spec fn in_order(self) -> bool {
        &&& self.sound()
        &&& in_step(self.search)
        &&& in_step(self.favorites)
        &&& self.search.pager is Some ==> self.search.pager->0 is Search
        &&& self.favorites.pager is Some ==> self.favorites.pager->0 is Favs
    }
}

/// A picker that was just made is in order.
pub proof fn lemma_new_picker_in_order<F>(v: PickerView<F>)
    requires
        !v.search_focused,
        v.search == empty_grid(),
        v.favorites == empty_grid(),
    ensures
        v.in_order(),
{
}

/// Whether two pickers show the same pages: items, page and pager of both tabs.
pub open spec fn same_pages<F>(a: PickerView<F>, b: PickerView<F>) -> bool {
    &&& same_page(a.search, b.search)
    &&& same_page(a.favorites, b.favorites)
}

/// Whether two grids show the same page.
pub open spec fn same_page(a: GridView, b: GridView) -> bool {
    a.items == b.items && a.page == b.page && a.pager == b.pager
}

proof fn lemma_moved_pages<F>(v: PickerView<F>, selected: int)
    ensures
        same_pages(v.moved(selected), v),
{
}

proof fn lemma_half_pages<F>(v: PickerView<F>, dir: PageDir)
    ensures
        same_pages(v.scrolled_half(dir), v),
{
    let g = v.grid();
    let len = g.items.len() as int;
    let jump = half_page(v.cols as int, v.rows as int);
    lemma_moved_pages(v, len - 1);
    lemma_moved_pages(v, g.selected + jump);
    lemma_moved_pages(v, 0);
    lemma_moved_pages(v, g.selected - jump);
}

/// No key changes what a grid shows but its cursor: items, page and pager of both
/// tabs stay.
pub proof fn lemma_keys_keep_pages<F>(v: PickerView<F>, key: KeyEvent)
    ensures
        same_pages(v.key(key), v),
{
    let g = v.grid();
    let len = g.items.len() as int;
    let cols = at_least_one(v.cols as int);
    lemma_moved_pages(v, below(g.selected, cols, len));
    lemma_moved_pages(v, above(g.selected, cols, len));
    lemma_moved_pages(v, left_of(g.selected, len));
    lemma_moved_pages(v, right_of(g.selected, len));
    lemma_moved_pages(v, 0);
    lemma_moved_pages(
        v,
        if len > 0 {
            len - 1
        } else {
            0
        },
    );
    lemma_half_pages(v, PageDir::Next);
    lemma_half_pages(v, PageDir::Prev);
    if v.search_focused {
        assert(same_pages(v.search_key(key), v));
    } else {
        assert(same_pages(v.grid_key(key), v));
    }
}

/// No key brings the picker out of order.
pub proof fn lemma_keys_keep_order<F>(v: PickerView<F>, key: KeyEvent)
    requires
        v.in_order(),
    ensures
        v.key(key).in_order(),
{
    lemma_keys_keep_sound(v, key);
    lemma_keys_keep_pages(v, key);
}

/// Neither the beginning of queued work nor fitting the picker to an area brings
/// it out of order.
pub proof fn lemma_beginnings_keep_order<F>(
    v: PickerView<F>,
    work: Pending,
    width: u16,
    height: u16,
)
    requires
        v.in_order(),
    ensures
        v.begun().in_order(),
        v.work_begun(work).in_order(),
        v.fitted(width, height).in_order(),
{
}

/// Whatever is done outside, and whatever comes of it, the picker stays in order,
/// as long as a page is only fetched where the turn to it was not refused.
pub proof fn lemma_work_keeps_order<F>(v: PickerView<F>, done: Effect, reply: Reply)
    requires
        v.in_order(),
        done matches Effect::TurnPage { dir, .. } ==> v.grid().pager is Some
            && v.grid().pager->0.refuses(dir, v.grid().page) is None,
    ensures
        v.replied(done, reply).in_order(),
{
}

/// A session that starts in order opens in order, whatever the favorites and the
/// search that it starts with come to.
pub proof fn lemma_sessions_open_in_order<F>(
    v: PickerView<F>,
    listed: Result<Vec<FavItem>, String>,
    query: Option<String>,
    favs_only: bool,
    q: Seq<char>,
    found: Result<SearchPage, String>,
)
    requires
        v.in_order(),
        !v.search_focused,
    ensures
        v.listed(listed).started(query, favs_only).in_order(),
        v.listed(listed).started(query, favs_only).start_searched(q, found).in_order(),
{
}

} // verus!

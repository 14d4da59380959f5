//! What each key does, told by the picker before and after the press.

use vstd::prelude::*;

use crate::app::{App, GridState, GridView, Pending, PickerView, Tab};
use crate::grid::{above, at_least_one, left_of, lemma_nav_stays_inside, right_of};
use crate::item::UrlItem;
use crate::keys::{KeyCode, KeyEvent};
use crate::pager::PageDir;
use crate::text::is_white_space;

verus! {

/// The grid that the active tab shows.
pub open spec fn shown<F>(a: App<F>) -> GridState {
    match a.tab {
        Tab::Search => a.search,
        Tab::Favorites => a.favorites,
    }
}

/// Whether the cursor of the active tab is on an item.
pub open spec fn on_item<F>(a: App<F>) -> bool {
    shown(a).selected < shown(a).items@.len()
}

/// The item at the cursor of the active tab.
pub open spec fn item_of<F>(a: App<F>) -> UrlItem {
    shown(a).items@[shown(a).selected as int]
}

/// Whether the two pickers differ in the cursor of the active grid at most, and in
/// how far it is scrolled.
pub open spec fn cursor_moved<F>(a: App<F>, b: App<F>) -> bool {
    &&& b@ == (PickerView {
        search: GridView {
            selected: b.search.selected as int,
            first_item: b.search.first_item as int,
            ..a@.search
        },
        favorites: GridView {
            selected: b.favorites.selected as int,
            first_item: b.favorites.first_item as int,
            ..a@.favorites
        },
        ..a@
    })
    &&& a.tab == Tab::Search ==> b@.favorites == a@.favorites
    &&& a.tab == Tab::Favorites ==> b@.search == a@.search
}

/// Ctrl+C closes the picker wherever it is pressed, and picks nothing.
pub proof fn lemma_ctrl_c_closes<F>(app: &mut App<F>, key: KeyEvent)
    requires
        call_ensures(App::<F>::handle_key, (app, key), ()),
        key.code == KeyCode::Char('c'),
        key.modifiers.control,
    ensures
        final(app).should_quit,
        final(app)@ == (PickerView { should_quit: true, ..old(app)@ }),
{
}

/// Enter and Space pick the GIF at the cursor: its own address is handed out and
/// the picker closes. With nothing at the cursor they do nothing.
pub proof fn lemma_picking_gives_the_gif<F>(app: &mut App<F>, key: KeyEvent)
    requires
        call_ensures(App::<F>::handle_key, (app, key), ()),
        !old(app).search_focused,
        key.code == KeyCode::Enter || key.code == KeyCode::Char(' ') || key.code == KeyCode::Char(
            '\n',
        ),
    ensures
        on_item(*old(app)) ==> {
            &&& final(app).should_quit
            &&& final(app).selected_url is Some
            &&& final(app).selected_url->0@ == item_of(*old(app)).url@
            &&& final(app)@ == (PickerView {
                should_quit: true,
                selected_url: Some(item_of(*old(app)).url@),
                ..old(app)@
            })
        },
        !on_item(*old(app)) ==> final(app)@ == old(app)@,
{
}

/// Whichever key picks, the outcome is the same.
pub proof fn lemma_picking_keys_agree<F>(a: &mut App<F>, b: &mut App<F>, k: KeyEvent, l: KeyEvent)
    requires
        call_ensures(App::<F>::handle_key, (a, k), ()),
        call_ensures(App::<F>::handle_key, (b, l), ()),
        old(a)@ == old(b)@,
        !old(a).search_focused,
        k.code == KeyCode::Enter,
        l.code == KeyCode::Char(' ') || l.code == KeyCode::Char('\n'),
    ensures
        final(a)@ == final(b)@,
{
}

/// q and Esc close the picker without picking anything.
pub proof fn lemma_closing_picks_nothing<F>(app: &mut App<F>, key: KeyEvent)
    requires
        call_ensures(App::<F>::handle_key, (app, key), ()),
        !old(app).search_focused,
        key.code == KeyCode::Esc || key.code == KeyCode::Char('q'),
    ensures
        final(app).should_quit,
        final(app)@ == (PickerView { should_quit: true, ..old(app)@ }),
{
}

/// Tab shows the other tab and asks for it to be loaded; typing no longer goes to
/// the search box. Both grids stay.
pub proof fn lemma_tab_shows_the_other<F>(app: &mut App<F>, key: KeyEvent)
    requires
        call_ensures(App::<F>::handle_key, (app, key), ()),
        key.code == KeyCode::Tab,
    ensures
        final(app).tab != old(app).tab,
        final(app).pending == Some(Pending::TabLoad),
        !final(app).search_focused,
        final(app)@ == (PickerView {
            tab: final(app).tab,
            pending: Some(Pending::TabLoad),
            search_focused: false,
            ..old(app)@
        }),
{
}

/// The slash puts the focus on the search box of the Search tab, and does nothing
/// on the Favorites tab.
pub proof fn lemma_slash_focuses<F>(app: &mut App<F>, key: KeyEvent)
    requires
        call_ensures(App::<F>::handle_key, (app, key), ()),
        !old(app).search_focused,
        key.code == KeyCode::Char('/'),
    ensures
        final(app).search_focused == (old(app).tab == Tab::Search),
        final(app)@ == (PickerView { search_focused: final(app).search_focused, ..old(app)@ }),
{
}

/// v, c and y queue what they stand for, as long as there is an item at the cursor,
/// and nothing otherwise.
pub proof fn lemma_item_keys_queue<F>(app: &mut App<F>, key: KeyEvent)
    requires
        call_ensures(App::<F>::handle_key, (app, key), ()),
        !old(app).search_focused,
        !key.modifiers.control,
        key.code == KeyCode::Char('v') || key.code == KeyCode::Char('c') || key.code
            == KeyCode::Char('y'),
    ensures
        on_item(*old(app)) ==> {
            &&& key.code == KeyCode::Char('v') ==> final(app).pending == Some(Pending::Toggle)
            &&& key.code == KeyCode::Char('c') ==> final(app).pending == Some(Pending::CopyGif)
            &&& key.code == KeyCode::Char('y') ==> final(app).pending == Some(Pending::CopyUrl)
        },
        !on_item(*old(app)) ==> final(app).pending == old(app).pending,
        final(app)@ == (PickerView { pending: final(app).pending, ..old(app)@ }),
{
}

/// With a pager, d and u queue the turn to the next and to the previous page, and
/// change nothing else.
pub proof fn lemma_page_keys_queue<F>(app: &mut App<F>, key: KeyEvent)
    requires
        call_ensures(App::<F>::handle_key, (app, key), ()),
        !old(app).search_focused,
        shown(*old(app)).pager is Some,
        key.code == KeyCode::Char('d') || key.code == KeyCode::Char('u'),
    ensures
        key.code == KeyCode::Char('d') ==> final(app).pending == Some(Pending::Page(PageDir::Next)),
        key.code == KeyCode::Char('u') ==> final(app).pending == Some(Pending::Page(PageDir::Prev)),
        final(app)@ == (PickerView { pending: final(app).pending, ..old(app)@ }),
{
}

/// Without a pager, d and u move the cursor on and back by half the rows that are
/// visible, one at least, and no further than to the last and to the first item.
pub proof fn lemma_page_keys_scroll<F>(app: &mut App<F>, key: KeyEvent)
    requires
        call_ensures(App::<F>::handle_key, (app, key), ()),
        !old(app).search_focused,
        shown(*old(app)).pager is None,
        on_item(*old(app)),
        old(app).cols >= 1,
        old(app).rows >= 1,
        key.code == KeyCode::Char('d') || key.code == KeyCode::Char('u'),
    ensures
        ({
            let g = shown(*old(app));
            let half = if old(app).rows < 4 {
                1int
            } else {
                old(app).rows as int / 2
            };
            let jump = half * old(app).cols;
            let to = shown(*final(app)).selected as int;
            &&& jump > 0
            &&& key.code == KeyCode::Char('d') && g.selected + jump < g.items@.len() ==> to
                == g.selected + jump
            &&& key.code == KeyCode::Char('d') && g.selected + jump >= g.items@.len() ==> to
                == g.items@.len() - 1
            &&& key.code == KeyCode::Char('u') && jump <= g.selected ==> to == g.selected - jump
            &&& key.code == KeyCode::Char('u') && jump > g.selected ==> to == 0
        }),
        cursor_moved(*old(app), *final(app)),
{
    let rows = old(app).rows as int;
    let cols = old(app).cols as int;
    let half = if rows < 4 {
        1int
    } else {
        rows / 2
    };
    assert(half * cols > 0) by (nonlinear_arith)
        requires
            half >= 1,
            cols >= 1,
    ;
    assert(half * cols <= u16::MAX * u16::MAX) by (nonlinear_arith)
        requires
            1 <= half <= u16::MAX,
            1 <= cols <= u16::MAX,
    ;
}

/// With nothing to move to, no key that moves the cursor does anything but keep it
/// at the start.
pub proof fn lemma_empty_grid_stays<F>(app: &mut App<F>, key: KeyEvent)
    requires
        call_ensures(App::<F>::handle_key, (app, key), ()),
        !old(app).search_focused,
        shown(*old(app)).items@.len() == 0,
        shown(*old(app)).selected == 0,
        !(key.code is Char) && !(key.code is Tab) && !(key.code is Esc),
    ensures
        final(app)@ == old(app)@,
{
}

/// The right arrow and l go to the next item, and from the last to the first; the
/// left arrow and h go the other way.
pub proof fn lemma_sideways<F>(app: &mut App<F>, key: KeyEvent)
    requires
        call_ensures(App::<F>::handle_key, (app, key), ()),
        !old(app).search_focused,
        on_item(*old(app)),
        key.code == KeyCode::Right || key.code == KeyCode::Char('l') || key.code == KeyCode::Left
            || key.code == KeyCode::Char('h'),
    ensures
        ({
            let at = shown(*old(app)).selected as int;
            let len = shown(*old(app)).items@.len() as int;
            let to = shown(*final(app)).selected as int;
            let on = key.code == KeyCode::Right || key.code == KeyCode::Char('l');
            &&& on && at + 1 < len ==> to == at + 1
            &&& on && at + 1 == len ==> to == 0
            &&& !on && at > 0 ==> to == at - 1
            &&& !on && at == 0 ==> to == len - 1
        }),
        cursor_moved(*old(app), *final(app)),
{
    let at = shown(*old(app)).selected as int;
    let len = shown(*old(app)).items@.len() as int;
    lemma_sideways_steps(at, len);
}

proof fn lemma_sideways_steps(at: int, len: int)
    requires
        0 <= at < len,
    ensures
        at + 1 < len ==> right_of(at, len) == at + 1,
        at + 1 == len ==> right_of(at, len) == 0,
        at > 0 ==> left_of(at, len) == at - 1,
        at == 0 ==> left_of(at, len) == len - 1,
{
    if len > 1 {
        if at + 1 < len {
            vstd::arithmetic::div_mod::lemma_small_mod((at + 1) as nat, len as nat);
        } else {
            vstd::arithmetic::div_mod::lemma_mod_self_0(len);
        }
        if at > 0 {
            vstd::arithmetic::div_mod::lemma_mod_multiples_vanish(1, at - 1, len);
            vstd::arithmetic::div_mod::lemma_small_mod((at - 1) as nat, len as nat);
            assert(len * 1 + (at - 1) == at + len - 1);
        } else {
            vstd::arithmetic::div_mod::lemma_small_mod((len - 1) as nat, len as nat);
        }
    }
}

/// The down arrow and j go to the item below or, in the last row, to the one of the
/// same column in the first row.
pub proof fn lemma_downwards<F>(app: &mut App<F>, key: KeyEvent)
    requires
        call_ensures(App::<F>::handle_key, (app, key), ()),
        !old(app).search_focused,
        on_item(*old(app)),
        old(app).cols >= 1,
        key.code == KeyCode::Down || key.code == KeyCode::Char('j'),
    ensures
        ({
            let at = shown(*old(app)).selected as int;
            let len = shown(*old(app)).items@.len() as int;
            let to = shown(*final(app)).selected as int;
            let cols = old(app).cols as int;
            &&& at + cols < len ==> to == at + cols
            &&& at + cols >= len ==> 0 <= to < cols && to <= at && (at - to) % cols == 0
        }),
        cursor_moved(*old(app), *final(app)),
{
    let at = shown(*old(app)).selected as int;
    let cols = old(app).cols as int;
    lemma_first_row(at, cols);
    if shown(*old(app)).items@.len() == 1 {
        assert((at - 0) % cols == 0) by {
            vstd::arithmetic::div_mod::lemma_small_mod(0, cols as nat);
        }
    }
}

proof fn lemma_first_row(at: int, cols: int)
    requires
        0 <= at,
        1 <= cols,
    ensures
        0 <= at % cols < cols,
        at % cols <= at,
        (at - at % cols) % cols == 0,
{
    vstd::arithmetic::div_mod::lemma_fundamental_div_mod(at, cols);
    assert(cols * (at / cols) >= 0) by (nonlinear_arith)
        requires
            at >= 0,
            cols >= 1,
    ;
    vstd::arithmetic::div_mod::lemma_mod_multiples_vanish(at / cols, 0, cols);
    vstd::arithmetic::div_mod::lemma_small_mod(0, cols as nat);
    assert(cols * (at / cols) + 0 == at - at % cols);
}

/// The up arrow and k go to the item above. From the first row they go to the last
/// row, which nothing is below: to the same column or, if that row ends before it,
/// to the last item.
pub proof fn lemma_upwards<F>(app: &mut App<F>, key: KeyEvent)
    requires
        call_ensures(App::<F>::handle_key, (app, key), ()),
        !old(app).search_focused,
        on_item(*old(app)),
        old(app).cols >= 1,
        key.code == KeyCode::Up || key.code == KeyCode::Char('k'),
    ensures
        ({
            let at = shown(*old(app)).selected as int;
            let len = shown(*old(app)).items@.len() as int;
            let to = shown(*final(app)).selected as int;
            let cols = old(app).cols as int;
            &&& at >= cols ==> to == at - cols
            &&& at < cols ==> {
                &&& at <= to < len
                &&& to + cols >= len
                &&& (to - at) % cols == 0 || (to == len - 1 && (len - 1) % cols < at)
            }
        }),
        cursor_moved(*old(app), *final(app)),
{
    let at = shown(*old(app)).selected as int;
    let len = shown(*old(app)).items@.len() as int;
    let cols = old(app).cols as int;
    if at < cols {
        lemma_last_row(at, cols, len);
    }
}

proof fn lemma_last_row(at: int, cols: int, len: int)
    requires
        0 <= at < len,
        at < cols,
    ensures
        at <= above(at, cols, len) < len,
        above(at, cols, len) + cols >= len,
        (above(at, cols, len) - at) % cols == 0 || (above(at, cols, len) == len - 1 && (len - 1)
            % cols < at),
{
    let row = (len - 1) / cols;
    vstd::arithmetic::div_mod::lemma_fundamental_div_mod(len - 1, cols);
    vstd::arithmetic::div_mod::lemma_small_mod(0, cols as nat);
    assert(row * cols == cols * row) by (nonlinear_arith);
    assert(row * cols >= 0) by (nonlinear_arith)
        requires
            row == (len - 1) / cols,
            len >= 1,
            cols >= 1,
    ;
    vstd::arithmetic::div_mod::lemma_mod_multiples_vanish(row, 0, cols);
    if len > 1 && row * cols + at < len {
        assert(above(at, cols, len) - at == cols * row + 0);
    }
}

/// Home goes to the first item, and End to the last.
pub proof fn lemma_home_and_end<F>(app: &mut App<F>, key: KeyEvent)
    requires
        call_ensures(App::<F>::handle_key, (app, key), ()),
        !old(app).search_focused,
        on_item(*old(app)),
        key.code == KeyCode::Home || key.code == KeyCode::End,
    ensures
        key.code == KeyCode::Home ==> shown(*final(app)).selected == 0,
        key.code == KeyCode::End ==> shown(*final(app)).selected == shown(
            *old(app),
        ).items@.len() - 1,
        cursor_moved(*old(app), *final(app)),
{
}

/// Every other key of the grid does nothing.
pub proof fn lemma_other_keys_do_nothing<F>(app: &mut App<F>, key: KeyEvent)
    requires
        call_ensures(App::<F>::handle_key, (app, key), ()),
        !old(app).search_focused,
        match key.code {
            KeyCode::Backspace | KeyCode::PageUp | KeyCode::PageDown | KeyCode::Other => true,
            KeyCode::Char(c) => c != 'q' && c != '\n' && c != ' ' && c != 'j' && c != 'k' && c
                != 'h' && c != 'l' && c != 'd' && c != 'u' && c != '/' && c != 'v' && c != 'c' && c
                != 'y',
            _ => false,
        },
    ensures
        final(app)@ == old(app)@,
{
}

/// What is typed into the search box is added to the query, character by character,
/// and Backspace takes the last one away. With Ctrl or Alt held nothing is typed;
/// Ctrl+U clears the query.
pub proof fn lemma_typing<F>(app: &mut App<F>, key: KeyEvent)
    requires
        call_ensures(App::<F>::handle_key, (app, key), ()),
        old(app).search_focused,
        key.code is Char || key.code == KeyCode::Backspace,
        !(key.code == KeyCode::Char('c') && key.modifiers.control),
    ensures
        ({
            let before = old(app).query@;
            let after = final(app).query@;
            &&& key.code is Char && !key.modifiers.control && !key.modifiers.alt ==> {
                &&& after.len() == before.len() + 1
                &&& after.take(before.len() as int) == before
                &&& KeyCode::Char(after.last()) == key.code
            }
            &&& key.code == KeyCode::Char('u') && key.modifiers.control ==> after.len() == 0
            &&& key.code is Char && key.modifiers.control && key.code != KeyCode::Char('u')
                ==> after == before
            &&& key.code is Char && key.modifiers.alt && !key.modifiers.control ==> after == before
            &&& key.code == KeyCode::Backspace && before.len() > 0 ==> before.len() == after.len()
                + 1 && before.take(after.len() as int) == after
            &&& key.code == KeyCode::Backspace && before.len() == 0 ==> after.len() == 0
        }),
        final(app)@ == (PickerView { query: final(app).query@, ..old(app)@ }),
{
    let before = old(app).query@;
    if key.code is Char {
        assert(before.push(key.code->Char_0).take(before.len() as int) == before);
    }
    if before.len() > 0 {
        assert(before.take(before.len() - 1) == before.drop_last());
    }
}

/// Enter leaves the search box. If something other than white space was typed, the
/// search is queued; if not, the footer asks for a query and nothing is queued.
pub proof fn lemma_enter_searches<F>(app: &mut App<F>, key: KeyEvent)
    requires
        call_ensures(App::<F>::handle_key, (app, key), ()),
        old(app).search_focused,
        key.code == KeyCode::Enter,
    ensures
        !final(app).search_focused,
        (exists|i: int| 0 <= i < old(app).query@.len() && !is_white_space(old(app).query@[i]))
            ==> final(app).pending == Some(Pending::Search) && final(app)@ == (PickerView {
            search_focused: false,
            pending: Some(Pending::Search),
            ..old(app)@
        }),
        (forall|i: int| 0 <= i < old(app).query@.len() ==> is_white_space(old(app).query@[i]))
            ==> final(app)@ == (PickerView {
            search_focused: false,
            status: Some("type a query, then Enter"@),
            ..old(app)@
        }),
{
}

/// Esc clears the query or, if there is none, leaves the search box; the picker
/// stays open.
pub proof fn lemma_esc_in_the_box<F>(app: &mut App<F>, key: KeyEvent)
    requires
        call_ensures(App::<F>::handle_key, (app, key), ()),
        old(app).search_focused,
        key.code == KeyCode::Esc,
    ensures
        final(app).should_quit == old(app).should_quit,
        final(app).query@.len() == 0,
        final(app).search_focused == (old(app).query@.len() > 0),
        final(app)@ == (PickerView {
            query: Seq::empty(),
            search_focused: final(app).search_focused,
            ..old(app)@
        }),
{
}

/// Keys that neither type, leave nor switch do nothing in the search box.
pub proof fn lemma_arrows_in_the_box<F>(app: &mut App<F>, key: KeyEvent)
    requires
        call_ensures(App::<F>::handle_key, (app, key), ()),
        old(app).search_focused,
        !(key.code is Char) && !(key.code is Enter) && !(key.code is Esc) && !(key.code is Tab)
            && !(key.code is Backspace),
    ensures
        final(app)@ == old(app)@,
{
}

/// While the search box is focused, every key but Ctrl+C goes to it.
pub proof fn lemma_box_takes_the_keys<F>(a: &mut App<F>, b: &mut App<F>, key: KeyEvent)
    requires
        call_ensures(App::<F>::handle_key, (a, key), ()),
        call_ensures(App::<F>::handle_search_key, (b, key), ()),
        old(a)@ == old(b)@,
        old(a).search_focused,
        !(key.code == KeyCode::Char('c') && key.modifiers.control),
    ensures
        final(a)@ == final(b)@,
{
}

/// The item at the cursor is what `active_item` hands out.
pub proof fn lemma_active_item<F>(app: App<F>, r: Option<&UrlItem>)
    requires
        call_ensures(App::<F>::active_item, (&app,), r),
    ensures
        r is Some <==> on_item(app),
        r is Some ==> *r->0 == item_of(app),
{
}

/// The grid of the picker is that of the active tab.
pub proof fn lemma_active_grid<F>(app: App<F>, r: &GridState)
    requires
        call_ensures(App::<F>::grid, (&app,), r),
    ensures
        *r == shown(app),
{
}

/// There are two tabs, and each is the other of the other.
pub proof fn lemma_two_tabs(t: Tab, r: Tab)
    requires
        call_ensures(Tab::toggle, (t,), r),
    ensures
        r != t,
{
}

/// A grid starts out empty, on its first page, with nothing to turn to.
pub proof fn lemma_new_grid(r: GridState)
    requires
        call_ensures(<GridState as Default>::default, (), r),
    ensures
        r.items@.len() == 0,
        r.selected == 0,
        r.first_item == 0,
        r.page == 0,
        r.pager is None,
{
}

/// Wherever a key moves the cursor, it is among the items that are visible then.
pub proof fn lemma_moves_are_visible<F>(app: &mut App<F>, key: KeyEvent)
    requires
        call_ensures(App::<F>::handle_key, (app, key), ()),
        !old(app).search_focused,
        on_item(*old(app)),
        old(app).cols >= 1,
        old(app).rows >= 1,
        key.code == KeyCode::Up || key.code == KeyCode::Down || key.code == KeyCode::Left
            || key.code == KeyCode::Right || key.code == KeyCode::Home || key.code == KeyCode::End,
    ensures
        ({
            let g = shown(*final(app));
            &&& g.first_item <= g.selected < g.first_item + old(app).rows * old(app).cols
            &&& g.selected < g.items@.len()
            &&& shown(*old(app)).first_item as int % old(app).cols as int == 0 ==> g.first_item
                as int % old(app).cols as int == 0
        }),
{
    let g = shown(*old(app));
    let len = g.items@.len() as int;
    let at = g.selected as int;
    let cols = old(app).cols as int;
    let rows = old(app).rows as int;
    lemma_nav_stays_inside(at, cols, len);
    let to = shown(*final(app)).selected as int;
    assert(0 <= to < len);
    assert(0 < rows * cols <= u16::MAX * u16::MAX) by (nonlinear_arith)
        requires
            1 <= rows <= u16::MAX,
            1 <= cols <= u16::MAX,
    ;
    assert(at_least_one(cols) == cols && at_least_one(rows) == rows);
    assert(len == g.items.len());
    crate::grid::lemma_scrolled_shows_cursor(g.first_item as int, to, cols, rows, len);
}

} // verus!

//! Where things are on the screen, and what is drawn there.

use vstd::prelude::*;

use crate::app::{App, PickerView};
use crate::draw::{CellBody, DrawnCell, Screen};
use crate::geometry::{Rect, Size};
use crate::laws::keys::{on_item, shown};
use crate::layout::ScreenAreas;
use crate::lines::{pieces, Piece};
use crate::preview::PreviewCache;
use crate::screen::Cell;

verus! {

/// Whether a part lies in an area.
pub open spec fn lies_in(part: Rect, area: Rect) -> bool {
    &&& area.x <= part.x
    &&& area.y <= part.y
    &&& part.x + part.width <= area.x + area.width
    &&& part.y + part.height <= area.y + area.height
}

/// Whether a part is a line of an area, over its whole width.
pub open spec fn is_line_at(part: Rect, area: Rect, y: int) -> bool {
    &&& part.x == area.x
    &&& part.width == area.width
    &&& part.y == y
    &&& part.height == 1
}

/// The screen is a line of tabs, the search box, the grid and two lines of footer, in
/// this order from the top to the bottom; the grid has all the room that is left.
pub proof fn lemma_screen_areas(area: Rect, r: ScreenAreas)
    requires
        call_ensures(crate::layout::screen_areas, (area,), r),
        area.x + area.width <= u16::MAX,
        area.y + area.height <= u16::MAX,
    ensures
        lies_in(r.tabs, area),
        lies_in(r.search, area),
        lies_in(r.grid, area),
        lies_in(r.nav, area),
        lies_in(r.actions, area),
        r.grid.width == area.width,
        area.height >= 4 ==> {
            &&& is_line_at(r.tabs, area, area.y as int)
            &&& is_line_at(r.search, area, area.y + 1)
            &&& r.grid.x == area.x
            &&& r.grid.y == area.y + 2
            &&& r.grid.height == area.height - 4
            &&& is_line_at(r.nav, area, area.y + area.height - 2)
            &&& is_line_at(r.actions, area, area.y + area.height - 1)
        },
{
}

/// In a cell the image is on top, over the whole width, and the title right below it
/// has what is left.
pub proof fn lemma_cell_parts(inner: Rect, height: u16, r: (Rect, Rect))
    requires
        call_ensures(crate::layout::cell_areas, (inner, height), r),
        inner.y + inner.height <= u16::MAX,
        height < inner.height,
    ensures
        r.0.x == inner.x && r.0.y == inner.y && r.0.width == inner.width && r.0.height == height,
        r.1.x == inner.x && r.1.y == inner.y + height && r.1.width == inner.width,
        r.0.height + r.1.height == inner.height,
{
}

/// A border takes a cell off each side, as far as there is one.
pub proof fn lemma_border(area: Rect, r: Rect)
    requires
        call_ensures(crate::geometry::inside, (area,), r),
    ensures
        area.width >= 2 ==> r.x == area.x + 1 && r.width + 2 == area.width,
        area.height >= 2 ==> r.y == area.y + 1 && r.height + 2 == area.height,
        area.width < 2 ==> r.width == 0,
        area.height < 2 ==> r.height == 0,
        lies_in(r, area),
{
}

/// What is centered has as much room on the left as on the right, and above as below,
/// but for one cell; it is as large as it was asked to be or as there is room.
pub proof fn lemma_centered(area: Rect, size: Size, r: Rect)
    requires
        call_ensures(crate::geometry::centered_area, (area, size), r),
    ensures
        lies_in(r, area),
        size.width <= area.width ==> r.width == size.width,
        size.width > area.width ==> r.width == area.width,
        size.height <= area.height ==> r.height == size.height,
        size.height > area.height ==> r.height == area.height,
        ({
            let left = r.x - area.x;
            let right = area.x + area.width - r.x - r.width;
            let above = r.y - area.y;
            let below = area.y + area.height - r.y - r.height;
            left <= right <= left + 1 && above <= below <= above + 1
        }),
{
}

/// An area is where it was put, cut off where the screen can be counted no further.
pub proof fn lemma_area(x: u16, y: u16, width: u16, height: u16, r: Rect)
    requires
        call_ensures(Rect::new, (x, y, width, height), r),
    ensures
        r.x == x,
        r.y == y,
        x + width <= u16::MAX ==> r.width == width,
        x + width > u16::MAX ==> r.x + r.width == u16::MAX,
        y + height <= u16::MAX ==> r.height == height,
        y + height > u16::MAX ==> r.y + r.height == u16::MAX,
{
}

/// Without width or height there is no room.
pub proof fn lemma_no_room(area: Rect, a: bool, w: u16, h: u16, size: Size, s: bool)
    requires
        call_ensures(Rect::is_empty, (&area,), a),
        call_ensures(Size::new, (w, h), size),
        call_ensures(Size::is_empty, (&size,), s),
    ensures
        a <==> area.width == 0 || area.height == 0,
        size.width == w,
        size.height == h,
        s <==> w == 0 || h == 0,
{
}

/// Fitting the picker to an area keeps all that it shows, with the cursor where it is;
/// only columns, rows and scrolling follow the area, and the room for previews.
pub proof fn lemma_viewport<F>(
    app: &mut App<F>,
    width: u16,
    height: u16,
    cols: u16,
    rows: u16,
)
    requires
        call_ensures(App::<F>::set_viewport, (app, width, height), ()),
        call_ensures(crate::grid::grid_cols, (width,), cols),
        call_ensures(crate::grid::visible_rows, (height,), rows),
    ensures
        final(app).cols == cols,
        final(app).rows == rows,
        shown(*final(app)).selected == shown(*old(app)).selected,
        crate::laws::keys::cursor_moved(
            App { cols, rows, mode: final(app).mode, ..*old(app) },
            *final(app),
        ),
        old(app)@.previews is None ==> final(app)@.previews is None,
        old(app)@.previews is Some ==> final(app)@.previews is Some,
{
}

/// Once it is fitted, the item at the cursor is on screen, and a grid that was scrolled
/// by whole rows still is.
pub proof fn lemma_viewport_shows_cursor<F>(app: &mut App<F>, width: u16, height: u16)
    requires
        call_ensures(App::<F>::set_viewport, (app, width, height), ()),
        on_item(*old(app)),
    ensures
        ({
            let g = shown(*final(app));
            &&& g.first_item <= g.selected < g.first_item + final(app).rows * final(app).cols
            &&& shown(*old(app)).first_item as int % final(app).cols as int == 0
                ==> g.first_item as int % final(app).cols as int == 0
        }),
{
    let g = shown(*old(app));
    let rows = final(app).rows as int;
    let cols = final(app).cols as int;
    assert(g.items@.len() == g.items.len());
    assert(0 < rows * cols <= u16::MAX * u16::MAX) by (nonlinear_arith)
        requires
            1 <= rows <= u16::MAX,
            1 <= cols <= u16::MAX,
    ;
    crate::grid::lemma_scrolled_shows_cursor(
        g.first_item as int,
        g.selected as int,
        cols,
        rows,
        g.items@.len() as int,
    );
}

/// The room for previews is twice what is on screen, and 4096 at most.
pub proof fn lemma_viewport_room<F>(app: &mut App<F>, width: u16, height: u16)
    requires
        call_ensures(App::<F>::set_viewport, (app, width, height), ()),
        old(app)@.previews is Some,
    ensures
        final(app)@.previews is Some,
        ({
            let twice = 2 * (final(app).cols * final(app).rows);
            &&& twice <= 4096 ==> final(app)@.previews->0.cap == twice
            &&& twice > 4096 ==> final(app)@.previews->0.cap == 4096
        }),
{
    let rows = final(app).rows as int;
    let cols = final(app).cols as int;
    assert(0 < cols * rows <= u16::MAX * u16::MAX) by (nonlinear_arith)
        requires
            1 <= rows <= u16::MAX,
            1 <= cols <= u16::MAX,
    ;
}

/// A cursor that is on screen does not scroll the grid. One that is not scrolls it by
/// no more than it takes: to the row of the cursor on top if that is above, and at the
/// bottom if it is below.
pub proof fn lemma_scrolls_no_further<F>(app: &mut App<F>)
    requires
        call_ensures(App::<F>::ensure_visible, (app,), ()),
        on_item(*old(app)),
        old(app).cols >= 1,
        old(app).rows >= 1,
        shown(*old(app)).first_item as int % old(app).cols as int == 0,
    ensures
        ({
            let g = shown(*old(app));
            let top = shown(*final(app)).first_item as int;
            let cols = old(app).cols as int;
            let room = old(app).rows * old(app).cols;
            &&& g.first_item <= g.selected < g.first_item + room ==> top == g.first_item
            &&& g.selected < g.first_item ==> top <= g.selected < top + cols
            &&& g.selected >= g.first_item + room ==> top + room - cols <= g.selected < top + room
        }),
        shown(*final(app)).selected == shown(*old(app)).selected,
        crate::laws::keys::cursor_moved(*old(app), *final(app)),
{
    let g = shown(*old(app));
    let len = g.items@.len() as int;
    let first = g.first_item as int;
    let at = g.selected as int;
    let rows = old(app).rows as int;
    let cols = old(app).cols as int;
    assert(len == g.items.len());
    assert(0 < rows * cols <= u16::MAX * u16::MAX) by (nonlinear_arith)
        requires
            1 <= rows <= u16::MAX,
            1 <= cols <= u16::MAX,
    ;
    lemma_scroll_steps(first, at, cols, rows, len);
}

proof fn lemma_row(i: int, cols: int)
    requires
        0 <= i,
        0 < cols,
    ensures
        0 <= (i / cols) * cols <= i < (i / cols) * cols + cols,
        i % cols == 0 ==> (i / cols) * cols == i,
        0 <= i / cols,
{
    vstd::arithmetic::div_mod::lemma_fundamental_div_mod(i, cols);
    vstd::arithmetic::div_mod::lemma_div_pos_is_pos(i, cols);
    assert((i / cols) * cols == cols * (i / cols)) by (nonlinear_arith);
    assert((i / cols) * cols >= 0) by (nonlinear_arith)
        requires
            0 <= i / cols,
            0 < cols,
    ;
}

proof fn lemma_scroll_steps(first: int, at: int, cols: int, rows: int, len: int)
    requires
        0 <= first,
        0 <= at < len <= usize::MAX,
        0 < cols,
        0 < rows,
        rows * cols <= usize::MAX,
        first % cols == 0,
    ensures
        ({
            let top = crate::grid::scrolled(first, at, cols, rows, len);
            &&& first <= at < first + rows * cols ==> top == first
            &&& at < first ==> top <= at < top + cols
            &&& at >= first + rows * cols ==> top + rows * cols - cols <= at < top + rows * cols
        }),
{
    let row = at / cols;
    let last = (len - 1) / cols;
    lemma_row(at, cols);
    lemma_row(len - 1, cols);
    lemma_row(first, cols);
    vstd::arithmetic::div_mod::lemma_div_is_ordered(at, len - 1, cols);
    assert(row * cols <= last * cols) by (nonlinear_arith)
        requires
            row <= last,
            cols > 0,
    ;
    if first <= at {
        vstd::arithmetic::div_mod::lemma_div_is_ordered(first, len - 1, cols);
        assert((first / cols) * cols <= last * cols) by (nonlinear_arith)
            requires
                first / cols <= last,
                cols > 0,
        ;
    }
    if at >= first + rows * cols {
        let top = row - (rows - 1);
        if top < 0 {
            assert((row + 1) * cols <= rows * cols) by (nonlinear_arith)
                requires
                    row + 1 <= rows,
                    cols > 0,
            ;
            assert((row + 1) * cols == row * cols + cols) by (nonlinear_arith);
        } else {
            assert(top * cols <= last * cols) by (nonlinear_arith)
                requires
                    top <= last,
                    cols > 0,
            ;
            assert(top * cols + rows * cols == row * cols + cols) by (nonlinear_arith)
                requires
                    top == row - (rows - 1),
            ;
        }
    }
}

/// The cells come in reading order from the first item on screen on: as many as fit or
/// as there are items, each 14 by 7, or as much of it as there is room for.
pub proof fn lemma_cells<F>(app: App<F>, area: Rect, r: Vec<Cell>, k: int)
    requires
        call_ensures(App::<F>::cells, (&app, area), r),
        area.x + area.width <= u16::MAX,
        area.y + area.height <= u16::MAX,
        app.cols >= 1,
        0 <= k < r@.len(),
        app.cols * 14 <= area.width || app.cols == 1,
        (k / app.cols as int + 1) * 7 <= area.height || k < app.cols,
    ensures
        area.width > 0,
        area.height > 0,
        r@[k].idx == shown(app).first_item + k,
        r@[k].area.x == area.x + 14 * (k % app.cols as int),
        r@[k].area.y == area.y + 7 * (k / app.cols as int),
        area.width >= 14 ==> r@[k].area.width == 14,
        area.width < 14 ==> r@[k].area.width == area.width,
        area.height >= 7 ==> r@[k].area.height == 7,
        area.height < 7 ==> r@[k].area.height == area.height,
{
    let cols = app.cols as int;
    vstd::arithmetic::div_mod::lemma_fundamental_div_mod(k, cols);
    vstd::arithmetic::div_mod::lemma_div_pos_is_pos(k, cols);
    assert((k % cols) * 14 <= (cols - 1) * 14) by (nonlinear_arith)
        requires
            k % cols <= cols - 1,
    ;
    if k < cols {
        assert(k / cols == 0) by {
            vstd::arithmetic::div_mod::lemma_basic_div(k, cols);
        }
    }
}

/// There is a cell for every item on screen and for no other; none where there is no
/// room.
pub proof fn lemma_cell_count<F>(app: App<F>, area: Rect, r: Vec<Cell>)
    requires
        call_ensures(App::<F>::cells, (&app, area), r),
        app.cols >= 1,
        app.rows >= 1,
    ensures
        ({
            let g = shown(app);
            let room = app.cols * app.rows;
            let left = g.items@.len() - g.first_item;
            &&& area.width == 0 || area.height == 0 || left <= 0 ==> r@.len() == 0
            &&& area.width > 0 && area.height > 0 && 0 < left <= room ==> r@.len() == left
            &&& area.width > 0 && area.height > 0 && left > room ==> r@.len() == room
        }),
{
    assert(app.cols * app.rows > 0) by (nonlinear_arith)
        requires
            app.cols >= 1,
            app.rows >= 1,
    ;
}

/// A cell shows the item at its place: its headline, whether the cursor is on it, and
/// inside its border its title or, where images are drawn, its preview and the title
/// below.
pub proof fn lemma_drawn_cell<F>(
    app: App<F>,
    area: Rect,
    idx: usize,
    r: DrawnCell,
    inner: Rect,
    headline: String,
    title: String,
    high: u16,
)
    requires
        call_ensures(App::<F>::render_cell, (&app, area, idx), r),
        idx < shown(app).items@.len(),
        area.x + area.width <= u16::MAX,
        area.y + area.height <= u16::MAX,
        call_ensures(crate::geometry::inside, (area,), inner),
        call_ensures(App::<F>::headline, (&app, idx), headline),
        call_ensures(App::<F>::title_line, (&app, idx, inner.width), title),
        call_ensures(crate::lines::image_height, (inner.height,), high),
    ensures
        r.area == area,
        r.inner == inner,
        r.selected <==> idx == shown(app).selected,
        r.headline@ == headline@,
        inner.width == 0 || inner.height == 0 ==> r.body is Nothing,
        inner.width > 0 && inner.height > 0 && app.mode is Fallback ==> r.body is Title
            && r.body->Title_title@ == title@,
        inner.width > 0 && inner.height > 0 && app.mode is Graphics && high == 0
            ==> r.body is Nothing,
        inner.width > 0 && inner.height > 0 && app.mode is Graphics && high > 0 ==> {
            &&& r.body is Image
            &&& r.body->preview_url@ == shown(app).items@[idx as int].preview_url@
            &&& r.body->Image_title@ == title@
            &&& r.body->image.x == inner.x && r.body->image.y == inner.y
            &&& r.body->image.width == inner.width && r.body->image.height == high
            &&& r.body->text.x == inner.x && r.body->text.y == inner.y + high
            &&& r.body->text.width == inner.width && r.body->text.height == inner.height - high
        },
{
}

/// Two drawings of the same cell say the same.
pub open spec fn same_cell(a: DrawnCell, b: DrawnCell) -> bool {
    &&& a.area == b.area
    &&& a.inner == b.inner
    &&& a.selected == b.selected
    &&& a.headline@ == b.headline@
    &&& match (a.body, b.body) {
        (CellBody::Nothing, CellBody::Nothing) => true,
        (CellBody::Title { title: s }, CellBody::Title { title: t }) => s@ == t@,
        (
            CellBody::Image { image: i, text: x, preview_url: p, title: s },
            CellBody::Image { image: j, text: y, preview_url: q, title: t },
        ) => i == j && x == y && p@ == q@ && s@ == t@,
        _ => false,
    }
}

/// The lines of the screen are those that the picker has for them, and its parts are
/// where the layout puts them. Drawing changes nothing that is shown.
pub proof fn lemma_drawn_lines<F>(
    app: &mut App<F>,
    before: App<F>,
    after: App<F>,
    screen: Rect,
    r: Screen,
    tabs: Vec<Piece>,
    search: Vec<Piece>,
    nav: String,
    actions: String,
)
    requires
        call_ensures(App::<F>::draw, (app, screen), r),
        before@ == old(app)@,
        after@ == final(app)@,
        call_ensures(App::<F>::tabs_line, (&before,), tabs),
        call_ensures(App::<F>::search_line, (&before,), search),
        call_ensures(App::<F>::nav_line, (&after,), nav),
        call_ensures(App::<F>::action_line, (&before,), actions),
        screen.x + screen.width <= u16::MAX,
        screen.y + screen.height <= u16::MAX,
    ensures
        pieces(r.tabs@) == pieces(tabs@),
        pieces(r.search@) == pieces(search@),
        r.nav@ == nav@,
        r.actions@ == actions@,
        screen.height >= 4 ==> {
            &&& is_line_at(r.areas.tabs, screen, screen.y as int)
            &&& is_line_at(r.areas.search, screen, screen.y + 1)
            &&& r.areas.grid.x == screen.x
            &&& r.areas.grid.width == screen.width
            &&& r.areas.grid.y == screen.y + 2
            &&& r.areas.grid.height == screen.height - 4
            &&& is_line_at(r.areas.nav, screen, screen.y + screen.height - 2)
            &&& is_line_at(r.areas.actions, screen, screen.y + screen.height - 1)
        },
        final(app).tab == old(app).tab,
        shown(*final(app)).items@ == shown(*old(app)).items@,
        shown(*final(app)).selected == shown(*old(app)).selected,
        shown(*final(app)).page == shown(*old(app)).page,
        final(app)@.status == old(app)@.status,
        final(app)@.query == old(app)@.query,
        final(app)@.fav_ids == old(app)@.fav_ids,
        final(app).pending == old(app).pending,
        final(app).should_quit == old(app).should_quit,
        final(app)@.selected_url == old(app)@.selected_url,
        final(app).search_focused == old(app).search_focused,
{
}

/// A picker without items draws its message; one with items draws a cell for each that
/// is on screen, as `render_cell` draws it.
pub proof fn lemma_drawn_grid<F>(
    app: &mut App<F>,
    screen: Rect,
    r: Screen,
    after: App<F>,
    message: String,
    k: int,
    area: Rect,
    cell: DrawnCell,
)
    requires
        call_ensures(App::<F>::draw, (app, screen), r),
        after@ == final(app)@,
        call_ensures(App::<F>::empty_message, (&after,), message),
        r.body is Cells ==> {
            &&& 0 <= k < r.body->Cells_0@.len()
            &&& area == r.body->Cells_0@[k].area
            &&& shown(after).first_item + k <= usize::MAX
            &&& call_ensures(
                App::<F>::render_cell,
                (&after, area, (shown(after).first_item + k) as usize),
                cell,
            )
        },
    ensures
        shown(*old(app)).items@.len() == 0 ==> r.body is Message && r.body->Message_0@ == message@,
        shown(*old(app)).items@.len() > 0 ==> r.body is Cells && same_cell(
            r.body->Cells_0@[k],
            cell,
        ),
{
}

/// The cells are drawn where they belong: as many as there are to draw, each in its
/// place.
pub proof fn lemma_drawn_cells_in_place<F>(
    app: &mut App<F>,
    screen: Rect,
    r: Screen,
    after: App<F>,
    cells: Vec<Cell>,
    k: int,
)
    requires
        call_ensures(App::<F>::draw, (app, screen), r),
        after@ == final(app)@,
        call_ensures(App::<F>::cells, (&after, r.areas.grid), cells),
        r.body is Cells,
        0 <= k < cells@.len(),
    ensures
        r.body->Cells_0@.len() == cells@.len(),
        r.body->Cells_0@[k].area == cells@[k].area,
        cells@[k].idx == shown(after).first_item + k,
{
    assert(r.body->Cells_0@.len() == cells@.len());
    let d = r.body->Cells_0@[k];
    let c = cells@[k];
    assert(final(app)@.draws(
        final(app)@.grid().first_item + k,
        crate::screen::cell_at(r.areas.grid, final(app)@.cols as int, k),
        r.body->Cells_0@[k],
    ));
}

/// Previews are drawn from the cache that is handed over, and nothing else changes.
pub proof fn lemma_previews_enabled<F>(app: &mut App<F>, cache: PreviewCache<F>)
    requires
        call_ensures(App::<F>::enable_previews, (app, cache), ()),
    ensures
        final(app).mode is Graphics,
        final(app)@ == (PickerView { previews: Some(cache@), ..old(app)@ }),
        final(app).mode->cache@ == cache@,
{
}

} // verus!

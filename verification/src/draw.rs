//! What is drawn: the whole screen of the picker, and each cell of its grid.

use vstd::prelude::*;
use vstd::string::*;

use crate::app::{App, PickerView, PreviewMode};
use crate::geometry::{inside, inside_border, smaller, Rect};
use crate::grid::{at_least_one, CELL_EXTRA_H, MIN_CELL_W, PREVIEW_HEIGHT};
use crate::layout::{cell_areas, screen_areas, ScreenAreas};
use crate::lines::{cut, image_height, pieces, tab_pieces, Piece};
use crate::preview::{asked_all, started};
use crate::screen::{cell_at, cells_shown, preview_urls, texts, Cell};
use crate::text::trimmed;

verus! {

/// What is inside the border of a cell.
#[derive(Debug)]
pub enum CellBody {
    /// Nothing: there is no room.
    Nothing,
    /// The title alone.
    Title { title: String },
    /// An image and the title below it, each in its place. Without an address the
    /// place of the image stays empty.
    Image { image: Rect, text: Rect, preview_url: String, title: String },
}

/// A cell of the grid as it is drawn.
#[derive(Debug)]
pub struct DrawnCell {
    pub area: Rect,
    /// The area inside the border.
    pub inner: Rect,
    /// Whether it is the cell at the cursor.
    pub selected: bool,
    pub headline: String,
    pub body: CellBody,
}

/// How high the image of a cell is that has the given height inside its border.
pub open spec fn image_rows(inner_height: int) -> int {
    if inner_height == 0 {
        0
    } else {
        smaller(PREVIEW_HEIGHT as int, inner_height - 1)
    }
}

impl<F> PickerView<F> {
    /// Whether `d` is how the item at `idx` is drawn in `area`.
    pub open spec fn draws(self, idx: int, area: Rect, d: DrawnCell) -> bool {
        let item = self.grid().items[idx];
        let title = cut(trimmed(item.title@), d.inner.width as int);
        &&& d.area == area
        &&& d.inner.x == area.x + smaller(1, area.width as int)
        &&& d.inner.y == area.y + smaller(1, area.height as int)
        &&& d.inner.width == inside_border(area.width as int)
        &&& d.inner.height == inside_border(area.height as int)
        &&& d.selected == (idx == self.grid().selected)
        &&& d.headline@ == self.headline_text(idx)
        &&& match d.body {
            CellBody::Nothing => {
                ||| d.inner.width == 0
                ||| d.inner.height == 0
                ||| self.previews is Some && image_rows(d.inner.height as int) == 0
            },
            CellBody::Title { title: t } => {
                &&& d.inner.width > 0
                &&& d.inner.height > 0
                &&& self.previews is None
                &&& t@ == title
            },
            CellBody::Image { image, text, preview_url, title: t } => {
                let height = image_rows(d.inner.height as int);
                &&& d.inner.width > 0
                &&& d.inner.height > 0
                &&& self.previews is Some
                &&& height > 0
                &&& image == (Rect { height: height as u16, ..d.inner })
                &&& text == (Rect {
                    y: (d.inner.y + height) as u16,
                    height: (d.inner.height - height) as u16,
                    ..d.inner
                })
                &&& preview_url@ == item.preview_url@
                &&& t@ == title
            },
        }
    }

    /// Whether `body` is how the grid is drawn in `area`: a message if there are
    /// no items, or else the cells that are visible.
    pub open spec fn draws_grid(self, area: Rect, body: GridBody) -> bool {
        let g = self.grid();
        match body {
            GridBody::Message(m) => g.items.len() == 0 && m@ == self.empty_text(),
            GridBody::Cells(cells) => {
                &&& g.items.len() > 0
                &&& cells@.len() == (if area.width == 0 || area.height == 0 {
                    0
                } else {
                    cells_shown(
                        g.first_item,
                        self.cols as int,
                        self.rows as int,
                        g.items.len() as int,
                    )
                })
                &&& forall|k: int|
                    0 <= k < cells@.len() ==> self.draws(
                        g.first_item + k,
                        cell_at(area, self.cols as int, k),
                        #[trigger] cells@[k],
                    )
            },
        }
    }
}

/// The grid as it is drawn.
#[derive(Debug)]
pub enum GridBody {
    /// A message in place of items.
    Message(String),
    /// The visible cells, row by row.
    Cells(Vec<DrawnCell>),
}

/// The screen of the picker.
#[derive(Debug)]
pub struct Screen {
    /// Where its parts are.
    pub areas: ScreenAreas,
    pub tabs: Vec<Piece>,
    pub search: Vec<Piece>,
    pub body: GridBody,
    /// The previews to be loaded, in order.
    pub loads: Vec<String>,
    /// The first line of the footer.
    pub nav: String,
    /// The second line of the footer.
    pub actions: String,
}

impl<F> App<F> {
    /// Draws the item at `idx` in a cell.
    pub fn render_cell(&self, area: Rect, idx: usize) -> (r: DrawnCell)
        requires
            area.on_screen(),
            idx < self@.grid().items.len(),
        ensures
            self@.draws(idx as int, area, r),
    {
        let inner: Rect = inside(area);
        let headline: String = self.headline(idx);
        let selected: bool = self.is_selected(idx);
        let body: CellBody = if inner.is_empty() {
            CellBody::Nothing
        } else {
            let title: String = self.title_line(idx, inner.width);
            match &self.mode {
                PreviewMode::Graphics { .. } => {
                    let height: u16 = image_height(inner.height);
                    if height > 0 {
                        let (image, text) = cell_areas(inner, height);
                        CellBody::Image {
                            image,
                            text,
                            preview_url: self.grid().items[idx].preview_url.clone(),
                            title,
                        }
                    } else {
                        CellBody::Nothing
                    }
                },
                PreviewMode::Fallback => CellBody::Title { title },
            }
        };
        DrawnCell { area, inner, selected, headline, body }
    }

    fn render_grid(&self, area: Rect) -> (r: Vec<DrawnCell>)
        requires
            area.on_screen(),
            self.cols == at_least_one(area.width as int / MIN_CELL_W as int),
            self.rows == at_least_one(area.height as int / (PREVIEW_HEIGHT + CELL_EXTRA_H)),
            self@.grid().items.len() > 0,
        ensures
            self@.draws_grid(area, GridBody::Cells(r)),
    {
        let cells: Vec<Cell> = self.cells(area);
        let mut out: Vec<DrawnCell> = Vec::new();
        let mut k: usize = 0;
        while k < cells.len()
            invariant
                k <= cells@.len(),
                out@.len() == k,
                area.on_screen(),
                self.cols == at_least_one(area.width as int / MIN_CELL_W as int),
                self.rows == at_least_one(area.height as int / (PREVIEW_HEIGHT + CELL_EXTRA_H)),
                cells@.len() > 0 ==> area.width > 0 && area.height > 0,
                cells@.len() > 0 ==> cells@.len() == cells_shown(
                    self@.grid().first_item,
                    self.cols as int,
                    self.rows as int,
                    self@.grid().items.len() as int,
                ),
                forall|i: int|
                    0 <= i < cells@.len() ==> (#[trigger] cells@[i]).idx
                        == self@.grid().first_item + i && cells@[i].area == cell_at(
                        area,
                        self.cols as int,
                        i,
                    ),
                forall|i: int|
                    0 <= i < out@.len() ==> self@.draws(
                        self@.grid().first_item + i,
                        cell_at(area, self.cols as int, i),
                        #[trigger] out@[i],
                    ),
            decreases cells@.len() - k,
        {
            let cell: Cell = cells[k];
            proof {
                crate::screen::lemma_cell_inside(
                    area,
                    self.cols as int,
                    self.rows as int,
                    k as int,
                );
            }
            out.push(self.render_cell(cell.area, cell.idx));
            k += 1;
        }
        out
    }

    /// Draws the picker on a screen that covers `screen`: lays it out, fits the
    /// grid to its place, asks for the previews that are missing, and makes every
    /// text.
    pub fn draw(&mut self, screen: Rect) -> (r: Screen)
        requires
            old(self).wf(),
            screen.on_screen(),
            old(self)@.grid().page < usize::MAX,
        ensures
            final(self).wf(),
            r.areas.laid_out(screen),
            ({
                let fit = old(self)@.fitted(r.areas.grid.width, r.areas.grid.height);
                match fit.previews {
                    Some(cache) if fit.grid().items.len() > 0 => exists|slots: Seq<usize>|
                        {
                            let urls = preview_urls(fit.grid().items, slots);
                            &&& #[trigger] fit.visible(slots)
                            &&& texts(r.loads@) == started(cache, urls)
                            &&& final(self)@ == (PickerView {
                                previews: Some(asked_all(cache, urls)),
                                ..fit
                            })
                        },
                    _ => r.loads@.len() == 0 && final(self)@ == fit,
                }
            }),
            pieces(r.tabs@) == tab_pieces(old(self)@.tab),
            pieces(r.search@) == old(self)@.search_pieces(),
            final(self)@.draws_grid(r.areas.grid, r.body),
            r.nav@ == final(self)@.nav_text(),
            r.actions@ == old(self)@.action_text(),
    {
        let areas: ScreenAreas = screen_areas(screen);
        self.set_viewport(areas.grid.width, areas.grid.height);
        let tabs: Vec<Piece> = self.tabs_line();
        let search: Vec<Piece> = self.search_line();
        let actions: String = self.action_line();
        if self.grid().items.len() == 0 {
            let body: GridBody = GridBody::Message(self.empty_message());
            let nav: String = self.nav_line();
            return Screen { areas, tabs, search, body, loads: Vec::new(), nav, actions };
        }
        let loads: Vec<String> = self.request_previews();
        let body: GridBody = GridBody::Cells(self.render_grid(areas.grid));
        let nav: String = self.nav_line();
        Screen { areas, tabs, search, body, loads, nav, actions }
    }
}

} // verus!

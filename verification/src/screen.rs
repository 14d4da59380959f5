//! The picker on the screen: how much of the grid is visible, which previews it
//! needs, and where its cells are.

use vstd::prelude::*;
use vstd::string::*;

use crate::app::{App, PickerView, PreviewMode};
use crate::geometry::{smaller, Rect};
use crate::grid::{
    at_least_one, capped_product, cell_height, grid_cols, in_window, is_nearest_first,
    lemma_scrolled_shows_cursor, nearest_slots, saturating_product, visible_rows, CELL_EXTRA_H,
    MIN_CELL_W, PREVIEW_HEIGHT,
};
use crate::item::UrlItem;
use crate::preview::{asked_all, ensure_requested, settles, started, Loaded, PreviewCache};

verus! {

/// The texts of some strings.
pub open spec fn texts(s: Seq<String>) -> Seq<Seq<char>> {
    s.map_values(|t: String| t@)
}

/// The preview addresses of the items at some places.
pub open spec fn preview_urls(items: Seq<UrlItem>, slots: Seq<usize>) -> Seq<Seq<char>> {
    slots.map_values(|i: usize| items[i as int].preview_url@)
}

impl<F> PickerView<F> {
    /// The picker once the grid has an area of the given size: the cursor is in
    /// view, and the cache has room for twice the visible previews, so that an
    /// overshoot does not at once drop one that is on screen.
    pub open spec fn fitted(self, width: u16, height: u16) -> PickerView<F> {
        let cols = at_least_one(width as int / MIN_CELL_W as int);
        let rows = at_least_one(height as int / (PREVIEW_HEIGHT + CELL_EXTRA_H));
        let sized = PickerView { cols: cols as u16, rows: rows as u16, ..self };
        let visible = capped_product(cols, rows);
        PickerView {
            previews: match self.previews {
                Some(cache) => Some(cache.resized(at_least_one(capped_product(visible, 2)))),
                None => None,
            },
            ..sized.moved(self.grid().selected)
        }
    }

    /// Whether `slots` are the visible items, the one at the cursor first and
    /// the others by their distance from it.
    pub open spec fn visible(self, slots: Seq<usize>) -> bool {
        is_nearest_first(
            slots,
            self.grid().first_item,
            at_least_one(self.cols as int),
            at_least_one(self.rows as int),
            self.grid().items.len() as int,
            self.grid().selected,
        )
    }
}

/// A cell of the grid: which item it shows, and where.
#[derive(Debug, Clone, Copy, PartialEq, Eq, Structural)]
pub struct Cell {
    pub idx: usize,
    pub area: Rect,
}

/// Where the cell at a place of a grid with `cols` columns is.
pub open spec fn cell_at(area: Rect, cols: int, slot: int) -> Rect {
    Rect {
        x: (area.x + (slot % cols) * MIN_CELL_W) as u16,
        y: (area.y + (slot / cols) * (PREVIEW_HEIGHT + CELL_EXTRA_H)) as u16,
        width: smaller(MIN_CELL_W as int, area.width as int) as u16,
        height: smaller(PREVIEW_HEIGHT + CELL_EXTRA_H, area.height as int) as u16,
    }
}

/// How many cells there are to draw.
pub open spec fn cells_shown(first_item: int, cols: int, rows: int, len: int) -> int {
    if first_item >= len {
        0
    } else {
        smaller(cols * rows, len - first_item)
    }
}

proof fn lemma_slot_inside(cols: int, rows: int, slot: int)
    requires
        0 < cols,
        0 < rows,
        0 <= slot < cols * rows,
    ensures
        0 <= slot % cols <= cols - 1,
        0 <= slot / cols <= rows - 1,
{
    vstd::arithmetic::div_mod::lemma_fundamental_div_mod(slot, cols);
    vstd::arithmetic::div_mod::lemma_div_pos_is_pos(slot, cols);
    if slot / cols >= rows {
        assert(cols * (slot / cols) >= cols * rows) by (nonlinear_arith)
            requires
                slot / cols >= rows,
                cols > 0,
        ;
    }
}

proof fn lemma_fits(step: int, extent: int, n: int, k: int)
    requires
        0 < step,
        0 < extent,
        n == at_least_one(extent / step),
        0 <= k < n,
    ensures
        0 <= k * step,
        k * step + smaller(step, extent) <= extent,
{
    vstd::arithmetic::div_mod::lemma_fundamental_div_mod(extent, step);
    assert(0 <= k * step) by (nonlinear_arith)
        requires
            0 <= k,
            0 < step,
    ;
    if extent / step >= 1 {
        assert(step * (extent / step) >= step * (k + 1)) by (nonlinear_arith)
            requires
                extent / step >= k + 1,
                step > 0,
        ;
        assert(step * (k + 1) == k * step + step) by (nonlinear_arith);
    } else {
        assert(k * step == 0) by (nonlinear_arith)
            requires
                k == 0,
        ;
    }
}

proof fn lemma_apart(step: int, a: int, b: int)
    requires
        0 < step,
        a < b,
    ensures
        a * step + step <= b * step,
{
    assert(a * step + step <= b * step) by (nonlinear_arith)
        requires
            0 < step,
            a + 1 <= b,
    ;
}

pub(crate) proof fn lemma_cell_inside(area: Rect, cols: int, rows: int, i: int)
    requires
        area.on_screen(),
        area.width > 0,
        area.height > 0,
        cols == at_least_one(area.width as int / MIN_CELL_W as int),
        rows == at_least_one(area.height as int / (PREVIEW_HEIGHT + CELL_EXTRA_H)),
        0 <= i < cols * rows,
    ensures
        cell_at(area, cols, i).on_screen(),
{
    lemma_slot_inside(cols, rows, i);
    lemma_fits(MIN_CELL_W as int, area.width as int, cols, i % cols);
    lemma_fits(PREVIEW_HEIGHT + CELL_EXTRA_H, area.height as int, rows, i / cols);
}

/// Cells are inside the area of the grid, and different cells do not overlap.
pub proof fn lemma_cells_apart(area: Rect, cols: int, rows: int, i: int, j: int)
    requires
        area.on_screen(),
        area.width > 0,
        area.height > 0,
        cols == at_least_one(area.width as int / MIN_CELL_W as int),
        rows == at_least_one(area.height as int / (PREVIEW_HEIGHT + CELL_EXTRA_H)),
        0 <= i < cols * rows,
        0 <= j < cols * rows,
        i != j,
    ensures
        ({
            let a = cell_at(area, cols, i);
            let b = cell_at(area, cols, j);
            &&& area.x <= a.x && a.x + a.width <= area.x + area.width
            &&& area.y <= a.y && a.y + a.height <= area.y + area.height
            &&& {
                ||| a.x + a.width <= b.x
                ||| b.x + b.width <= a.x
                ||| a.y + a.height <= b.y
                ||| b.y + b.height <= a.y
            }
        }),
{
    lemma_slot_inside(cols, rows, i);
    lemma_slot_inside(cols, rows, j);
    vstd::arithmetic::div_mod::lemma_fundamental_div_mod(i, cols);
    vstd::arithmetic::div_mod::lemma_fundamental_div_mod(j, cols);
    let (ci, ri, cj, rj) = (i % cols, i / cols, j % cols, j / cols);
    let w = MIN_CELL_W as int;
    let h = PREVIEW_HEIGHT + CELL_EXTRA_H;
    lemma_fits(w, area.width as int, cols, ci);
    lemma_fits(w, area.width as int, cols, cj);
    lemma_fits(h, area.height as int, rows, ri);
    lemma_fits(h, area.height as int, rows, rj);
    if ci < cj {
        lemma_apart(w, ci, cj);
    } else if cj < ci {
        lemma_apart(w, cj, ci);
    } else if ri < rj {
        lemma_apart(h, ri, rj);
    } else if rj < ri {
        lemma_apart(h, rj, ri);
    } else {
        assert(cols * ri == cols * rj);
    }
}

impl<F> App<F> {
    /// Draws previews as images from now on, out of the given cache.
    pub fn enable_previews(&mut self, cache: PreviewCache<F>)
        requires
            old(self).wf(),
            cache.wf(),
        ensures
            final(self).wf(),
            final(self)@ == (PickerView { previews: Some(cache@), ..old(self)@ }),
    {
        self.mode = PreviewMode::Graphics { cache };
    }

    /// Fits the picker to the area of the grid.
    pub fn set_viewport(&mut self, width: u16, height: u16)
        requires
            old(self).wf(),
        ensures
            final(self).wf(),
            final(self)@ == old(self)@.fitted(width, height),
    {
        self.cols = grid_cols(width);
        self.rows = visible_rows(height);
        self.ensure_visible();
        let visible: usize = saturating_product(self.cols as usize, self.rows as usize);
        let twice: usize = saturating_product(visible, 2);
        if let PreviewMode::Graphics { cache } = &mut self.mode {
            cache.set_cap(
                if twice < 1 {
                    1
                } else {
                    twice
                },
            );
        }
    }

    /// Asks for the previews of the visible cells, those nearest the cursor
    /// first. Which of them are to be loaded, in that order: those that nothing
    /// is known of yet.
    pub fn request_previews(&mut self) -> (r: Vec<String>)
        requires
            old(self).wf(),
        ensures
            final(self).wf(),
            match old(self)@.previews {
                None => r@.len() == 0 && final(self)@ == old(self)@,
                Some(cache) => exists|slots: Seq<usize>|
                    {
                        let urls = preview_urls(old(self)@.grid().items, slots);
                        &&& #[trigger] old(self)@.visible(slots)
                        &&& texts(r@) == started(cache, urls)
                        &&& final(self)@ == (PickerView {
                            previews: Some(asked_all(cache, urls)),
                            ..old(self)@
                        })
                    },
            },
    {
        let cols: usize = if self.cols < 1 {
            1
        } else {
            self.cols as usize
        };
        let rows: usize = if self.rows < 1 {
            1
        } else {
            self.rows as usize
        };
        let mut loads: Vec<String> = Vec::new();
        let urls: Vec<String> = self.visible_urls(cols, rows);
        if let PreviewMode::Graphics { cache } = &mut self.mode {
            let ghost before = cache@;
            let ghost keys = texts(urls@);
            let mut k: usize = 0;
            assert(keys.take(0).len() == 0);
            assert(texts(loads@) == Seq::<Seq<char>>::empty());
            while k < urls.len()
                invariant
                    k <= urls@.len(),
                    cache.wf(),
                    keys == texts(urls@),
                    cache@ == asked_all(before, keys.take(k as int)),
                    texts(loads@) == started(before, keys.take(k as int)),
                decreases urls@.len() - k,
            {
                let ghost longer = keys.take(k + 1);
                assert(longer.drop_last() == keys.take(k as int));
                assert(longer.last() == urls@[k as int]@);
                if ensure_requested(cache, urls[k].as_str()) {
                    let ghost loads0 = loads@;
                    loads.push(urls[k].clone());
                    assert(texts(loads@) == texts(loads0).push(urls@[k as int]@));
                }
                k += 1;
            }
            assert(keys.take(k as int) == keys);
        }
        loads
    }

    fn visible_urls(&self, cols: usize, rows: usize) -> (r: Vec<String>)
        requires
            cols == at_least_one(self.cols as int),
            rows == at_least_one(self.rows as int),
        ensures
            exists|slots: Seq<usize>| #[trigger]
                self@.visible(slots) && texts(r@) == preview_urls(self@.grid().items, slots),
    {
        let slots: Vec<usize> = nearest_slots(
            self.grid().first_item,
            cols,
            rows,
            self.grid().items.len(),
            self.grid().selected,
        );
        let ghost all = preview_urls(self@.grid().items, slots@);
        let mut urls: Vec<String> = Vec::new();
        let mut k: usize = 0;
        assert(texts(urls@) == all.take(0));
        while k < slots.len()
            invariant
                k <= slots@.len(),
                all == preview_urls(self@.grid().items, slots@),
                self@.visible(slots@),
                texts(urls@) == all.take(k as int),
            decreases slots@.len() - k,
        {
            let idx: usize = slots[k];
            assert(slots@.contains(idx)) by {
                assert(slots@[k as int] == idx);
            }
            let ghost urls0 = urls@;
            urls.push(self.grid().items[idx].preview_url.clone());
            assert(texts(urls@) == texts(urls0).push(all[k as int]));
            assert(all.take(k + 1) == all.take(k as int).push(all[k as int]));
            k += 1;
        }
        assert(all.take(k as int) == all);
        urls
    }

    /// Takes the end of the load of a preview.
    pub fn preview_loaded(&mut self, url: &str, outcome: Loaded<F>)
        requires
            old(self).wf(),
        ensures
            final(self).wf(),
            match old(self)@.previews {
                None => final(self)@ == old(self)@,
                Some(cache) => {
                    &&& final(self)@.previews is Some
                    &&& settles(cache, url@, outcome, final(self)@.previews->0)
                    &&& final(self)@ == (PickerView {
                        previews: final(self)@.previews,
                        ..old(self)@
                    })
                },
            },
    {
        if let PreviewMode::Graphics { cache } = &mut self.mode {
            cache.settle(url, outcome);
        }
    }

    /// The cells to draw in the area of the grid, row by row.
    pub fn cells(&self, area: Rect) -> (r: Vec<Cell>)
        requires
            area.on_screen(),
            self.cols == at_least_one(area.width as int / MIN_CELL_W as int),
            self.rows == at_least_one(area.height as int / (PREVIEW_HEIGHT + CELL_EXTRA_H)),
        ensures
            area.width == 0 || area.height == 0 ==> r@.len() == 0,
            area.width > 0 && area.height > 0 ==> r@.len() == cells_shown(
                self@.grid().first_item,
                self.cols as int,
                self.rows as int,
                self@.grid().items.len() as int,
            ),
            forall|k: int|
                0 <= k < r@.len() ==> (#[trigger] r@[k]).idx == self@.grid().first_item + k
                    && r@[k].area == cell_at(area, self.cols as int, k),
    {
        let mut out: Vec<Cell> = Vec::new();
        if area.is_empty() {
            return out;
        }
        let cols: usize = self.cols as usize;
        let rows: usize = self.rows as usize;
        let first: usize = self.grid().first_item;
        let len: usize = self.grid().items.len();
        if first >= len {
            return out;
        }
        let height: u16 = cell_height();
        proof {
            assert(cols * rows <= u16::MAX * u16::MAX) by (nonlinear_arith)
                requires
                    cols <= u16::MAX,
                    rows <= u16::MAX,
            ;
        }
        let slots: usize = saturating_product(cols, rows);
        let shown: usize = if slots < len - first {
            slots
        } else {
            len - first
        };
        let width_of: u16 = if area.width < MIN_CELL_W {
            area.width
        } else {
            MIN_CELL_W
        };
        let height_of: u16 = if area.height < height {
            area.height
        } else {
            height
        };
        let mut slot: usize = 0;
        while slot < shown
            invariant
                slot <= shown,
                shown <= cols * rows,
                shown <= len - first,
                first < len,
                cols == self.cols,
                rows == self.rows,
                first == self@.grid().first_item,
                area.on_screen(),
                area.width > 0,
                area.height > 0,
                cols == at_least_one(area.width as int / MIN_CELL_W as int),
                rows == at_least_one(area.height as int / (PREVIEW_HEIGHT + CELL_EXTRA_H)),
                height == PREVIEW_HEIGHT + CELL_EXTRA_H,
                width_of == smaller(MIN_CELL_W as int, area.width as int),
                height_of == smaller(PREVIEW_HEIGHT + CELL_EXTRA_H, area.height as int),
                out@.len() == slot,
                forall|k: int|
                    0 <= k < out@.len() ==> (#[trigger] out@[k]).idx == first + k && out@[k].area
                        == cell_at(area, cols as int, k),
            decreases shown - slot,
        {
            proof {
                lemma_slot_inside(cols as int, rows as int, slot as int);
                lemma_fits(
                    MIN_CELL_W as int,
                    area.width as int,
                    cols as int,
                    slot as int % cols as int,
                );
                lemma_fits(
                    PREVIEW_HEIGHT + CELL_EXTRA_H,
                    area.height as int,
                    rows as int,
                    slot as int / cols as int,
                );
            }
            let c: u16 = (slot % cols) as u16;
            let r: u16 = (slot / cols) as u16;
            out.push(
                Cell {
                    idx: first + slot,
                    area: Rect {
                        x: area.x + c * MIN_CELL_W,
                        y: area.y + r * height,
                        width: width_of,
                        height: height_of,
                    },
                },
            );
            slot += 1;
        }
        out
    }
}

/// Once the picker is fitted to its area, the item at the cursor is among the
/// visible ones.
pub proof fn lemma_cursor_is_visible<F>(v: PickerView<F>, width: u16, height: u16)
    requires
        v.grid().active() is Some,
        0 <= v.grid().first_item,
        v.grid().items.len() <= usize::MAX,
    ensures
        ({
            let f = v.fitted(width, height);
            &&& f.grid().active() == v.grid().active()
            &&& in_window(
                f.grid().selected,
                f.grid().first_item,
                f.cols as int,
                f.rows as int,
                f.grid().items.len() as int,
            )
        }),
{
    let f = v.fitted(width, height);
    lemma_scrolled_shows_cursor(
        v.grid().first_item,
        v.grid().selected,
        at_least_one(f.cols as int),
        at_least_one(f.rows as int),
        v.grid().items.len() as int,
    );
    assert(capped_product(f.rows as int, f.cols as int) == capped_product(
        f.cols as int,
        f.rows as int,
    )) by (nonlinear_arith);
}

} // verus!

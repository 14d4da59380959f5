//! Arithmetic of the grid: how many cells fit, where the arrow keys lead,
//! which cells are near the cursor, and how items fall into pages.

use crate::text::{decimal, push_decimal};
use vstd::arithmetic::div_mod::{
    lemma_div_is_ordered, lemma_fundamental_div_mod, lemma_fundamental_div_mod_converse,
    lemma_mod_multiples_vanish, lemma_mod_self_0, lemma_small_mod,
};
use vstd::prelude::*;
use vstd::string::*;

verus! {

/// Width of a grid preview, in terminal cells.
pub const PREVIEW_WIDTH: u16 = 12;

/// Height of a grid preview, in terminal cells.
pub const PREVIEW_HEIGHT: u16 = 4;

/// Minimum width of one grid cell: the preview and 2 border columns.
pub const MIN_CELL_W: u16 = PREVIEW_WIDTH + 2;

/// Extra rows per cell besides the image: 2 borders and 1 title line.
pub const CELL_EXTRA_H: u16 = 3;

/// Items per page when paging against a server.
pub const PAGE_SIZE: usize = 50;

/// The larger of a number and one.
pub open spec fn at_least_one(n: int) -> int {
    if n < 1 {
        1
    } else {
        n
    }
}

/// A product that stops at the largest `usize`.
pub open spec fn capped_product(a: int, b: int) -> int {
    if a * b <= usize::MAX {
        a * b
    } else {
        usize::MAX as int
    }
}

/// Height of one grid cell.
pub fn cell_height() -> (r: u16)
    ensures
        r == PREVIEW_HEIGHT + CELL_EXTRA_H,
{
    PREVIEW_HEIGHT + CELL_EXTRA_H
}

/// Columns that fit in a grid area of the given width.
pub fn grid_cols(width: u16) -> (r: u16)
    ensures
        r == at_least_one(width as int / MIN_CELL_W as int),
{
    let n: u16 = width / MIN_CELL_W;
    if n < 1 {
        1
    } else {
        n
    }
}

/// Number of fully visible rows in a grid area of the given height.
pub fn visible_rows(area_height: u16) -> (r: u16)
    ensures
        r == at_least_one(area_height as int / (PREVIEW_HEIGHT + CELL_EXTRA_H)),
{
    let n: u16 = area_height / cell_height();
    if n < 1 {
        1
    } else {
        n
    }
}

/// Where the left arrow leads: one back, from the first to the last.
pub open spec fn left_of(i: int, len: int) -> int {
    if len <= 1 {
        0
    } else {
        (i + len - 1) % len
    }
}

/// Where the right arrow leads: one on, from the last to the first.
pub open spec fn right_of(i: int, len: int) -> int {
    if len <= 1 {
        0
    } else {
        (i + 1) % len
    }
}

/// Where the up arrow leads: one row up, from the first row to the same column
/// of the last row, or to the last item where that row ends before the column.
pub open spec fn above(i: int, cols: int, len: int) -> int {
    if len <= 1 || cols == 0 {
        0
    } else if i >= cols {
        i - cols
    } else {
        let target = ((len - 1) / cols) * cols + i;
        if target >= len {
            len - 1
        } else {
            target
        }
    }
}

/// Where the down arrow leads: one row down, or to the same column of the
/// first row.
pub open spec fn below(i: int, cols: int, len: int) -> int {
    if len <= 1 || cols == 0 {
        0
    } else if i + cols < len {
        i + cols
    } else {
        i % cols
    }
}

/// Wrap navigation inside a flat index list (left arrow).
pub fn nav_left(i: usize, len: usize) -> (r: usize)
    ensures
        r == left_of(i as int, len as int),
{
    if len <= 1 {
        0
    } else {
        let k: usize = i % len;
        proof {
            let q = i as int / len as int;
            lemma_fundamental_div_mod(i as int, len as int);
            if k == 0 {
                lemma_fundamental_div_mod_converse(i + len - 1, len as int, q, len - 1);
            } else {
                assert(len * (q + 1) == len * q + len) by (nonlinear_arith);
                lemma_fundamental_div_mod_converse(i + len - 1, len as int, q + 1, k - 1);
            }
        }
        if k == 0 {
            len - 1
        } else {
            k - 1
        }
    }
}

/// Wrap navigation inside a flat index list (right arrow).
pub fn nav_right(i: usize, len: usize) -> (r: usize)
    ensures
        r == right_of(i as int, len as int),
{
    if len <= 1 {
        0
    } else {
        let k: usize = i % len;
        proof {
            let q = i as int / len as int;
            lemma_fundamental_div_mod(i as int, len as int);
            if k == len - 1 {
                assert(len * (q + 1) == len * q + len) by (nonlinear_arith);
                lemma_fundamental_div_mod_converse(i + 1, len as int, q + 1, 0);
            } else {
                lemma_fundamental_div_mod_converse(i + 1, len as int, q, k + 1);
            }
        }
        if k == len - 1 {
            0
        } else {
            k + 1
        }
    }
}

/// Move one row up in a grid, wrapping to the matching column of the last row.
pub fn nav_up(i: usize, cols: usize, len: usize) -> (r: usize)
    ensures
        r == above(i as int, cols as int, len as int),
{
    if len <= 1 || cols == 0 {
        return 0;
    }
    if i >= cols {
        i - cols
    } else {
        let last_row: usize = (len - 1) / cols;
        proof {
            lemma_fundamental_div_mod(len - 1, cols as int);
            assert(cols * last_row == last_row * cols) by (nonlinear_arith);
            assert(0 <= last_row * cols) by (nonlinear_arith)
                requires
                    last_row >= 0,
                    cols >= 0,
            ;
        }
        let row_start: usize = last_row * cols;
        if i >= len - row_start {
            len - 1
        } else {
            row_start + i
        }
    }
}

/// Move one row down in a grid, wrapping to the matching column of the first
/// row.
pub fn nav_down(i: usize, cols: usize, len: usize) -> (r: usize)
    ensures
        r == below(i as int, cols as int, len as int),
{
    if len <= 1 || cols == 0 {
        return 0;
    }
    if cols < len && i < len - cols {
        i + cols
    } else {
        i % cols
    }
}

/// Every arrow key leads from an item of the list to an item of the list.
pub proof fn lemma_nav_stays_inside(i: int, cols: int, len: int)
    requires
        0 <= i < len,
        0 <= cols,
    ensures
        0 <= left_of(i, len) < len,
        0 <= right_of(i, len) < len,
        0 <= above(i, cols, len) < len,
        0 <= below(i, cols, len) < len,
{
    if len > 1 && cols > 0 {
        lemma_fundamental_div_mod(len - 1, cols);
        assert(((len - 1) / cols) * cols == cols * ((len - 1) / cols)) by (nonlinear_arith);
        assert(((len - 1) / cols) * cols >= 0) by (nonlinear_arith)
            requires
                len > 1,
                cols > 0,
        ;
        lemma_fundamental_div_mod(i, cols);
        assert(cols * (i / cols) >= 0) by (nonlinear_arith)
            requires
                i >= 0,
                cols > 0,
        ;
    }
}

/// Left undoes right, and right undoes left.
pub proof fn lemma_left_right_inverse(i: int, len: int)
    requires
        0 <= i < len,
    ensures
        left_of(right_of(i, len), len) == i,
        right_of(left_of(i, len), len) == i,
{
    if len > 1 {
        if i + 1 == len {
            lemma_mod_self_0(len);
            lemma_small_mod((len - 1) as nat, len as nat);
        } else {
            lemma_small_mod((i + 1) as nat, len as nat);
            lemma_mod_multiples_vanish(1, i, len);
            lemma_small_mod(i as nat, len as nat);
            assert((i + 1 + len - 1) % len == i % len) by {
                assert(len * 1 + i == i + 1 + len - 1);
            }
        }
        if i == 0 {
            lemma_small_mod((len - 1) as nat, len as nat);
            lemma_mod_self_0(len);
        } else {
            lemma_mod_multiples_vanish(1, i - 1, len);
            lemma_small_mod((i - 1) as nat, len as nat);
            assert((i + len - 1) % len == i - 1) by {
                assert(len * 1 + (i - 1) == i + len - 1);
            }
            lemma_small_mod(i as nat, len as nat);
        }
    }
}

/// Up and down move by whole rows: the column stays, except where the last row
/// is too short for it and the last item is taken instead.
pub proof fn lemma_up_down_keep_column(i: int, cols: int, len: int)
    requires
        0 <= i < len,
        0 < cols,
        1 < len,
    ensures
        below(i, cols, len) % cols == i % cols,
        above(i, cols, len) % cols == i % cols || above(i, cols, len) == len - 1,
{
    lemma_mod_multiples_vanish(1, i, cols);
    assert(cols * 1 + i == i + cols);
    if i + cols >= len {
        lemma_fundamental_div_mod(i, cols);
        lemma_small_mod((i % cols) as nat, cols as nat);
    }
    if i >= cols {
        lemma_mod_multiples_vanish(-1, i, cols);
        assert(cols * -1 + i == i - cols);
    } else {
        let row = (len - 1) / cols;
        lemma_mod_multiples_vanish(row, i, cols);
        assert(cols * row + i == row * cols + i) by (nonlinear_arith);
    }
}

/// The distance between two numbers.
pub open spec fn gap(a: int, b: int) -> int {
    if a >= b {
        a - b
    } else {
        b - a
    }
}

/// How far two items lie from each other in a grid of `cols` columns: the sum
/// of the squares of the rows and of the columns between them, each square
/// stopping at the largest `usize`.
pub open spec fn distance(a: int, b: int, cols: int) -> int {
    let dr = gap(a / cols, b / cols);
    let dc = gap(a % cols, b % cols);
    capped_product(dr, dr) + capped_product(dc, dc)
}

/// Whether item `a` comes before item `b` in the order of increasing distance
/// from `from`; of two items at the same distance the earlier one is first.
pub open spec fn nearer(a: int, b: int, from: int, cols: int) -> bool {
    let da = distance(a, from, cols);
    let db = distance(b, from, cols);
    da < db || (da == db && a < b)
}

/// Whether an item lies in the visible window of a grid.
pub open spec fn in_window(idx: int, first_item: int, cols: int, rows: int, len: int) -> bool {
    first_item <= idx < len && idx < first_item + capped_product(
        at_least_one(cols),
        at_least_one(rows),
    )
}

/// Whether `slots` are the items of the visible window, each once, in the order
/// of increasing distance from the cursor.
pub open spec fn is_nearest_first(
    slots: Seq<usize>,
    first_item: int,
    cols: int,
    rows: int,
    len: int,
    selected: int,
) -> bool {
    &&& forall|idx: usize| #[trigger]
        slots.contains(idx) <==> in_window(idx as int, first_item, cols, rows, len)
    &&& forall|j: int, k: int|
        0 <= j < k < slots.len() ==> nearer(
            #[trigger] slots[j] as int,
            #[trigger] slots[k] as int,
            selected,
            at_least_one(cols),
        )
}

/// The product of two numbers, or the largest `usize` where that is exceeded.
pub(crate) fn saturating_product(a: usize, b: usize) -> (r: usize)
    ensures
        r == capped_product(a as int, b as int),
{
    match a.checked_mul(b) {
        Some(p) => p,
        None => usize::MAX,
    }
}

fn cell_distance(a: usize, b: usize, cols: usize) -> (r: u128)
    requires
        cols > 0,
    ensures
        r == distance(a as int, b as int, cols as int),
{
    let ra: usize = a / cols;
    let rb: usize = b / cols;
    let ca: usize = a % cols;
    let cb: usize = b % cols;
    let dr: usize = if ra >= rb {
        ra - rb
    } else {
        rb - ra
    };
    let dc: usize = if ca >= cb {
        ca - cb
    } else {
        cb - ca
    };
    saturating_product(dr, dr) as u128 + saturating_product(dc, dc) as u128
}

/// Indices of the cells in the visible window
/// (`first_item..first_item + cols * rows`), ordered by increasing distance
/// from the cursor. Stops at the end of `len` on a partial last row. No rows
/// and no columns count as one.
pub fn nearest_slots(
    first_item: usize,
    cols: usize,
    rows: usize,
    len: usize,
    selected: usize,
) -> (r: Vec<usize>)
    ensures
        is_nearest_first(
            r@,
            first_item as int,
            cols as int,
            rows as int,
            len as int,
            selected as int,
        ),
{
    let width: usize = if cols < 1 {
        1
    } else {
        cols
    };
    let height: usize = if rows < 1 {
        1
    } else {
        rows
    };
    let visible: usize = saturating_product(width, height);
    let mut slots: Vec<usize> = Vec::new();
    let end: usize = if first_item >= len {
        first_item
    } else if visible < len - first_item {
        first_item + visible
    } else {
        len
    };
    let mut idx: usize = first_item;
    while idx < end
        invariant
            first_item <= idx <= end,
            width == at_least_one(cols as int),
            forall|i: usize| #[trigger] slots@.contains(i) <==> first_item <= i < idx,
            forall|j: int, k: int|
                0 <= j < k < slots@.len() ==> nearer(
                    #[trigger] slots@[j] as int,
                    #[trigger] slots@[k] as int,
                    selected as int,
                    width as int,
                ),
        decreases end - idx,
    {
        let d: u128 = cell_distance(idx, selected, width);
        let ghost before = slots@;
        let mut at: usize = slots.len();
        while at > 0 && cell_distance(slots[at - 1], selected, width) > d
            invariant
                at <= slots@.len(),
                slots@ == before,
                width > 0,
                d == distance(idx as int, selected as int, width as int),
                forall|k: int|
                    at <= k < slots@.len() ==> distance(
                        #[trigger] slots@[k] as int,
                        selected as int,
                        width as int,
                    ) > d,
            decreases at,
        {
            at -= 1;
        }
        slots.insert(at, idx);
        proof {
            let w = width as int;
            let s = selected as int;
            assert forall|i: usize| #[trigger] slots@.contains(i) <==> first_item <= i < idx + 1 by {
                if slots@.contains(i) {
                    let k = choose|k: int| 0 <= k < slots@.len() && slots@[k] == i;
                    if k < at {
                        assert(before.contains(i)) by {
                            assert(before[k] == i);
                        }
                    } else if k > at {
                        assert(before.contains(i)) by {
                            assert(before[k - 1] == i);
                        }
                    }
                }
                if first_item <= i < idx + 1 {
                    if i == idx {
                        assert(slots@[at as int] == idx);
                    } else {
                        assert(before.contains(i));
                        let k = choose|k: int| 0 <= k < before.len() && before[k] == i;
                        if k < at {
                            assert(slots@[k] == i);
                        } else {
                            assert(slots@[k + 1] == i);
                        }
                    }
                }
            }
            assert forall|j: int, k: int| 0 <= j < k < slots@.len() implies nearer(
                #[trigger] slots@[j] as int,
                #[trigger] slots@[k] as int,
                s,
                w,
            ) by {
                if k < at {
                    assert(slots@[j] == before[j] && slots@[k] == before[k]);
                } else if k == at {
                    assert(slots@[j] == before[j]);
                    assert(before.contains(before[j]));
                    if j < at - 1 {
                        assert(nearer(before[j] as int, before[at - 1] as int, s, w));
                    }
                } else if j < at {
                    assert(slots@[j] == before[j] && slots@[k] == before[k - 1]);
                } else if j == at {
                    assert(slots@[k] == before[k - 1]);
                } else {
                    assert(slots@[j] == before[j - 1] && slots@[k] == before[k - 1]);
                }
            }
        }
        idx += 1;
    }
    slots
}

/// Pages covered by `total` items.
pub open spec fn pages_of(total: int) -> int {
    (total + PAGE_SIZE - 1) / PAGE_SIZE as int
}

/// Pages covered by `total` items at `PAGE_SIZE` per page.
pub fn total_pages(total: usize) -> (r: usize)
    ensures
        r == pages_of(total as int),
{
    let whole: usize = total / PAGE_SIZE;
    if total % PAGE_SIZE == 0 {
        whole
    } else {
        whole + 1
    }
}

/// The pages hold every item, and no page is left empty.
pub proof fn lemma_pages_cover(total: int)
    requires
        0 <= total,
    ensures
        pages_of(total) * PAGE_SIZE >= total,
        total > 0 ==> (pages_of(total) - 1) * PAGE_SIZE < total,
        total == 0 ==> pages_of(total) == 0,
{
}

/// The text `page N/M`, or `page N` where the number of pages is unknown or
/// zero.
pub open spec fn page_text(page: int, total: Option<usize>) -> Seq<char> {
    let here = "page "@ + decimal((page + 1) as nat);
    if total is Some && pages_of(total->0 as int) > 0 {
        here + "/"@ + decimal(pages_of(total->0 as int) as nat)
    } else {
        here
    }
}

/// Footer fragment for the current page, e.g. `page 2/7` (or `page 2` when the
/// total is unknown).
pub fn page_label(page: usize, total: Option<usize>) -> (r: String)
    requires
        page < usize::MAX,
    ensures
        r@ == page_text(page as int, total),
{
    let mut out: String = "page ".to_owned();
    push_decimal(&mut out, (page + 1) as u128);
    if let Some(t) = total {
        let pages: usize = total_pages(t);
        if pages > 0 {
            out.append("/");
            push_decimal(&mut out, pages as u128);
        }
    }
    out
}

/// The first item to show so that the item at `selected` is in view: the
/// window moves by whole rows, no further than needed, and never past the
/// last row.
pub open spec fn scrolled(first: int, selected: int, cols: int, rows: int, len: int) -> int {
    if len == 0 {
        first
    } else {
        let moved = if selected < first {
            (selected / cols) * cols
        } else if selected >= first + capped_product(rows, cols) {
            let top = selected / cols - (rows - 1);
            if top < 0 {
                0
            } else {
                top * cols
            }
        } else {
            first
        };
        let last = ((len - 1) / cols) * cols;
        if moved > last {
            last
        } else {
            moved
        }
    }
}

/// Computes where the window starts so that the item at `selected` is in view.
pub(crate) fn scroll_to(
    first: usize,
    selected: usize,
    cols: usize,
    rows: usize,
    len: usize,
) -> (r: usize)
    requires
        cols > 0,
        rows > 0,
    ensures
        r == scrolled(first as int, selected as int, cols as int, rows as int, len as int),
{
    if len == 0 {
        return first;
    }
    let visible: usize = saturating_product(rows, cols);
    let row: usize = selected / cols;
    proof {
        lemma_row_start(selected as int, cols as int);
        lemma_row_start(len - 1, cols as int);
    }
    let moved: usize = if selected < first {
        row * cols
    } else if selected - first >= visible {
        let top: usize = if row < rows - 1 {
            0
        } else {
            row - (rows - 1)
        };
        proof {
            assert(top * cols <= row * cols) by (nonlinear_arith)
                requires
                    top <= row,
                    cols > 0,
            ;
        }
        top * cols
    } else {
        first
    };
    let last: usize = ((len - 1) / cols) * cols;
    if moved > last {
        last
    } else {
        moved
    }
}

proof fn lemma_row_start(i: int, cols: int)
    requires
        0 <= i,
        0 < cols,
    ensures
        0 <= (i / cols) * cols <= i < (i / cols) * cols + cols,
{
    lemma_fundamental_div_mod(i, cols);
    assert((i / cols) * cols == cols * (i / cols)) by (nonlinear_arith);
    assert((i / cols) * cols >= 0) by (nonlinear_arith)
        requires
            0 <= i,
            0 < cols,
    ;
}

/// Once the window has moved, the item at the cursor is inside it; a window
/// that started at the beginning of a row still does.
pub proof fn lemma_scrolled_shows_cursor(
    first: int,
    selected: int,
    cols: int,
    rows: int,
    len: int,
)
    requires
        0 <= first,
        0 <= selected < len <= usize::MAX,
        0 < cols,
        0 < rows,
    ensures
        ({
            let top = scrolled(first, selected, cols, rows, len);
            &&& 0 <= top <= selected < top + capped_product(rows, cols)
            &&& first % cols == 0 ==> top % cols == 0
        }),
{
    let row = selected / cols;
    lemma_row_start(selected, cols);
    lemma_row_start(len - 1, cols);
    lemma_div_is_ordered(selected, len - 1, cols);
    let last = (len - 1) / cols;
    assert(row * cols <= last * cols) by (nonlinear_arith)
        requires
            row <= last,
            cols > 0,
    ;
    assert(rows * cols >= cols) by (nonlinear_arith)
        requires
            rows >= 1,
            cols > 0,
    ;
    lemma_multiple_mod(row, cols);
    lemma_multiple_mod(last, cols);
    let top_row = if row - (rows - 1) < 0 {
        0
    } else {
        row - (rows - 1)
    };
    lemma_multiple_mod(top_row, cols);
    assert(0 * cols == 0);
    assert(top_row * cols <= row * cols) by (nonlinear_arith)
        requires
            top_row <= row,
            cols > 0,
    ;
    assert((top_row + rows) * cols == top_row * cols + rows * cols) by (nonlinear_arith);
    assert((row + 1) * cols == row * cols + cols) by (nonlinear_arith);
    assert((top_row + rows) * cols >= (row + 1) * cols) by (nonlinear_arith)
        requires
            top_row + rows >= row + 1,
            cols > 0,
    ;
    assert(0 <= top_row * cols) by (nonlinear_arith)
        requires
            0 <= top_row,
            0 < cols,
    ;
}

proof fn lemma_multiple_mod(row: int, cols: int)
    requires
        0 < cols,
    ensures
        (row * cols) % cols == 0,
{
    lemma_mod_multiples_vanish(row, 0, cols);
    assert(cols * row + 0 == row * cols) by (nonlinear_arith);
    lemma_small_mod(0, cols as nat);
}

} // verus!

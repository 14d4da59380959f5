//! How the grid is laid out, walked and paged.

use vstd::arithmetic::div_mod::{lemma_fundamental_div_mod, lemma_small_mod};
use vstd::prelude::*;

use crate::grid::{distance, in_window, nearer, PAGE_SIZE};
use crate::text::decimal;

verus! {

/// A grid has as many columns and rows as fit whole, and one of each at least. A cell
/// is 14 wide and 7 high.
pub proof fn lemma_cells_that_fit(width: u16, height: u16, cols: u16, rows: u16, cell: u16)
    requires
        call_ensures(crate::grid::grid_cols, (width,), cols),
        call_ensures(crate::grid::visible_rows, (height,), rows),
        call_ensures(crate::grid::cell_height, (), cell),
    ensures
        cell == 7,
        width < 14 ==> cols == 1,
        width >= 14 ==> cols * 14 <= width < (cols + 1) * 14,
        height < 7 ==> rows == 1,
        height >= 7 ==> rows * 7 <= height < (rows + 1) * 7,
{
}

/// One to the right and one to the left, around the ends.
pub proof fn lemma_left_and_right(i: usize, len: usize, right: usize, left: usize)
    requires
        call_ensures(crate::grid::nav_right, (i, len), right),
        call_ensures(crate::grid::nav_left, (i, len), left),
        i < len,
    ensures
        i + 1 < len ==> right == i + 1,
        i + 1 == len ==> right == 0,
        i > 0 ==> left == i - 1,
        i == 0 ==> left == len - 1,
{
    let at = i as int;
    let n = len as int;
    if n > 1 {
        if at + 1 < n {
            lemma_small_mod((at + 1) as nat, n as nat);
        } else {
            vstd::arithmetic::div_mod::lemma_mod_self_0(n);
        }
        if at > 0 {
            vstd::arithmetic::div_mod::lemma_mod_multiples_vanish(1, at - 1, n);
            lemma_small_mod((at - 1) as nat, n as nat);
            assert(n * 1 + (at - 1) == at + n - 1);
        } else {
            lemma_small_mod((n - 1) as nat, n as nat);
        }
    }
}

/// Wherever one starts, sideways steps go around the list; a list of one item, or none,
/// has only its start, and so has a grid without columns.
pub proof fn lemma_steps_go_around(
    i: usize,
    cols: usize,
    len: usize,
    right: usize,
    left: usize,
    up: usize,
    down: usize,
)
    requires
        call_ensures(crate::grid::nav_right, (i, len), right),
        call_ensures(crate::grid::nav_left, (i, len), left),
        call_ensures(crate::grid::nav_up, (i, cols, len), up),
        call_ensures(crate::grid::nav_down, (i, cols, len), down),
    ensures
        len > 1 ==> right < len && left < len,
        len > 1 ==> (i + 1 - right) % len as int == 0,
        len > 1 ==> (i + len - 1 - left) % len as int == 0,
        len <= 1 ==> right == 0 && left == 0 && up == 0 && down == 0,
        cols == 0 ==> up == 0 && down == 0,
{
    if len > 1 {
        lemma_taken_off(i + 1, len as int);
        lemma_taken_off(i + len - 1, len as int);
    }
}

proof fn lemma_taken_off(x: int, n: int)
    requires
        0 <= x,
        1 < n,
    ensures
        0 <= x % n < n,
        (x - x % n) % n == 0,
{
    lemma_fundamental_div_mod(x, n);
    vstd::arithmetic::div_mod::lemma_mod_multiples_vanish(x / n, 0, n);
    lemma_small_mod(0, n as nat);
    assert(n * (x / n) + 0 == x - x % n);
}

/// One row down and one row up, around the ends: from the last row to the first, in
/// the same column; from the first row to the last, in the same column or, where it
/// ends before that, on the last item.
pub proof fn lemma_up_and_down(i: usize, cols: usize, len: usize, down: usize, up: usize)
    requires
        call_ensures(crate::grid::nav_down, (i, cols, len), down),
        call_ensures(crate::grid::nav_up, (i, cols, len), up),
        i < len,
        cols > 0,
    ensures
        i + cols < len ==> down == i + cols,
        i + cols >= len ==> down < cols && down as int % cols as int == i as int % cols as int,
        i >= cols ==> up == i - cols,
        i < cols ==> {
            &&& i <= up < len
            &&& up + cols >= len
            &&& up as int % cols as int == i || (up == len - 1 && (len - 1) % (cols as int)
                < i)
        },
{
    let at = i as int;
    let n = len as int;
    let c = cols as int;
    lemma_fundamental_div_mod(at, c);
    lemma_small_mod((at % c) as nat, c as nat);
    lemma_small_mod(0, c as nat);
    if at < c {
        lemma_small_mod(at as nat, c as nat);
        let row = (n - 1) / c;
        lemma_fundamental_div_mod(n - 1, c);
        assert(row * c == c * row) by (nonlinear_arith);
        assert(row * c >= 0) by (nonlinear_arith)
            requires
                row == (n - 1) / c,
                n >= 1,
                c >= 1,
        ;
        vstd::arithmetic::div_mod::lemma_mod_multiples_vanish(row, at, c);
        assert(c * row + at == row * c + at);
    }
}

/// The pages of a list hold all of it, and none is empty.
pub proof fn lemma_page_count(total: usize, r: usize)
    requires
        call_ensures(crate::grid::total_pages, (total,), r),
    ensures
        r * 50 >= total,
        total > 0 ==> (r - 1) * 50 < total,
        total == 0 ==> r == 0,
        PAGE_SIZE == 50,
{
}

/// A page is counted from one on, and told with the number of pages if that is known
/// and there are any.
pub proof fn lemma_page_label(page: usize, total: Option<usize>, r: String, pages: usize)
    requires
        call_ensures(crate::grid::page_label, (page, total), r),
        total is Some ==> call_ensures(crate::grid::total_pages, (total->0,), pages),
    ensures
        total is Some && total->0 > 0 ==> r@ == "page "@ + decimal((page + 1) as nat) + "/"@
            + decimal(pages as nat),
        total is None || total->0 == 0 ==> r@ == "page "@ + decimal((page + 1) as nat),
{
}

/// How far apart two places are in a grid, in rows and in columns, squared; each no
/// more than can be counted.
pub open spec fn apart(a: int, b: int, cols: int) -> (int, int) {
    let r = a / cols - b / cols;
    let c = a % cols - b % cols;
    (r * r, c * c)
}

proof fn lemma_apart(a: int, b: int, cols: int)
    requires
        cols > 0,
        apart(a, b, cols).0 <= usize::MAX,
        apart(a, b, cols).1 <= usize::MAX,
    ensures
        distance(a, b, cols) == apart(a, b, cols).0 + apart(a, b, cols).1,
{
    let r = a / cols - b / cols;
    let c = a % cols - b % cols;
    assert((-r) * (-r) == r * r) by (nonlinear_arith);
    assert((-c) * (-c) == c * c) by (nonlinear_arith);
}

/// The places to load are just those on screen, each once.
pub proof fn lemma_slots_on_screen(
    first: usize,
    cols: usize,
    rows: usize,
    len: usize,
    selected: usize,
    r: Vec<usize>,
    idx: usize,
)
    requires
        call_ensures(crate::grid::nearest_slots, (first, cols, rows, len, selected), r),
        cols >= 1,
        rows >= 1,
        cols * rows <= usize::MAX,
    ensures
        r@.contains(idx) <==> first <= idx < len && idx < first + cols * rows,
        forall|j: int, k: int| 0 <= j < k < r@.len() ==> #[trigger] r@[j] != #[trigger] r@[k],
{
    assert(r@.contains(idx) <==> in_window(
        idx as int,
        first as int,
        cols as int,
        rows as int,
        len as int,
    ));
    assert forall|j: int, k: int| 0 <= j < k < r@.len() implies #[trigger] r@[j]
        != #[trigger] r@[k] by {
        assert(nearer(r@[j] as int, r@[k] as int, selected as int, cols as int));
    }
}

/// No rows and no columns count as one.
pub proof fn lemma_slots_of_no_rows(
    first: usize,
    cols: usize,
    rows: usize,
    len: usize,
    selected: usize,
    r: Vec<usize>,
    s: Vec<usize>,
    idx: usize,
)
    requires
        call_ensures(crate::grid::nearest_slots, (first, cols, rows, len, selected), r),
        call_ensures(
            crate::grid::nearest_slots,
            (
                first,
                if cols == 0 {
                    1
                } else {
                    cols
                },
                if rows == 0 {
                    1
                } else {
                    rows
                },
                len,
                selected,
            ),
            s,
        ),
    ensures
        r@.contains(idx) <==> s@.contains(idx),
{
    assert(r@.contains(idx) <==> in_window(
        idx as int,
        first as int,
        cols as int,
        rows as int,
        len as int,
    ));
    let c: usize = if cols == 0 {
        1
    } else {
        cols
    };
    let d: usize = if rows == 0 {
        1
    } else {
        rows
    };
    assert(s@.contains(idx) <==> in_window(
        idx as int,
        first as int,
        c as int,
        d as int,
        len as int,
    ));
}

/// They come by their distance from the cursor, the nearest first, and in reading
/// order at the same distance.
pub proof fn lemma_slots_by_distance(
    first: usize,
    cols: usize,
    rows: usize,
    len: usize,
    selected: usize,
    r: Vec<usize>,
    j: int,
    k: int,
)
    requires
        call_ensures(crate::grid::nearest_slots, (first, cols, rows, len, selected), r),
        cols >= 1,
        0 <= j < k < r@.len(),
        ({
            let x = apart(r@[j] as int, selected as int, cols as int);
            let y = apart(r@[k] as int, selected as int, cols as int);
            x.0 <= usize::MAX && x.1 <= usize::MAX && y.0 <= usize::MAX && y.1 <= usize::MAX
        }),
    ensures
        ({
            let x = apart(r@[j] as int, selected as int, cols as int);
            let y = apart(r@[k] as int, selected as int, cols as int);
            x.0 + x.1 < y.0 + y.1 || (x.0 + x.1 == y.0 + y.1 && r@[j] < r@[k])
        }),
{
    assert(nearer(r@[j] as int, r@[k] as int, selected as int, cols as int));
    lemma_apart(r@[j] as int, selected as int, cols as int);
    lemma_apart(r@[k] as int, selected as int, cols as int);
}

} // verus!

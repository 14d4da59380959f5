//! The rows of the screen and of a cell.

use vstd::prelude::*;

use crate::geometry::Rect;

verus! {

/// How high a row wants to be.
#[derive(Debug, Clone, Copy, PartialEq, Eq, Structural)]
pub enum Row {
    /// As high as this.
    Length(u16),
    /// As high as this at least, and as high as there is room.
    Min(u16),
}

/// The height that a row asks for.
pub open spec fn asked(row: Row) -> int {
    match row {
        Row::Length(n) => n as int,
        Row::Min(n) => n as int,
    }
}

/// The height that the first `n` rows ask for.
pub open spec fn asked_by(rows: Seq<Row>, n: int) -> int
    decreases n,
{
    if n <= 0 {
        0
    } else {
        asked_by(rows, n - 1) + asked(rows[n - 1])
    }
}

/// Whether all rows get what they ask for, and what is left goes to one of them
/// at most.
pub open spec fn fits(rows: Seq<Row>, height: int) -> bool {
    &&& asked_by(rows, rows.len() as int) <= height
    &&& forall|i: int, j: int|
        0 <= i < j < rows.len() ==> !((#[trigger] rows[i]) is Min && (#[trigger] rows[j]) is Min)
}

/// How high a row is among rows that fit.
pub open spec fn row_height(rows: Seq<Row>, height: int, i: int) -> int {
    match rows[i] {
        Row::Length(n) => n as int,
        Row::Min(n) => n + height - asked_by(rows, rows.len() as int),
    }
}

/// How far below the top a row starts among rows that fit.
pub open spec fn row_top(rows: Seq<Row>, height: int, i: int) -> int
    decreases i,
{
    if i <= 0 {
        0
    } else {
        row_top(rows, height, i - 1) + row_height(rows, height, i - 1)
    }
}

/// Whether a part of an area lies in it, over its whole width.
pub open spec fn spans(part: Rect, area: Rect) -> bool {
    &&& part.x == area.x
    &&& part.width == area.width
    &&& area.y <= part.y
    &&& part.y + part.height <= area.y + area.height
}

/// `Layout::split` of ratatui on rows one below the other. Every part lies in the
/// area, over its whole width. Rows that fit come one right after the other from
/// the top, each as high as it asks to be; what is left goes to the row that takes
/// it, or stays at the bottom. How rows share too little room is left open.
#[verifier::external_body]
fn split(area: Rect, rows: &Vec<Row>) -> (r: Vec<Rect>)
    requires
        area.on_screen(),
        forall|i: int| 0 <= i < rows@.len() ==> asked(#[trigger] rows@[i]) <= i16::MAX,
    ensures
        r@.len() == rows@.len(),
        forall|i: int| 0 <= i < r@.len() ==> spans(#[trigger] r@[i], area),
        fits(rows@, area.height as int) ==> forall|i: int|
            0 <= i < r@.len() ==> (#[trigger] r@[i]).y == area.y + row_top(
                rows@,
                area.height as int,
                i,
            ) && r@[i].height == row_height(rows@, area.height as int, i),
{
    let constraints = rows.iter().map(|row| match row {
        Row::Length(n) => ratatui::layout::Constraint::Length(*n),
        Row::Min(n) => ratatui::layout::Constraint::Min(*n),
    });
    let whole = ratatui::layout::Rect::new(area.x, area.y, area.width, area.height);
    let parts = ratatui::layout::Layout::vertical(constraints).split(whole);
    parts.iter().map(|p| Rect { x: p.x, y: p.y, width: p.width, height: p.height }).collect()
}

/// Where the parts of the screen are.
#[derive(Debug, Clone, Copy, PartialEq, Eq, Structural)]
pub struct ScreenAreas {
    pub tabs: Rect,
    pub search: Rect,
    pub grid: Rect,
    /// The first line of the footer.
    pub nav: Rect,
    /// The second line of the footer.
    pub actions: Rect,
}

/// The line of an area that starts `below` its top.
pub open spec fn line_of(area: Rect, below: int) -> Rect {
    Rect { y: (area.y + below) as u16, height: 1, ..area }
}

impl ScreenAreas {
    /// Every part lies in the area, over its whole width; and with room for
    /// header and footer, the header is the first two lines, the footer the
    /// last two, and the grid all between them.
    pub open spec fn laid_out(self, area: Rect) -> bool {
        &&& spans(self.tabs, area)
        &&& spans(self.search, area)
        &&& spans(self.grid, area)
        &&& spans(self.nav, area)
        &&& spans(self.actions, area)
        &&& area.height >= 4 ==> {
            &&& self.tabs == line_of(area, 0)
            &&& self.search == line_of(area, 1)
            &&& self.grid == (Rect {
                y: (area.y + 2) as u16,
                height: (area.height - 4) as u16,
                ..area
            })
            &&& self.nav == line_of(area, area.height - 2)
            &&& self.actions == line_of(area, area.height - 1)
        }
    }
}

fn two_lines(area: Rect) -> (r: (Rect, Rect))
    requires
        area.on_screen(),
    ensures
        spans(r.0, area),
        spans(r.1, area),
        area.height >= 2 ==> r.0 == line_of(area, 0) && r.1 == line_of(area, 1),
{
    let mut rows: Vec<Row> = Vec::new();
    rows.push(Row::Length(1));
    rows.push(Row::Length(1));
    let parts: Vec<Rect> = split(area, &rows);
    proof {
        reveal_with_fuel(asked_by, 3);
        reveal_with_fuel(row_top, 3);
    }
    (parts[0], parts[1])
}

/// Lays out the screen: a header of two lines, a footer of two lines, and the
/// grid in between.
pub fn screen_areas(area: Rect) -> (r: ScreenAreas)
    requires
        area.on_screen(),
    ensures
        r.laid_out(area),
{
    let mut rows: Vec<Row> = Vec::new();
    rows.push(Row::Length(2));
    rows.push(Row::Min(0));
    rows.push(Row::Length(2));
    let parts: Vec<Rect> = split(area, &rows);
    proof {
        reveal_with_fuel(asked_by, 4);
        reveal_with_fuel(row_top, 4);
    }
    let (tabs, search) = two_lines(parts[0]);
    let (nav, actions) = two_lines(parts[2]);
    ScreenAreas { tabs, search, grid: parts[1], nav, actions }
}

/// Lays out the inside of a cell: an image of the given height, and the title
/// below it. There has to be room for both.
pub fn cell_areas(inner: Rect, image_height: u16) -> (r: (Rect, Rect))
    requires
        inner.on_screen(),
        image_height < inner.height,
        image_height <= i16::MAX,
    ensures
        r.0 == (Rect { height: image_height, ..inner }),
        r.1 == (Rect {
            y: (inner.y + image_height) as u16,
            height: (inner.height - image_height) as u16,
            ..inner
        }),
{
    let mut rows: Vec<Row> = Vec::new();
    rows.push(Row::Length(image_height));
    rows.push(Row::Min(1));
    let parts: Vec<Rect> = split(inner, &rows);
    proof {
        reveal_with_fuel(asked_by, 3);
        reveal_with_fuel(row_top, 3);
    }
    (parts[0], parts[1])
}

} // verus!

//! Areas of the screen, in cells.

use vstd::prelude::*;

verus! {

/// A width and a height.
#[derive(Debug, Clone, Copy, PartialEq, Eq, Structural)]
pub struct Size {
    pub width: u16,
    pub height: u16,
}

impl Size {
    /// Whether this size is no larger than another.
    pub open spec fn within(self, other: Size) -> bool {
        self.width <= other.width && self.height <= other.height
    }

    pub fn new(width: u16, height: u16) -> (r: Size)
        ensures
            r == (Size { width, height }),
    {
        Size { width, height }
    }

    /// Whether there is no room in it.
    pub fn is_empty(&self) -> (r: bool)
        ensures
            r == (self.width == 0 || self.height == 0),
    {
        self.width == 0 || self.height == 0
    }
}

/// An area of the screen: its top left corner and its size.
#[derive(Debug, Clone, Copy, PartialEq, Eq, Structural)]
pub struct Rect {
    pub x: u16,
    pub y: u16,
    pub width: u16,
    pub height: u16,
}

/// How much of `len` cells from `start` on lies within the screen, whose
/// coordinates are `u16`.
pub open spec fn fitting(start: int, len: int) -> int {
    if start + len > u16::MAX {
        u16::MAX - start
    } else {
        len
    }
}

/// The smaller of two numbers.
pub open spec fn smaller(a: int, b: int) -> int {
    if a <= b {
        a
    } else {
        b
    }
}

fn fit(start: u16, len: u16) -> (r: u16)
    ensures
        r == fitting(start as int, len as int),
{
    if len > u16::MAX - start {
        u16::MAX - start
    } else {
        len
    }
}

impl Rect {
    /// Whether the right and the bottom edge are within the screen.
    pub open spec fn on_screen(self) -> bool {
        self.x + self.width <= u16::MAX && self.y + self.height <= u16::MAX
    }

    /// The area at the given corner, cut off where the coordinates end.
    pub fn new(x: u16, y: u16, width: u16, height: u16) -> (r: Rect)
        ensures
            r.x == x,
            r.y == y,
            r.width == fitting(x as int, width as int),
            r.height == fitting(y as int, height as int),
            r.on_screen(),
    {
        Rect { x, y, width: fit(x, width), height: fit(y, height) }
    }

    /// Whether there is no cell in the area.
    pub fn is_empty(&self) -> (r: bool)
        ensures
            r == (self.width == 0 || self.height == 0),
    {
        self.width == 0 || self.height == 0
    }
}

/// What is left of a width or height inside a border.
pub open spec fn inside_border(len: int) -> int {
    if len < 2 {
        0
    } else {
        len - 2
    }
}

/// The area inside a border of one cell on each side.
pub fn inside(area: Rect) -> (r: Rect)
    requires
        area.on_screen(),
    ensures
        r.x == area.x + smaller(1, area.width as int),
        r.y == area.y + smaller(1, area.height as int),
        r.width == inside_border(area.width as int),
        r.height == inside_border(area.height as int),
        r.on_screen(),
{
    Rect {
        x: if area.width > 0 {
            area.x + 1
        } else {
            area.x
        },
        y: if area.height > 0 {
            area.y + 1
        } else {
            area.y
        },
        width: if area.width < 2 {
            0
        } else {
            area.width - 2
        },
        height: if area.height < 2 {
            0
        } else {
            area.height - 2
        },
    }
}

/// An area of the given size in the middle of `area`, never larger than it.
/// An odd remainder goes to the right and to the bottom.
pub fn centered_area(area: Rect, size: Size) -> (r: Rect)
    requires
        area.on_screen(),
    ensures
        r.width == smaller(size.width as int, area.width as int),
        r.height == smaller(size.height as int, area.height as int),
        r.x == area.x + (area.width - r.width) / 2,
        r.y == area.y + (area.height - r.height) / 2,
        r.x + r.width <= area.x + area.width,
        r.y + r.height <= area.y + area.height,
{
    let w: u16 = if size.width < area.width {
        size.width
    } else {
        area.width
    };
    let h: u16 = if size.height < area.height {
        size.height
    } else {
        area.height
    };
    Rect::new(area.x + (area.width - w) / 2, area.y + (area.height - h) / 2, w, h)
}

} // verus!

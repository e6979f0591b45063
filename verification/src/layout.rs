//! Plain-value rectangles and the split operations of the layout policy.
//! Every panel draws into a sub-rectangle assigned here; the splits keep the
//! parts inside the parent and mutually disjoint, so independently active
//! panels never receive overlapping coordinates.

use vstd::prelude::*;

verus! {

/// A sub-region of the drawing surface, in cells: `x`/`y` is the top-left
/// corner, `width`/`height` the extent.
#[derive(Clone, Copy, Debug, PartialEq, Eq, Structural)]
pub struct Rect {
    pub x: u16,
    pub y: u16,
    pub width: u16,
    pub height: u16,
}

impl Rect {
    /// One past the right-most column.
    pub open spec fn right(self) -> int {
        self.x + self.width
    }

    /// One past the bottom-most row.
    pub open spec fn bottom(self) -> int {
        self.y + self.height
    }

    /// The far edges stay inside the coordinate space.
    pub open spec fn well_formed(self) -> bool {
        self.right() <= u16::MAX && self.bottom() <= u16::MAX
    }

    /// Covers no cell at all.
    pub open spec fn is_empty(self) -> bool {
        self.width == 0 || self.height == 0
    }

    /// The cell at column `px`, row `py` lies inside `self`.
    pub open spec fn covers(self, px: int, py: int) -> bool {
        &&& self.x <= px < self.right()
        &&& self.y <= py < self.bottom()
    }

    /// Every cell of `other` is a cell of `self`.
    pub open spec fn contains(self, other: Rect) -> bool {
        &&& self.x <= other.x
        &&& other.right() <= self.right()
        &&& self.y <= other.y
        &&& other.bottom() <= self.bottom()
    }

    /// The two rectangles are separated along an axis, so they share no cell.
    pub open spec fn disjoint(self, other: Rect) -> bool {
        ||| self.right() <= other.x
        ||| other.right() <= self.x
        ||| self.bottom() <= other.y
        ||| other.bottom() <= self.y
    }

    /// Builds a rectangle that fits the coordinate space.
    pub fn new(x: u16, y: u16, width: u16, height: u16) -> (r: Rect)
        requires
            x + width <= u16::MAX,
            y + height <= u16::MAX,
        ensures
            r == (Rect { x, y, width, height }),
            r.well_formed(),
    {
        Rect { x, y, width, height }
    }

    /// Shrinks by a margin on each side; see [`inner_spec`].
    pub fn inner(self, horizontal: u16, vertical: u16) -> (r: Rect)
        requires
            self.well_formed(),
        ensures
            r == inner_spec(self, horizontal, vertical),
            r.well_formed(),
            self.contains(r),
    {
        if (self.width as u32) <= 2 * (horizontal as u32) || (self.height as u32) <= 2 * (vertical
            as u32) {
            Rect { x: self.x, y: self.y, width: 0, height: 0 }
        } else {
            Rect {
                x: self.x + horizontal,
                y: self.y + vertical,
                width: self.width - 2 * horizontal,
                height: self.height - 2 * vertical,
            }
        }
    }

    /// Splits into a top and a bottom part; see [`split_vertical_spec`].
    pub fn split_vertical(self, top_height: u16) -> (r: (Rect, Rect))
        requires
            self.well_formed(),
        ensures
            r == split_vertical_spec(self, top_height),
            r.0.well_formed() && r.1.well_formed(),
            self.contains(r.0) && self.contains(r.1),
            r.0.disjoint(r.1),
    {
        let th = if top_height <= self.height {
            top_height
        } else {
            self.height
        };
        let top = Rect { x: self.x, y: self.y, width: self.width, height: th };
        let bottom = Rect {
            x: self.x,
            y: self.y + th,
            width: self.width,
            height: self.height - th,
        };
        (top, bottom)
    }

    /// Splits so that the bottom part gets `bottom_height` rows (all of them
    /// if fewer are available) and the top part the rest.
    pub fn split_vertical_end(self, bottom_height: u16) -> (r: (Rect, Rect))
        requires
            self.well_formed(),
        ensures
            r == split_vertical_end_spec(self, bottom_height),
            r.0.well_formed() && r.1.well_formed(),
            self.contains(r.0) && self.contains(r.1),
            r.0.disjoint(r.1),
    {
        let bh = if bottom_height <= self.height {
            bottom_height
        } else {
            self.height
        };
        self.split_vertical(self.height - bh)
    }

    /// Splits into a left and a right part; see [`split_horizontal_spec`].
    pub fn split_horizontal(self, left_width: u16) -> (r: (Rect, Rect))
        requires
            self.well_formed(),
        ensures
            r == split_horizontal_spec(self, left_width),
            r.0.well_formed() && r.1.well_formed(),
            self.contains(r.0) && self.contains(r.1),
            r.0.disjoint(r.1),
    {
        let lw = if left_width <= self.width {
            left_width
        } else {
            self.width
        };
        let left = Rect { x: self.x, y: self.y, width: lw, height: self.height };
        let right = Rect {
            x: self.x + lw,
            y: self.y,
            width: self.width - lw,
            height: self.height,
        };
        (left, right)
    }
}

/// `r` shrunk by `horizontal` columns on the left and right and `vertical`
/// rows at the top and bottom; empty when the margins take all of it.
pub open spec fn inner_spec(r: Rect, horizontal: u16, vertical: u16) -> Rect {
    if r.width <= 2 * horizontal || r.height <= 2 * vertical {
        Rect { x: r.x, y: r.y, width: 0, height: 0 }
    } else {
        Rect {
            x: (r.x + horizontal) as u16,
            y: (r.y + vertical) as u16,
            width: (r.width - 2 * horizontal) as u16,
            height: (r.height - 2 * vertical) as u16,
        }
    }
}

/// `r` cut into a top part of `top_height` rows (all of `r` if fewer are
/// available) and the remaining bottom part.
pub open spec fn split_vertical_spec(r: Rect, top_height: u16) -> (Rect, Rect) {
    let th = if top_height <= r.height {
        top_height
    } else {
        r.height
    };
    (
        Rect { x: r.x, y: r.y, width: r.width, height: th },
        Rect {
            x: r.x,
            y: (r.y + th) as u16,
            width: r.width,
            height: (r.height - th) as u16,
        },
    )
}

/// `r` cut so that the bottom part gets `bottom_height` rows.
pub open spec fn split_vertical_end_spec(r: Rect, bottom_height: u16) -> (Rect, Rect) {
    let bh = if bottom_height <= r.height {
        bottom_height
    } else {
        r.height
    };
    split_vertical_spec(r, (r.height - bh) as u16)
}

/// `r` cut into a left part of `left_width` columns (all of `r` if fewer are
/// available) and the remaining right part.
pub open spec fn split_horizontal_spec(r: Rect, left_width: u16) -> (Rect, Rect) {
    let lw = if left_width <= r.width {
        left_width
    } else {
        r.width
    };
    (
        Rect { x: r.x, y: r.y, width: lw, height: r.height },
        Rect {
            x: (r.x + lw) as u16,
            y: r.y,
            width: (r.width - lw) as u16,
            height: r.height,
        },
    )
}

/// Law: rectangles that are disjoint share no cell.
pub proof fn lemma_disjoint_no_common_cell(a: Rect, b: Rect, px: int, py: int)
    requires
        a.disjoint(b),
    ensures
        !(a.covers(px, py) && b.covers(px, py)),
{
}

} // verus!

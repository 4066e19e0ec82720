//! Rectangular screen regions and the splits the panel layout is built from.
//!
//! A region is measured in terminal cells. Splitting a region in half gives
//! the odd cell, when there is one, to the first part.

use vstd::prelude::*;

verus! {

/// A rectangular region of the screen: its top-left corner, width and height,
/// all in terminal cells.
#[derive(Clone, Copy, PartialEq, Eq, Structural, Debug)]
pub struct Rect {
    /// Column of the left edge.
    pub x: u16,
    /// Row of the top edge.
    pub y: u16,
    /// Number of columns.
    pub width: u16,
    /// Number of rows.
    pub height: u16,
}

impl Rect {
    /// The region lies wholly on the screen's coordinate grid: its right and
    /// bottom edges still fit in a `u16`.
    pub open spec fn wf(self) -> bool {
        self.x + self.width <= u16::MAX && self.y + self.height <= u16::MAX
    }

    /// The two halves of a horizontal split: the left part takes the first
    /// `width - width / 2` columns (so the odd column, if any), the right part
    /// the remaining `width / 2`.
    pub open spec fn spec_split_horizontal(self) -> (Rect, Rect) {
        (
            Rect {
                x: self.x,
                y: self.y,
                width: (self.width - self.width / 2) as u16,
                height: self.height,
            },
            Rect {
                x: (self.x + self.width - self.width / 2) as u16,
                y: self.y,
                width: (self.width / 2) as u16,
                height: self.height,
            },
        )
    }

    /// The two halves of a vertical split: the top part takes the first
    /// `height - height / 2` rows (so the odd row, if any), the bottom part
    /// the remaining `height / 2`.
    pub open spec fn spec_split_vertical(self) -> (Rect, Rect) {
        (
            Rect {
                x: self.x,
                y: self.y,
                width: self.width,
                height: (self.height - self.height / 2) as u16,
            },
            Rect {
                x: self.x,
                y: (self.y + self.height - self.height / 2) as u16,
                width: self.width,
                height: (self.height / 2) as u16,
            },
        )
    }

    /// Makes a region from its corner and size.
    pub fn new(x: u16, y: u16, width: u16, height: u16) -> (r: Rect)
        requires
            x + width <= u16::MAX,
            y + height <= u16::MAX,
        ensures
            r == (Rect { x, y, width, height }),
            r.wf(),
    {
        Rect { x, y, width, height }
    }

    /// Splits the region into a left and a right half. The two parts tile the
    /// region, and when the width is odd the left part is one column wider.
    pub fn split_horizontal(self) -> (r: (Rect, Rect))
        requires
            self.wf(),
        ensures
            r == self.spec_split_horizontal(),
            r.0.wf(),
            r.1.wf(),
            r.0.width + r.1.width == self.width,
            r.1.x == r.0.x + r.0.width,
            r.0.width - r.1.width <= 1,
    {
        let left_width: u16 = self.width - self.width / 2;
        (
            Rect { x: self.x, y: self.y, width: left_width, height: self.height },
            Rect {
                x: self.x + left_width,
                y: self.y,
                width: self.width / 2,
                height: self.height,
            },
        )
    }

    /// Splits the region into a top and a bottom half. The two parts tile the
    /// region, and when the height is odd the top part is one row taller.
    pub fn split_vertical(self) -> (r: (Rect, Rect))
        requires
            self.wf(),
        ensures
            r == self.spec_split_vertical(),
            r.0.wf(),
            r.1.wf(),
            r.0.height + r.1.height == self.height,
            r.1.y == r.0.y + r.0.height,
            r.0.height - r.1.height <= 1,
    {
        let top_height: u16 = self.height - self.height / 2;
        (
            Rect { x: self.x, y: self.y, width: self.width, height: top_height },
            Rect {
                x: self.x,
                y: self.y + top_height,
                width: self.width,
                height: self.height / 2,
            },
        )
    }

    /// Caps the region's size at `max_width` by `max_height`, keeping its
    /// top-left corner.
    pub fn clamp_size(self, max_width: u16, max_height: u16) -> (r: Rect)
        ensures
            r.x == self.x,
            r.y == self.y,
            r.width == if self.width < max_width { self.width } else { max_width },
            r.height == if self.height < max_height { self.height } else { max_height },
            self.wf() ==> r.wf(),
    {
        Rect {
            x: self.x,
            y: self.y,
            width: if self.width < max_width { self.width } else { max_width },
            height: if self.height < max_height { self.height } else { max_height },
        }
    }
}

} // verus!

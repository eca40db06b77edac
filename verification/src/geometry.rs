//! Plain geometry carried between the host toolkit and the verified
//! core: sizes and positions on the logical-pixel grid. Positions may
//! be negative (content shifted above or left of the viewport), so
//! they are signed; sizes are not.

use vstd::prelude::*;

verus! {

/// A width/height pair, as reported for the window or a widget.
#[derive(Clone, Copy, Debug, PartialEq, Eq, Structural)]
pub struct Size {
    pub width: u32,
    pub height: u32,
}

/// A position, or a translation vector, on the logical-pixel grid.
#[derive(Clone, Copy, Debug, PartialEq, Eq, Structural)]
pub struct Point {
    pub x: i64,
    pub y: i64,
}

/// The box a widget is laid out in: the toolkit's layout constraints.
#[derive(Clone, Copy, Debug, PartialEq, Eq, Structural)]
pub struct Limits {
    pub max_width: u32,
    pub max_height: u32,
}

/// One node of the computed layout tree: a position and the size laid
/// out there. Children keep positions relative to their parent, so
/// translating a node moves its whole subtree.
#[derive(Clone, Copy, Debug, PartialEq, Eq, Structural)]
pub struct LayoutNode {
    pub x: i64,
    pub y: i64,
    pub width: u32,
    pub height: u32,
}

/// Coordinates stay well inside `i64`, so that translating a node
/// cannot overflow.
pub open spec fn coord_in_range(v: int) -> bool {
    -0x4000_0000_0000_0000 < v < 0x4000_0000_0000_0000
}

impl LayoutNode {
    /// A node whose position and translation are in range.
    pub open spec fn wf(self) -> bool {
        coord_in_range(self.x as int) && coord_in_range(self.y as int)
    }

    /// The node moved by `v`: position shifts, size is untouched.
    pub open spec fn spec_translate(self, v: Point) -> LayoutNode {
        LayoutNode {
            x: (self.x + v.x) as i64,
            y: (self.y + v.y) as i64,
            width: self.width,
            height: self.height,
        }
    }

    /// Translate the node by `v`.
    pub fn translate(self, v: Point) -> (r: LayoutNode)
        requires
            self.wf(),
            coord_in_range(v.x as int),
            coord_in_range(v.y as int),
        ensures
            r == self.spec_translate(v),
            r.width == self.width,
            r.height == self.height,
            r.x == self.x + v.x,
            r.y == self.y + v.y,
    {
        LayoutNode { x: self.x + v.x, y: self.y + v.y, width: self.width, height: self.height }
    }
}

} // verus!

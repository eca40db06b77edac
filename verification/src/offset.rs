//! The translation decorator: a widget wrapper that shifts where its
//! child is laid out without touching anything else the widget
//! protocol asks of it. Sizing, size hints and identity tags delegate
//! verbatim; layout delegates and then translates the resulting node's
//! position, leaving its size and its children's relative positions
//! untouched. Drawing, event dispatch and hit-testing consume the
//! laid-out node, so they need no interception: the translated
//! rectangle already places them at the visual position.

use vstd::prelude::*;

use crate::geometry::LayoutNode;
use crate::geometry::Limits;
use crate::geometry::Point;
use crate::geometry::coord_in_range;

verus! {

/// A sizing strategy along one axis, as the widget protocol reports
/// it: fill the parent, shrink to content, or a fixed length in
/// logical pixels.
#[derive(Clone, Copy, Debug, PartialEq, Eq, Structural)]
pub enum Length {
    Fill,
    Shrink,
    Fixed(u32),
}

/// A widget's reported sizing strategy for both axes.
#[derive(Clone, Copy, Debug, PartialEq, Eq, Structural)]
pub struct WidgetSize {
    pub width: Length,
    pub height: Length,
}

/// The geometry-and-identity face of the widget protocol: what a
/// widget answers when the toolkit asks how it wants to be sized, how
/// it lays out under given limits, and which state key identifies it
/// across renders. Each operation's exec method answers exactly what
/// the matching spec function says, so wrappers can be proved
/// transparent.
pub trait WidgetOps: Sized {
    /// The widget's sizing strategy.
    spec fn spec_size(&self) -> WidgetSize;

    /// The sizing strategy reported before layout, for containers that
    /// pre-size their children.
    spec fn spec_size_hint(&self) -> WidgetSize;

    /// The identity tag the toolkit keys this widget's retained state
    /// (focus, animation progress) by when diffing trees.
    spec fn spec_tag(&self) -> u64;

    /// What this widget accepts as layout input.
    spec fn layout_ok(&self, limits: Limits) -> bool;

    /// The node this widget lays out under the given limits.
    spec fn spec_layout(&self, limits: Limits) -> LayoutNode;

    fn size(&self) -> (r: WidgetSize)
        ensures
            r == self.spec_size(),
    ;

    fn size_hint(&self) -> (r: WidgetSize)
        ensures
            r == self.spec_size_hint(),
    ;

    fn tag(&self) -> (r: u64)
        ensures
            r == self.spec_tag(),
    ;

    fn layout(&self, limits: &Limits) -> (r: LayoutNode)
        requires
            self.layout_ok(*limits),
        ensures
            r == self.spec_layout(*limits),
    ;
}

/// A leaf pane of fixed preferred size: content is laid out at the
/// parent's origin, clipped to the limits.
#[derive(Clone, Copy, Debug, PartialEq, Eq, Structural)]
pub struct Pane {
    pub width: u32,
    pub height: u32,
    pub tag: u64,
}

impl WidgetOps for Pane {
    open spec fn spec_size(&self) -> WidgetSize {
        WidgetSize { width: Length::Fixed(self.width), height: Length::Fixed(self.height) }
    }

    open spec fn spec_size_hint(&self) -> WidgetSize {
        self.spec_size()
    }

    open spec fn spec_tag(&self) -> u64 {
        self.tag
    }

    open spec fn layout_ok(&self, limits: Limits) -> bool {
        true
    }

    open spec fn spec_layout(&self, limits: Limits) -> LayoutNode {
        LayoutNode {
            x: 0,
            y: 0,
            width: if self.width <= limits.max_width {
                self.width
            } else {
                limits.max_width
            },
            height: if self.height <= limits.max_height {
                self.height
            } else {
                limits.max_height
            },
        }
    }

    fn size(&self) -> (r: WidgetSize) {
        WidgetSize { width: Length::Fixed(self.width), height: Length::Fixed(self.height) }
    }

    fn size_hint(&self) -> (r: WidgetSize) {
        self.size()
    }

    fn tag(&self) -> (r: u64) {
        self.tag
    }

    fn layout(&self, limits: &Limits) -> (r: LayoutNode) {
        let width: u32 = if self.width <= limits.max_width {
            self.width
        } else {
            limits.max_width
        };
        let height: u32 = if self.height <= limits.max_height {
            self.height
        } else {
            limits.max_height
        };
        LayoutNode { x: 0, y: 0, width: width, height: height }
    }
}

/// The decorator itself: one child widget and one translation vector.
/// It holds no state of its own, so the child's identity and retained
/// state survive re-renders unchanged.
pub struct Offset<C> {
    pub content: C,
    pub offset: Point,
}

impl<C: WidgetOps> Offset<C> {
    /// Wrap a child with no shift yet: the offset starts at the
    /// origin.
    pub fn new(content: C) -> (r: Offset<C>)
        ensures
            r.content == content,
            r.offset == (Point { x: 0, y: 0 }),
    {
        Offset { content: content, offset: Point { x: 0, y: 0 } }
    }

    /// Replace the translation vector, builder style.
    pub fn offset(self, offset: Point) -> (r: Offset<C>)
        ensures
            r.content == self.content,
            r.offset == offset,
    {
        Offset { content: self.content, offset: offset }
    }
}

impl<C: WidgetOps> WidgetOps for Offset<C> {
    open spec fn spec_size(&self) -> WidgetSize {
        self.content.spec_size()
    }

    open spec fn spec_size_hint(&self) -> WidgetSize {
        self.content.spec_size_hint()
    }

    open spec fn spec_tag(&self) -> u64 {
        self.content.spec_tag()
    }

    open spec fn layout_ok(&self, limits: Limits) -> bool {
        &&& self.content.layout_ok(limits)
        &&& self.content.spec_layout(limits).wf()
        &&& coord_in_range(self.offset.x as int)
        &&& coord_in_range(self.offset.y as int)
    }

    open spec fn spec_layout(&self, limits: Limits) -> LayoutNode {
        self.content.spec_layout(limits).spec_translate(self.offset)
    }

    fn size(&self) -> (r: WidgetSize) {
        self.content.size()
    }

    fn size_hint(&self) -> (r: WidgetSize) {
        self.content.size_hint()
    }

    fn tag(&self) -> (r: u64) {
        self.content.tag()
    }

    fn layout(&self, limits: &Limits) -> (r: LayoutNode) {
        self.content.layout(limits).translate(self.offset)
    }
}

/// Law: the decorator is invisible to sizing and identity — for any
/// child widget and any offset vector it reports the child's size,
/// size hint and state tag unchanged.
pub proof fn lemma_offset_transparent_size<C: WidgetOps>(w: Offset<C>)
    ensures
        w.spec_size() == w.content.spec_size(),
        w.spec_size_hint() == w.content.spec_size_hint(),
        w.spec_tag() == w.content.spec_tag(),
{
}

/// Law: layout under the decorator is the child's layout, moved. For
/// any child, offset and limits the decorator accepts, the laid-out
/// node keeps the child's size exactly and shifts its position by the
/// offset vector — translation never resizes.
pub proof fn lemma_offset_translates_layout<C: WidgetOps>(w: Offset<C>, limits: Limits)
    requires
        w.layout_ok(limits),
    ensures
        w.spec_layout(limits).width == w.content.spec_layout(limits).width,
        w.spec_layout(limits).height == w.content.spec_layout(limits).height,
        w.spec_layout(limits).x == w.content.spec_layout(limits).x + w.offset.x,
        w.spec_layout(limits).y == w.content.spec_layout(limits).y + w.offset.y,
{
}

} // verus!

//! Scroll directions and the layout bounds they give the child.
use vstd::prelude::*;

verus! {

/// The axes along which a scroll container lets its content move.
#[derive(Debug, Clone, Copy, PartialEq, Eq, Structural)]
pub enum ScrollDirection {
    /// Only along the X axis.
    Horizontal,
    /// Only along the Y axis.
    Vertical,
    /// Along both axes.
    All,
}

/// A limit along one axis: the given length, or none at all.
#[derive(Debug, Clone, Copy, PartialEq, Eq)]
pub enum Extent<L> {
    /// Limited to this length.
    Bounded(L),
    /// Not limited: the child may be as long as it likes.
    Unbounded,
}

/// The largest size a child may be given, axis by axis.
#[derive(Debug, Clone, Copy, PartialEq, Eq)]
pub struct MaxSize<L> {
    pub width: Extent<L>,
    pub height: Extent<L>,
}

impl ScrollDirection {
    /// Whether content may move along the X axis.
    pub open spec fn scrolls_x(self) -> bool {
        !(self is Vertical)
    }

    /// Whether content may move along the Y axis.
    pub open spec fn scrolls_y(self) -> bool {
        !(self is Horizontal)
    }

    /// The maximum size the container can give its child, for the largest
    /// width and height its own constraints allow. An axis along which the
    /// container scrolls is unbounded; the other keeps its constraint, so
    /// vertical scrolling is width limited and horizontal scrolling is
    /// height limited.
    pub fn max_size<L>(&self, max_width: L, max_height: L) -> (r: MaxSize<L>)
        ensures
            r.width == (if self.scrolls_x() { Extent::Unbounded } else { Extent::Bounded(max_width) }),
            r.height == (if self.scrolls_y() { Extent::Unbounded } else { Extent::Bounded(max_height) }),
    {
        match self {
            ScrollDirection::Horizontal => MaxSize { width: Extent::Unbounded, height: Extent::Bounded(max_height) },
            ScrollDirection::Vertical => MaxSize { width: Extent::Bounded(max_width), height: Extent::Unbounded },
            ScrollDirection::All => MaxSize { width: Extent::Unbounded, height: Extent::Unbounded },
        }
    }
}

} // verus!

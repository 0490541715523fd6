//! Sizes and rectangles in source pixel coordinates.

use vstd::prelude::*;

verus! {

/// Pixel dimensions of a composited frame, as the compositor reports them.
#[derive(Clone, Copy, Debug, PartialEq, Eq, Structural)]
pub struct ContentSize {
    pub width: i32,
    pub height: i32,
}

impl ContentSize {
    /// The size remembered before any frame has been seen.
    pub open spec fn spec_zero() -> ContentSize {
        ContentSize { width: 0, height: 0 }
    }

    /// The size remembered before any frame has been seen.
    #[verifier::when_used_as_spec(spec_zero)]
    pub fn zero() -> (size: ContentSize)
        ensures
            size == Self::spec_zero(),
    {
        ContentSize { width: 0, height: 0 }
    }

    /// Whether two sizes differ in width or in height.
    pub fn differs_from(&self, other: &ContentSize) -> (changed: bool)
        ensures
            changed == (*self != *other),
    {
        self.width != other.width || self.height != other.height
    }
}

/// The capture rectangle within the full surface of a source.
///
/// The left edge never lies right of the right edge, nor the top edge below
/// the bottom edge, so the extent of a region always fits its coordinate type.
#[derive(Clone, Copy, Debug, PartialEq, Eq, Structural)]
pub struct ClipRegion {
    left: u32,
    top: u32,
    right: u32,
    bottom: u32,
}

impl ClipRegion {
    #[verifier::type_invariant]
    pub closed spec fn ordered(&self) -> bool {
        self.left <= self.right && self.top <= self.bottom
    }

    pub closed spec fn spec_left(&self) -> u32 {
        self.left
    }

    pub closed spec fn spec_top(&self) -> u32 {
        self.top
    }

    pub closed spec fn spec_right(&self) -> u32 {
        self.right
    }

    pub closed spec fn spec_bottom(&self) -> u32 {
        self.bottom
    }

    /// Horizontal extent, `right - left`.
    pub open spec fn spec_width(&self) -> u32 {
        (self.right() - self.left()) as u32
    }

    /// Vertical extent, `bottom - top`.
    pub open spec fn spec_height(&self) -> u32 {
        (self.bottom() - self.top()) as u32
    }

    /// The edges of a region are in order, so its extent is the plain
    /// difference of its edges.
    pub proof fn lemma_ordered(self)
        requires
            self.ordered(),
        ensures
            self.left() <= self.right(),
            self.top() <= self.bottom(),
            self.width() == self.right() - self.left(),
            self.height() == self.bottom() - self.top(),
    {
    }

    /// Builds a region from its four edges; `None` when the edges are not
    /// ordered.
    pub fn new(left: u32, top: u32, right: u32, bottom: u32) -> (region: Option<ClipRegion>)
        ensures
            region is Some <==> left <= right && top <= bottom,
            (region matches Some(r) ==> {
                &&& r.ordered()
                &&& r.left() == left
                &&& r.top() == top
                &&& r.right() == right
                &&& r.bottom() == bottom
            }),
    {
        if left <= right && top <= bottom {
            Some(ClipRegion { left, top, right, bottom })
        } else {
            None
        }
    }

    #[verifier::when_used_as_spec(spec_left)]
    pub fn left(&self) -> (edge: u32)
        ensures
            edge == self.left(),
    {
        self.left
    }

    #[verifier::when_used_as_spec(spec_top)]
    pub fn top(&self) -> (edge: u32)
        ensures
            edge == self.top(),
    {
        self.top
    }

    #[verifier::when_used_as_spec(spec_right)]
    pub fn right(&self) -> (edge: u32)
        ensures
            edge == self.right(),
    {
        self.right
    }

    #[verifier::when_used_as_spec(spec_bottom)]
    pub fn bottom(&self) -> (edge: u32)
        ensures
            edge == self.bottom(),
    {
        self.bottom
    }

    /// Horizontal extent of the region.
    #[verifier::when_used_as_spec(spec_width)]
    pub fn width(&self) -> (extent: u32)
        ensures
            extent == self.width(),
            self.ordered(),
    {
        proof {
            use_type_invariant(self);
        }
        self.right - self.left
    }

    /// Vertical extent of the region.
    #[verifier::when_used_as_spec(spec_height)]
    pub fn height(&self) -> (extent: u32)
        ensures
            extent == self.height(),
            self.ordered(),
    {
        proof {
            use_type_invariant(self);
        }
        self.bottom - self.top
    }
}

} // verus!

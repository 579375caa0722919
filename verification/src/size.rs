//! Sizes in device pixels.

use vstd::prelude::*;
use vstd::std_specs::convert::FromSpecImpl;

verus! {

/// `value`, or 1 where `value` is 0.
pub open spec fn at_least_one(value: u32) -> u32 {
    if value == 0 {
        1
    } else {
        value
    }
}

/// Clamps one dimension to a minimum of 1.
pub fn clamp_dimension(value: u32) -> (r: u32)
    ensures
        r == at_least_one(value),
        r >= 1,
{
    if value == 0 {
        1
    } else {
        value
    }
}

/// The size of a view in device pixels.
///
/// A size taken from the host may have a zero dimension (a minimised
/// window); a size that is handed to the backend never has one.
#[derive(Clone, Copy, Debug, PartialEq, Eq, Structural)]
pub struct ViewSize {
    pub width: u32,
    pub height: u32,
}

impl ViewSize {
    /// Whether the size has a non-zero area.
    pub open spec fn has_area(self) -> bool {
        self.width >= 1 && self.height >= 1
    }

    /// The size with each dimension clamped to a minimum of 1.
    pub open spec fn clamped_spec(width: u32, height: u32) -> ViewSize {
        ViewSize { width: at_least_one(width), height: at_least_one(height) }
    }

    /// Builds the size for a requested width and height, each clamped to a
    /// minimum of 1.
    pub fn clamped(width: u32, height: u32) -> (r: ViewSize)
        ensures
            r == Self::clamped_spec(width, height),
            r.has_area(),
    {
        ViewSize { width: clamp_dimension(width), height: clamp_dimension(height) }
    }
}

/// A width and a height of any one type.
#[derive(Clone, Copy, Debug)]
pub struct Size<T> {
    pub width: T,
    pub height: T,
}

impl From<[u32; 2]> for Size<u32> {
    fn from(vs: [u32; 2]) -> (r: Size<u32>) {
        Size { width: vs[0], height: vs[1] }
    }
}

impl FromSpecImpl<[u32; 2]> for Size<u32> {
    open spec fn obeys_from_spec() -> bool {
        true
    }

    open spec fn from_spec(vs: [u32; 2]) -> Size<u32> {
        Size { width: vs[0], height: vs[1] }
    }
}

impl From<Size<u32>> for [u32; 2] {
    fn from(s: Size<u32>) -> (r: [u32; 2]) {
        [s.width, s.height]
    }
}

impl FromSpecImpl<Size<u32>> for [u32; 2] {
    open spec fn obeys_from_spec() -> bool {
        true
    }

    open spec fn from_spec(s: Size<u32>) -> [u32; 2] {
        [s.width, s.height]
    }
}

impl From<(u32, u32)> for Size<u32> {
    fn from(data: (u32, u32)) -> (r: Size<u32>) {
        Size { width: data.0, height: data.1 }
    }
}

impl FromSpecImpl<(u32, u32)> for Size<u32> {
    open spec fn obeys_from_spec() -> bool {
        true
    }

    open spec fn from_spec(data: (u32, u32)) -> Size<u32> {
        Size { width: data.0, height: data.1 }
    }
}

impl From<Size<u32>> for (u32, u32) {
    fn from(s: Size<u32>) -> (r: (u32, u32)) {
        (s.width, s.height)
    }
}

impl FromSpecImpl<Size<u32>> for (u32, u32) {
    open spec fn obeys_from_spec() -> bool {
        true
    }

    open spec fn from_spec(s: Size<u32>) -> (u32, u32) {
        (s.width, s.height)
    }
}

impl From<ViewSize> for Size<u32> {
    fn from(size: ViewSize) -> (r: Size<u32>) {
        Size { width: size.width, height: size.height }
    }
}

impl FromSpecImpl<ViewSize> for Size<u32> {
    open spec fn obeys_from_spec() -> bool {
        true
    }

    open spec fn from_spec(size: ViewSize) -> Size<u32> {
        Size { width: size.width, height: size.height }
    }
}

} // verus!

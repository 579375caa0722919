//! What a touch reports besides its position.

use vstd::prelude::*;

verus! {

/// The angle of a stylus over the view.
#[derive(Clone, Copy, Debug)]
pub struct StylusAngle<T> {
    pub azimuth: T,
    pub altitude: T,
}

/// The stage of a touch.
#[derive(Clone, Copy, Debug, PartialEq, Eq, Hash, Structural)]
pub enum TouchPhase {
    Started,
    /// The touch moved, or a pinch changed.
    Moved,
    Ended,
    Cancelled,
}

} // verus!

//! What the host drives a view with.

use vstd::prelude::*;

verus! {

/// A view that the host resizes and asks for frames. How a view renders is
/// its own matter; nothing is promised of either call.
pub trait SurfaceView {
    /// Called after the size or the orientation of the view has changed.
    fn resize(&mut self) {
    }

    /// Called once for every frame.
    fn enter_frame(&mut self);
}

} // verus!

//! The failures that end a negotiation or a frame.
//!
//! All of them are fatal: the host cannot run the surface, or the device or
//! the surface is lost for good. The one recoverable condition, a single
//! stale surface when a frame is acquired, never surfaces as an error.

use vstd::prelude::*;
use vstd::string::StringExecFns;

verus! {

/// The step of the setup or of a frame at which a failure occurred.
#[derive(Clone, Copy, Debug, PartialEq, Eq, Hash, Structural)]
pub enum Stage {
    AdapterSelection,
    DeviceCreation,
    SurfaceConfiguration,
    FrameAcquisition,
}

impl Stage {
    /// The name of the stage as it appears in diagnostics.
    pub open spec fn name_spec(self) -> Seq<char> {
        match self {
            Stage::AdapterSelection => "adapter selection"@,
            Stage::DeviceCreation => "device creation"@,
            Stage::SurfaceConfiguration => "surface configuration"@,
            Stage::FrameAcquisition => "frame acquisition"@,
        }
    }

    /// The name of the stage as it appears in diagnostics.
    pub fn name(&self) -> (r: &'static str)
        ensures
            r@ == self.name_spec(),
    {
        match self {
            Stage::AdapterSelection => "adapter selection",
            Stage::DeviceCreation => "device creation",
            Stage::SurfaceConfiguration => "surface configuration",
            Stage::FrameAcquisition => "frame acquisition",
        }
    }
}

/// A fatal failure of the surface layer.
#[derive(Clone, Copy, Debug, PartialEq, Eq, Hash, Structural)]
pub enum SurfaceError {
    /// No adapter is compatible with the surface.
    NoCompatibleAdapter,
    /// The adapter rejected the device request.
    DeviceRequestRejected,
    /// The adapter reports no usable configuration for the surface.
    SurfaceUnsupported,
    /// The surface failed to provide a frame twice in a row.
    FrameAcquisitionFailed,
}

impl SurfaceError {
    /// The stage at which the failure occurred.
    pub open spec fn stage_spec(self) -> Stage {
        match self {
            SurfaceError::NoCompatibleAdapter => Stage::AdapterSelection,
            SurfaceError::DeviceRequestRejected => Stage::DeviceCreation,
            SurfaceError::SurfaceUnsupported => Stage::SurfaceConfiguration,
            SurfaceError::FrameAcquisitionFailed => Stage::FrameAcquisition,
        }
    }

    /// What went wrong, without the stage.
    pub open spec fn detail_spec(self) -> Seq<char> {
        match self {
            SurfaceError::NoCompatibleAdapter => "no suitable GPU adapter was found on the system"@,
            SurfaceError::DeviceRequestRejected => "the adapter rejected the device request"@,
            SurfaceError::SurfaceUnsupported => "the surface is not supported by the adapter"@,
            SurfaceError::FrameAcquisitionFailed => "failed to acquire the next surface texture"@,
        }
    }

    /// The diagnostic: the stage's name, a colon and a space, then the detail.
    pub open spec fn message_spec(self) -> Seq<char> {
        self.stage_spec().name_spec() + ": "@ + self.detail_spec()
    }

    /// The stage at which the failure occurred.
    pub fn stage(&self) -> (r: Stage)
        ensures
            r == self.stage_spec(),
    {
        match self {
            SurfaceError::NoCompatibleAdapter => Stage::AdapterSelection,
            SurfaceError::DeviceRequestRejected => Stage::DeviceCreation,
            SurfaceError::SurfaceUnsupported => Stage::SurfaceConfiguration,
            SurfaceError::FrameAcquisitionFailed => Stage::FrameAcquisition,
        }
    }

    /// What went wrong, without the stage.
    pub fn detail(&self) -> (r: &'static str)
        ensures
            r@ == self.detail_spec(),
    {
        match self {
            SurfaceError::NoCompatibleAdapter => "no suitable GPU adapter was found on the system",
            SurfaceError::DeviceRequestRejected => "the adapter rejected the device request",
            SurfaceError::SurfaceUnsupported => "the surface is not supported by the adapter",
            SurfaceError::FrameAcquisitionFailed => "failed to acquire the next surface texture",
        }
    }

    /// The diagnostic shown to the user; it begins with the failing stage.
    pub fn message(&self) -> (r: String)
        ensures
            r@ == self.message_spec(),
    {
        let mut text = String::from_str(self.stage().name());
        text.append(": ");
        text.append(self.detail());
        text
    }
}

} // verus!

//! Negotiation and lifecycle of a presentation surface.
//!
//! Given what a graphics adapter reports for a window or canvas, the crate
//! picks the surface configuration (pixel format, alpha compositing mode,
//! auxiliary view formats, presentation mode, size) and keeps it valid across
//! resizes and transient failures to acquire a frame. Every decision is a
//! function with a contract; talking to the GPU and to the window system is
//! left to the caller, which performs the actions these functions hand out.

pub mod config;
pub mod device;
pub mod error;
pub mod event_loop;
pub mod format;
pub mod fs;
pub mod laws;
pub mod lifecycle;
pub mod platform;
pub mod size;
pub mod surface_view;
pub mod texture;
pub mod touch;

pub use crate::config::{
    negotiate, AdapterCapabilities, AlphaMode, PresentMode, SurfaceConfig,
};
pub use crate::device::{
    AdapterReport, AdapterRequest, DeviceNegotiation, DeviceRequest, FeatureSet, PowerPreference,
};
pub use crate::error::{Stage, SurfaceError};
pub use crate::fs::{get_texture_file_path, FileSystem};
pub use crate::lifecycle::{AcquireFailure, AcquireOutcome, FrameStep, Phase, SurfaceLifecycle};
pub use crate::platform::{BackendFamily, Platform};
pub use crate::size::{Size, ViewSize};
pub use crate::surface_view::SurfaceView;
pub use crate::touch::{StylusAngle, TouchPhase};

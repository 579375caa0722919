//! Host platforms and what each of them pins down.
//!
//! Everything that differs between hosts is looked up in one table, keyed by
//! the platform's identity, so that the negotiation itself is the same
//! function everywhere.

use vstd::prelude::*;

verus! {

/// The host environment a surface lives in.
#[derive(Clone, Copy, Debug, PartialEq, Eq, Hash, Structural)]
pub enum Platform {
    /// A desktop window on a Unix-like system (Linux, macOS).
    DesktopUnix,
    /// A desktop window on Windows.
    DesktopWindows,
    /// A compositor layer on iOS.
    Ios,
    /// A native window handle on Android.
    Android,
    /// A canvas or offscreen canvas in a browser, driven through WebGPU.
    BrowserWebGpu,
    /// A canvas in a browser, driven through WebGL.
    BrowserWebGl,
}

/// The family of graphics backends an instance is created for.
#[derive(Clone, Copy, Debug, PartialEq, Eq, Hash, Structural)]
pub enum BackendFamily {
    /// The first-class native backends of the host (Vulkan, Metal, DX12).
    Primary,
    /// Metal only.
    Metal,
    /// Vulkan only.
    Vulkan,
    /// The browser's WebGPU implementation.
    BrowserWebGpu,
    /// OpenGL ES / WebGL.
    Gl,
}

/// One row of the platform table.
#[derive(Clone, Copy, Debug, PartialEq, Eq, Structural)]
pub struct PlatformProfile {
    /// The backend family the platform pins.
    pub backend: BackendFamily,
    /// Whether the presentation layer accepts a format that carries the sRGB tag.
    pub accepts_srgb_surface: bool,
    /// Whether auxiliary view formats can be declared on a surface.
    pub supports_view_formats: bool,
    /// Whether the host is a Unix-like system.
    pub unix_family: bool,
    /// Whether the host is a mobile operating system.
    pub mobile: bool,
}

impl Platform {
    /// The row of the platform table for `self`.
    pub open spec fn profile_spec(self) -> PlatformProfile {
        match self {
            Platform::DesktopUnix => PlatformProfile {
                backend: BackendFamily::Primary,
                accepts_srgb_surface: true,
                supports_view_formats: true,
                unix_family: true,
                mobile: false,
            },
            Platform::DesktopWindows => PlatformProfile {
                backend: BackendFamily::Primary,
                accepts_srgb_surface: true,
                supports_view_formats: true,
                unix_family: false,
                mobile: false,
            },
            Platform::Ios => PlatformProfile {
                backend: BackendFamily::Metal,
                accepts_srgb_surface: true,
                supports_view_formats: true,
                unix_family: true,
                mobile: true,
            },
            Platform::Android => PlatformProfile {
                backend: BackendFamily::Vulkan,
                accepts_srgb_surface: true,
                supports_view_formats: false,
                unix_family: true,
                mobile: true,
            },
            Platform::BrowserWebGpu => PlatformProfile {
                backend: BackendFamily::BrowserWebGpu,
                accepts_srgb_surface: false,
                supports_view_formats: true,
                unix_family: false,
                mobile: false,
            },
            Platform::BrowserWebGl => PlatformProfile {
                backend: BackendFamily::Gl,
                accepts_srgb_surface: true,
                supports_view_formats: false,
                unix_family: false,
                mobile: false,
            },
        }
    }

    /// Looks `self` up in the platform table.
    pub fn profile(self) -> (r: PlatformProfile)
        ensures
            r == self.profile_spec(),
    {
        match self {
            Platform::DesktopUnix => PlatformProfile {
                backend: BackendFamily::Primary,
                accepts_srgb_surface: true,
                supports_view_formats: true,
                unix_family: true,
                mobile: false,
            },
            Platform::DesktopWindows => PlatformProfile {
                backend: BackendFamily::Primary,
                accepts_srgb_surface: true,
                supports_view_formats: true,
                unix_family: false,
                mobile: false,
            },
            Platform::Ios => PlatformProfile {
                backend: BackendFamily::Metal,
                accepts_srgb_surface: true,
                supports_view_formats: true,
                unix_family: true,
                mobile: true,
            },
            Platform::Android => PlatformProfile {
                backend: BackendFamily::Vulkan,
                accepts_srgb_surface: true,
                supports_view_formats: false,
                unix_family: true,
                mobile: true,
            },
            Platform::BrowserWebGpu => PlatformProfile {
                backend: BackendFamily::BrowserWebGpu,
                accepts_srgb_surface: false,
                supports_view_formats: true,
                unix_family: false,
                mobile: false,
            },
            Platform::BrowserWebGl => PlatformProfile {
                backend: BackendFamily::Gl,
                accepts_srgb_surface: true,
                supports_view_formats: false,
                unix_family: false,
                mobile: false,
            },
        }
    }

    /// The backend family that instances on `self` are created for.
    pub fn backend_family(self) -> (r: BackendFamily)
        ensures
            r == self.profile_spec().backend,
    {
        self.profile().backend
    }
}

} // verus!

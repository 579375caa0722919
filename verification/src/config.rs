//! The surface configuration and how it is negotiated.
//!
//! `negotiate` is a function of the adapter's report, the platform and the
//! requested size alone. Which format, alpha mode and view formats it picks is
//! stated by the spec functions of this module; the executable functions are
//! proved to compute exactly those.

use vstd::prelude::*;
use crate::error::SurfaceError;
use crate::format::{
    copy_formats, has_format, is_srgb_format, linear_form, same_formats, same_storage, srgb_form,
};
use crate::platform::Platform;
use crate::size::{at_least_one, clamp_dimension};

verus! {

/// How the alpha channel of a presented frame is composited by the host.
#[derive(Clone, Copy, Debug, PartialEq, Eq, Hash, Structural)]
pub enum AlphaMode {
    Auto,
    Opaque,
    PreMultiplied,
    PostMultiplied,
    Inherit,
}

/// When a finished frame is shown.
#[derive(Clone, Copy, Debug, PartialEq, Eq, Hash, Structural)]
pub enum PresentMode {
    AutoVsync,
    AutoNoVsync,
    Fifo,
    FifoRelaxed,
    Immediate,
    Mailbox,
}

/// The number of frames the presentation layer may buffer, unless told otherwise.
pub const DEFAULT_FRAME_LATENCY: u32 = 2;

/// What an adapter reports for a surface, in the adapter's order of priority.
#[derive(Clone, Debug, PartialEq, Eq)]
pub struct AdapterCapabilities {
    pub formats: Vec<wgpu::TextureFormat>,
    pub alpha_modes: Vec<AlphaMode>,
}

/// The mathematical content of an `AdapterCapabilities`.
pub struct CapabilitiesModel {
    pub formats: Seq<wgpu::TextureFormat>,
    pub alpha_modes: Seq<AlphaMode>,
}

impl CapabilitiesModel {
    /// Whether the report allows any configuration at all.
    pub open spec fn usable(self) -> bool {
        self.formats.len() > 0 && self.alpha_modes.len() > 0
    }
}

impl View for AdapterCapabilities {
    type V = CapabilitiesModel;

    open spec fn view(&self) -> CapabilitiesModel {
        CapabilitiesModel { formats: self.formats@, alpha_modes: self.alpha_modes@ }
    }
}

/// The configuration of a live surface.
#[derive(Clone, Debug, PartialEq, Eq)]
pub struct SurfaceConfig {
    pub format: wgpu::TextureFormat,
    pub width: u32,
    pub height: u32,
    pub alpha_mode: AlphaMode,
    pub view_formats: Vec<wgpu::TextureFormat>,
    pub present_mode: PresentMode,
    pub max_frame_latency: u32,
}

/// The mathematical content of a `SurfaceConfig`.
pub struct ConfigModel {
    pub format: wgpu::TextureFormat,
    pub width: u32,
    pub height: u32,
    pub alpha_mode: AlphaMode,
    pub view_formats: Seq<wgpu::TextureFormat>,
    pub present_mode: PresentMode,
    pub max_frame_latency: u32,
}

impl View for SurfaceConfig {
    type V = ConfigModel;

    open spec fn view(&self) -> ConfigModel {
        ConfigModel {
            format: self.format,
            width: self.width,
            height: self.height,
            alpha_mode: self.alpha_mode,
            view_formats: self.view_formats@,
            present_mode: self.present_mode,
            max_frame_latency: self.max_frame_latency,
        }
    }
}

/// The view formats that are declared for a surface of `format` on `platform`:
/// none where the platform cannot declare any; the format alone where it
/// already carries the sRGB tag; else its sRGB and its linear form.
pub open spec fn view_formats_for(format: wgpu::TextureFormat, platform: Platform) -> Seq<
    wgpu::TextureFormat,
> {
    if !platform.profile_spec().supports_view_formats {
        Seq::empty()
    } else if is_srgb_format(format) {
        seq![format]
    } else {
        seq![srgb_form(format), linear_form(format)]
    }
}

/// The format a surface is presented in, given the adapter's first choice:
/// that choice, without the sRGB tag where the platform cannot present one.
pub open spec fn presentation_format(preferred: wgpu::TextureFormat, platform: Platform)
    -> wgpu::TextureFormat {
    if platform.profile_spec().accepts_srgb_surface {
        preferred
    } else {
        linear_form(preferred)
    }
}

/// The alpha mode picked from a report: pre-multiplied, else post-multiplied,
/// else inherit, else whatever is reported first.
pub open spec fn preferred_alpha_mode(modes: Seq<AlphaMode>) -> AlphaMode
    recommends
        modes.len() > 0,
{
    if modes.contains(AlphaMode::PreMultiplied) {
        AlphaMode::PreMultiplied
    } else if modes.contains(AlphaMode::PostMultiplied) {
        AlphaMode::PostMultiplied
    } else if modes.contains(AlphaMode::Inherit) {
        AlphaMode::Inherit
    } else {
        modes[0]
    }
}

/// The configuration that a usable report, a platform and a requested size lead to.
pub open spec fn negotiated(caps: CapabilitiesModel, platform: Platform, size: (u32, u32))
    -> ConfigModel
    recommends
        caps.usable(),
{
    let format = presentation_format(caps.formats[0], platform);
    ConfigModel {
        format,
        width: at_least_one(size.0),
        height: at_least_one(size.1),
        alpha_mode: preferred_alpha_mode(caps.alpha_modes),
        view_formats: view_formats_for(format, platform),
        present_mode: PresentMode::Fifo,
        max_frame_latency: DEFAULT_FRAME_LATENCY,
    }
}

impl ConfigModel {
    /// Whether the configuration covers a non-zero area.
    pub open spec fn has_area(self) -> bool {
        self.width >= 1 && self.height >= 1
    }

    /// Whether every view format is the configured format up to the
    /// colour-space tag.
    pub open spec fn view_formats_compatible(self) -> bool {
        forall|i: int|
            0 <= i < self.view_formats.len() ==> same_storage(
                #[trigger] self.view_formats[i],
                self.format,
            )
    }

    /// Whether the configuration may be applied on `platform`: it has an area,
    /// and its view formats are those the platform rules give for its format,
    /// each of them the configured format up to the colour-space tag.
    pub open spec fn valid_on(self, platform: Platform) -> bool {
        &&& self.has_area()
        &&& self.view_formats == view_formats_for(self.format, platform)
        &&& self.view_formats_compatible()
    }

    /// The configuration after a resize: the size changes, each dimension
    /// clamped to a minimum of 1, and nothing else does.
    pub open spec fn resized(self, size: (u32, u32)) -> ConfigModel {
        ConfigModel { width: at_least_one(size.0), height: at_least_one(size.1), ..self }
    }

    /// The configuration after a change of format on `platform`: the format
    /// and the view formats that follow from it change, and nothing else does.
    pub open spec fn with_format(self, format: wgpu::TextureFormat, platform: Platform)
        -> ConfigModel {
        ConfigModel { format, view_formats: view_formats_for(format, platform), ..self }
    }
}

impl SurfaceConfig {
    /// A configuration with the same content.
    pub fn duplicate(&self) -> (r: SurfaceConfig)
        ensures
            r@ == self@,
    {
        SurfaceConfig {
            format: self.format,
            width: self.width,
            height: self.height,
            alpha_mode: self.alpha_mode,
            view_formats: copy_formats(&self.view_formats),
            present_mode: self.present_mode,
            max_frame_latency: self.max_frame_latency,
        }
    }

    /// Whether the configuration may be applied on `platform`.
    pub fn is_valid_on(&self, platform: Platform) -> (r: bool)
        ensures
            r == self@.valid_on(platform),
    {
        let expected = view_formats(self.format, platform);
        self.width >= 1 && self.height >= 1 && same_formats(&self.view_formats, &expected)
    }

    /// Whether `format` is one of the declared view formats.
    pub fn has_view_format(&self, format: wgpu::TextureFormat) -> (r: bool)
        ensures
            r == self@.view_formats.contains(format),
    {
        has_format(&self.view_formats, format)
    }
}

impl AdapterCapabilities {
    /// Whether the report allows any configuration at all.
    pub fn is_usable(&self) -> (r: bool)
        ensures
            r == self@.usable(),
    {
        self.formats.len() > 0 && self.alpha_modes.len() > 0
    }

    /// Whether the adapter reports `format` for the surface.
    pub fn supports_format(&self, format: wgpu::TextureFormat) -> (r: bool)
        ensures
            r == self@.formats.contains(format),
    {
        has_format(&self.formats, format)
    }

    /// Whether the adapter reports `mode` for the surface.
    pub fn supports_alpha_mode(&self, mode: AlphaMode) -> (r: bool)
        ensures
            r == self@.alpha_modes.contains(mode),
    {
        has_alpha_mode(&self.alpha_modes, mode)
    }
}

/// Whether `modes` holds `mode`.
pub fn has_alpha_mode(modes: &Vec<AlphaMode>, mode: AlphaMode) -> (r: bool)
    ensures
        r == modes@.contains(mode),
{
    let mut i: usize = 0;
    while i < modes.len()
        invariant
            i <= modes.len(),
            forall|j: int| 0 <= j < i ==> modes@[j] != mode,
        decreases modes.len() - i,
    {
        if modes[i] == mode {
            return true;
        }
        i += 1;
    }
    false
}

/// Picks the alpha mode from the reported ones, in the fixed order of
/// preference. The result is always one of the reported modes.
pub fn select_alpha_mode(modes: &Vec<AlphaMode>) -> (r: Option<AlphaMode>)
    ensures
        modes@.len() == 0 <==> r is None,
        r matches Some(mode) ==> mode == preferred_alpha_mode(modes@) && modes@.contains(mode),
{
    if modes.len() == 0 {
        None
    } else if has_alpha_mode(modes, AlphaMode::PreMultiplied) {
        Some(AlphaMode::PreMultiplied)
    } else if has_alpha_mode(modes, AlphaMode::PostMultiplied) {
        Some(AlphaMode::PostMultiplied)
    } else if has_alpha_mode(modes, AlphaMode::Inherit) {
        Some(AlphaMode::Inherit)
    } else {
        Some(modes[0])
    }
}

/// Picks the presentation format for the adapter's first choice.
pub fn select_format(preferred: wgpu::TextureFormat, platform: Platform) -> (r: wgpu::TextureFormat)
    ensures
        r == presentation_format(preferred, platform),
{
    if platform.profile().accepts_srgb_surface {
        preferred
    } else {
        preferred.remove_srgb_suffix()
    }
}

/// Builds the list of view formats for a surface of `format` on `platform`.
/// Every entry has the same storage as `format`.
pub fn view_formats(format: wgpu::TextureFormat, platform: Platform) -> (r: Vec<wgpu::TextureFormat>)
    ensures
        r@ == view_formats_for(format, platform),
        forall|i: int| 0 <= i < r@.len() ==> same_storage(#[trigger] r@[i], format),
{
    let mut list: Vec<wgpu::TextureFormat> = Vec::new();
    if !platform.profile().supports_view_formats {
    } else if format.is_srgb() {
        list.push(format);
    } else {
        list.push(format.add_srgb_suffix());
        list.push(format.remove_srgb_suffix());
    }
    list
}

/// Negotiates the configuration of a surface.
///
/// Fails, with `SurfaceError::SurfaceUnsupported`, exactly when the adapter
/// reports no format or no alpha mode for the surface.
pub fn negotiate(caps: &AdapterCapabilities, platform: Platform, physical_size: (u32, u32)) -> (r:
    Result<SurfaceConfig, SurfaceError>)
    ensures
        caps@.usable() ==> r is Ok && r->Ok_0@ == negotiated(caps@, platform, physical_size),
        !caps@.usable() ==> r == Err::<SurfaceConfig, SurfaceError>(
            SurfaceError::SurfaceUnsupported,
        ),
        r matches Ok(config) ==> {
            &&& config@.valid_on(platform)
            &&& caps@.alpha_modes.contains(config@.alpha_mode)
            &&& platform.profile_spec().accepts_srgb_surface || caps@.formats.contains(
                linear_form(caps@.formats[0]),
            ) ==> caps@.formats.contains(config@.format)
        },
{
    if caps.formats.len() == 0 {
        return Err(SurfaceError::SurfaceUnsupported);
    }
    let alpha_mode = match select_alpha_mode(&caps.alpha_modes) {
        Some(mode) => mode,
        None => {
            return Err(SurfaceError::SurfaceUnsupported);
        },
    };
    let format = select_format(caps.formats[0], platform);
    let config = SurfaceConfig {
        format,
        width: clamp_dimension(physical_size.0),
        height: clamp_dimension(physical_size.1),
        alpha_mode,
        view_formats: view_formats(format, platform),
        present_mode: PresentMode::Fifo,
        max_frame_latency: DEFAULT_FRAME_LATENCY,
    };
    Ok(config)
}

} // verus!

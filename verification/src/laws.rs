//! What holds of every negotiation and of every state of a surface.
//!
//! Each law is stated over the models that the contracts of `config` and
//! `lifecycle` speak of, and proved from their definitions.

use vstd::prelude::*;
use crate::config::{negotiated, AlphaMode, CapabilitiesModel, ConfigModel};
use crate::format::linear_form;
use crate::error::SurfaceError;
use crate::lifecycle::{AcquireFailure, AcquireOutcome, FrameStep, LifecycleModel, Phase};
use crate::platform::Platform;

verus! {

/// The negotiated format is one of the formats the adapter reports.
///
/// This holds on every platform that presents the adapter's first choice as
/// it is. A platform that cannot present an sRGB format presents the first
/// choice without the tag; there the law holds whenever the adapter reports
/// that format too, which it always does if the first choice carries no tag.
pub proof fn negotiated_format_is_reported(
    caps: CapabilitiesModel,
    platform: Platform,
    size: (u32, u32),
)
    requires
        caps.usable(),
        platform.profile_spec().accepts_srgb_surface || caps.formats.contains(
            linear_form(caps.formats[0]),
        ),
    ensures
        caps.formats.contains(negotiated(caps, platform, size).format),
{
    assert(caps.formats.contains(caps.formats[0]));
}

/// The negotiated alpha mode is one of the modes the adapter reports, and
/// it is the first of pre-multiplied, post-multiplied and inherit that is
/// reported, or else the mode reported first.
pub proof fn negotiated_alpha_mode_is_reported_and_preferred(
    caps: CapabilitiesModel,
    platform: Platform,
    size: (u32, u32),
)
    requires
        caps.usable(),
    ensures
        ({
            let modes = caps.alpha_modes;
            let mode = negotiated(caps, platform, size).alpha_mode;
            &&& modes.contains(mode)
            &&& modes.contains(AlphaMode::PreMultiplied) ==> mode == AlphaMode::PreMultiplied
            &&& !modes.contains(AlphaMode::PreMultiplied) && modes.contains(
                AlphaMode::PostMultiplied,
            ) ==> mode == AlphaMode::PostMultiplied
            &&& !modes.contains(AlphaMode::PreMultiplied) && !modes.contains(
                AlphaMode::PostMultiplied,
            ) && modes.contains(AlphaMode::Inherit) ==> mode == AlphaMode::Inherit
            &&& !modes.contains(AlphaMode::PreMultiplied) && !modes.contains(
                AlphaMode::PostMultiplied,
            ) && !modes.contains(AlphaMode::Inherit) ==> mode == modes[0]
        }),
{
    assert(caps.alpha_modes.contains(caps.alpha_modes[0]));
}

/// Resizing twice to one size is the same as resizing once, and resizing to
/// the size that is already configured changes nothing: neither size nor
/// format, alpha mode, view formats or phase.
pub proof fn resize_is_idempotent(state: LifecycleModel, size: (u32, u32))
    requires
        state.wf(),
        state.live(),
    ensures
        state.resized(size).resized(size) == state.resized(size),
        state.resized((state.config->Some_0.width, state.config->Some_0.height)) == state,
        state.resized(size).config->Some_0 == (ConfigModel {
            width: state.resized(size).config->Some_0.width,
            height: state.resized(size).config->Some_0.height,
            ..state.config->Some_0
        }),
{
}

/// Changing the format and then changing it back restores the
/// configuration, its list of view formats included.
pub proof fn format_round_trip(state: LifecycleModel, format: wgpu::TextureFormat)
    requires
        state.wf(),
        state.live(),
    ensures
        state.reformatted(format).reformatted(state.config->Some_0.format) == state,
        state.reformatted(format).reformatted(state.config->Some_0.format).config->Some_0.view_formats
            == state.config->Some_0.view_formats,
{
}

/// Every negotiated configuration has a non-zero area, whatever size was
/// asked for: each dimension is the requested one, or 1 where that is 0.
pub proof fn negotiated_size_is_clamped(
    caps: CapabilitiesModel,
    platform: Platform,
    size: (u32, u32),
)
    ensures
        negotiated(caps, platform, size).has_area(),
        negotiated(caps, platform, size).width == (if size.0 == 0 {
            1
        } else {
            size.0
        }),
        negotiated(caps, platform, size).height == (if size.1 == 0 {
            1
        } else {
            size.1
        }),
{
}

/// No step ever leads to a configuration of zero area. Whatever holds of
/// every manager holds again after a first configuration that is valid, a
/// resize to any size and any outcome of an acquisition; that it holds again
/// after a change of format is stated where the format is changed.
pub proof fn every_state_is_well_formed(
    state: LifecycleModel,
    config: ConfigModel,
    size: (u32, u32),
    format: wgpu::TextureFormat,
    outcome: AcquireOutcome,
)
    requires
        state.wf(),
    ensures
        LifecycleModel::unconfigured(state.platform).wf(),
        state.phase == Phase::Unconfigured && config.valid_on(state.platform) ==> state.created(
            config,
        ).wf(),
        state.live() ==> state.resized(size).wf() && state.resized(size).config->Some_0.has_area(),
        state.live() ==> state.reformatted(format).config->Some_0.has_area(),
        state.live() ==> state.after_acquire(outcome).wf(),
        state.live() ==> state.config->Some_0.has_area(),
{
}

/// An acquisition fails for good exactly when it fails twice in a row: the
/// first failure asks for the configuration to be applied again and leaves
/// it as it was, and only a failure reported while the surface is
/// invalidated is fatal. A success always brings the surface back to the
/// configured phase.
pub proof fn acquisition_retries_once(
    state: LifecycleModel,
    requested: Option<wgpu::TextureFormat>,
    first: AcquireFailure,
    second: AcquireFailure,
)
    requires
        state.wf(),
        state.phase == Phase::Configured,
    ensures
        ({
            let invalidated = state.after_acquire(AcquireOutcome::Failed(first));
            &&& state.step_after(AcquireOutcome::Failed(first), requested)
                == FrameStep::Reconfigure
            &&& invalidated.phase == Phase::Invalidated
            &&& invalidated.config == state.config
            &&& invalidated.step_after(AcquireOutcome::Acquired, requested) == state.step_after(
                AcquireOutcome::Acquired,
                requested,
            )
            &&& invalidated.after_acquire(AcquireOutcome::Acquired) == state
            &&& invalidated.step_after(AcquireOutcome::Failed(second), requested)
                == FrameStep::Fail(SurfaceError::FrameAcquisitionFailed)
        }),
{
}

} // verus!

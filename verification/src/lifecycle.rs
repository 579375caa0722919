//! The life of a configured surface.
//!
//! A surface starts unconfigured, is configured once, and stays configured
//! while it is resized or given another format. When a frame cannot be
//! acquired the surface is invalidated: the same configuration is applied
//! again and the acquisition retried once. A second failure in a row is fatal.
//!
//! The manager decides; it does not touch the surface. After `create`,
//! `resize_surface_by_size` and `update_config_format` the caller applies
//! `config()` to the surface. While acquiring a frame the caller reports each
//! outcome to `frame_step` and does what the returned step says. All changes
//! to one manager, and all work on its surface, belong on a single thread.

use vstd::prelude::*;
use crate::config::{view_formats, ConfigModel, SurfaceConfig};
use crate::error::SurfaceError;
use crate::format::srgb_form;
use crate::platform::Platform;
use crate::size::{clamp_dimension, ViewSize};

verus! {

/// The state of a surface.
#[derive(Clone, Copy, Debug, PartialEq, Eq, Hash, Structural)]
pub enum Phase {
    /// No configuration has been applied yet.
    Unconfigured,
    /// The live configuration is in force.
    Configured,
    /// The last acquisition failed; the configuration is being applied again.
    Invalidated,
}

/// Why a surface handed out no texture.
#[derive(Clone, Copy, Debug, PartialEq, Eq, Hash, Structural)]
pub enum AcquireFailure {
    /// The texture did not arrive in time.
    Timeout,
    /// The surface has changed under the configuration.
    Outdated,
    /// The surface is lost.
    Lost,
    /// There is no memory left for the texture.
    OutOfMemory,
    /// The backend gave no reason.
    Other,
}

/// What the surface answered when asked for the next frame.
#[derive(Clone, Copy, Debug, PartialEq, Eq, Hash, Structural)]
pub enum AcquireOutcome {
    /// The surface handed out a texture.
    Acquired,
    /// The surface handed out nothing. Whatever the reason, the failure is
    /// treated as a stale surface.
    Failed(AcquireFailure),
}

/// What the caller does after reporting the outcome of an acquisition.
#[derive(Clone, Copy, Debug, PartialEq, Eq)]
pub enum FrameStep {
    /// Create a view of this format on the acquired texture; the frame is ready.
    Ready { view_format: wgpu::TextureFormat },
    /// Apply the live configuration again, acquire once more and report the outcome.
    Reconfigure,
    /// Give up: the device or the surface is lost.
    Fail(SurfaceError),
}

/// The mathematical content of a `SurfaceLifecycle`.
pub struct LifecycleModel {
    pub platform: Platform,
    pub phase: Phase,
    pub config: Option<ConfigModel>,
}

impl LifecycleModel {
    /// What holds of every manager: it has a configuration exactly when it
    /// has left the unconfigured phase, and that configuration is valid on
    /// its platform (so it never has a zero area, nor a view format of
    /// another storage than its format).
    pub open spec fn wf(self) -> bool {
        &&& self.phase == Phase::Unconfigured <==> self.config is None
        &&& self.config matches Some(config) ==> config.valid_on(self.platform)
    }

    /// Whether a configuration is in force or being applied again.
    pub open spec fn live(self) -> bool {
        self.config is Some
    }

    /// The unconfigured manager for `platform`.
    pub open spec fn unconfigured(platform: Platform) -> LifecycleModel {
        LifecycleModel { platform, phase: Phase::Unconfigured, config: None }
    }

    /// The manager after its first configuration.
    pub open spec fn created(self, config: ConfigModel) -> LifecycleModel {
        LifecycleModel { phase: Phase::Configured, config: Some(config), ..self }
    }

    /// The manager after a resize.
    pub open spec fn resized(self, size: (u32, u32)) -> LifecycleModel
        recommends
            self.live(),
    {
        LifecycleModel { config: Some(self.config->Some_0.resized(size)), ..self }
    }

    /// The manager after a change of format.
    pub open spec fn reformatted(self, format: wgpu::TextureFormat) -> LifecycleModel
        recommends
            self.live(),
    {
        LifecycleModel {
            config: Some(self.config->Some_0.with_format(format, self.platform)),
            ..self
        }
    }

    /// The format of the view created on an acquired texture: the requested
    /// one, or by default the sRGB form of the configured format.
    pub open spec fn frame_view_format(self, requested: Option<wgpu::TextureFormat>)
        -> wgpu::TextureFormat
        recommends
            self.live(),
    {
        match requested {
            Some(format) => format,
            None => srgb_form(self.config->Some_0.format),
        }
    }

    /// The phase after an acquisition's outcome was reported. Success leads
    /// to `Configured`, failure to `Invalidated`.
    pub open spec fn phase_after(self, outcome: AcquireOutcome) -> Phase {
        match outcome {
            AcquireOutcome::Acquired => Phase::Configured,
            AcquireOutcome::Failed(_) => Phase::Invalidated,
        }
    }

    /// The manager after an acquisition's outcome was reported: only the
    /// phase changes.
    pub open spec fn after_acquire(self, outcome: AcquireOutcome) -> LifecycleModel {
        LifecycleModel { phase: self.phase_after(outcome), ..self }
    }

    /// What the caller does after reporting `outcome`: on success the frame
    /// is ready; on the first failure the configuration is applied again; on
    /// a failure that follows a failure the acquisition is given up.
    pub open spec fn step_after(
        self,
        outcome: AcquireOutcome,
        requested: Option<wgpu::TextureFormat>,
    ) -> FrameStep
        recommends
            self.live(),
    {
        match outcome {
            AcquireOutcome::Acquired => FrameStep::Ready {
                view_format: self.frame_view_format(requested),
            },
            AcquireOutcome::Failed(_) => if self.phase == Phase::Invalidated {
                FrameStep::Fail(SurfaceError::FrameAcquisitionFailed)
            } else {
                FrameStep::Reconfigure
            },
        }
    }
}

/// The manager of one surface's configuration and state.
#[derive(Debug)]
pub struct SurfaceLifecycle {
    platform: Platform,
    phase: Phase,
    config: Option<SurfaceConfig>,
}

impl View for SurfaceLifecycle {
    type V = LifecycleModel;

    closed spec fn view(&self) -> LifecycleModel {
        LifecycleModel {
            platform: self.platform,
            phase: self.phase,
            config: match self.config {
                Some(config) => Some(config@),
                None => None,
            },
        }
    }
}

impl Clone for SurfaceLifecycle {
    /// A manager in the same state, with the same configuration.
    fn clone(&self) -> (r: SurfaceLifecycle)
        ensures
            r@ == self@,
    {
        proof {
            use_type_invariant(self);
        }
        let config = match &self.config {
            Some(config) => Some(config.duplicate()),
            None => None,
        };
        SurfaceLifecycle { platform: self.platform, phase: self.phase, config }
    }
}

impl SurfaceLifecycle {
    #[verifier::type_invariant]
    spec fn well_formed(self) -> bool {
        self@.wf()
    }

    /// The manager of a surface on `platform` that has not been configured.
    pub fn new(platform: Platform) -> (r: SurfaceLifecycle)
        ensures
            r@ == LifecycleModel::unconfigured(platform),
            r@.wf(),
    {
        SurfaceLifecycle { platform, phase: Phase::Unconfigured, config: None }
    }

    /// The platform the surface lives on.
    pub fn platform(&self) -> (r: Platform)
        ensures
            r == self@.platform,
    {
        self.platform
    }

    /// The state of the surface.
    pub fn phase(&self) -> (r: Phase)
        ensures
            r == self@.phase,
            self@.wf(),
    {
        proof {
            use_type_invariant(self);
        }
        self.phase
    }

    /// Whether a configuration has been applied.
    pub fn is_live(&self) -> (r: bool)
        ensures
            r == self@.live(),
            self@.wf(),
    {
        proof {
            use_type_invariant(self);
        }
        self.config.is_some()
    }

    /// The live configuration. It is valid on the platform: its area is
    /// never zero, and each of its view formats is the configured format up
    /// to the colour-space tag.
    pub fn config(&self) -> (r: &SurfaceConfig)
        requires
            self@.live(),
        ensures
            Some(r@) == self@.config,
            r@.valid_on(self@.platform),
            r@.has_area(),
            r@.view_formats_compatible(),
    {
        proof {
            use_type_invariant(self);
        }
        self.config.as_ref().unwrap()
    }

    /// The size of the live configuration.
    pub fn view_size(&self) -> (r: ViewSize)
        requires
            self@.live(),
        ensures
            r.width == self@.config->Some_0.width,
            r.height == self@.config->Some_0.height,
            r.has_area(),
    {
        let config = self.config();
        ViewSize { width: config.width, height: config.height }
    }

    /// Moves the live configuration out and leaves the manager unconfigured.
    fn take_config(&mut self) -> (r: SurfaceConfig)
        requires
            old(self)@.live(),
        ensures
            Some(r@) == old(self)@.config,
            final(self)@ == LifecycleModel::unconfigured(old(self)@.platform),
    {
        let mut taken = SurfaceLifecycle::new(self.platform);
        core::mem::swap(self, &mut taken);
        let SurfaceLifecycle { platform: _, phase: _, config } = taken;
        config.unwrap()
    }

    /// Takes the first configuration of the surface; the caller applies it.
    /// A surface is created once: any later change is a resize or a change
    /// of format.
    pub fn create(&mut self, config: SurfaceConfig)
        requires
            old(self)@.phase == Phase::Unconfigured,
            config@.valid_on(old(self)@.platform),
        ensures
            final(self)@ == old(self)@.created(config@),
            final(self)@.phase == Phase::Configured,
            final(self)@.wf(),
    {
        proof {
            use_type_invariant(&*self);
        }
        let platform = self.platform;
        *self = SurfaceLifecycle { platform, phase: Phase::Configured, config: Some(config) };
    }

    /// Changes the size of the live configuration, each dimension clamped to
    /// a minimum of 1; the caller applies the configuration. Format, alpha
    /// mode and view formats stay as they are, and so does the phase.
    pub fn resize_surface_by_size(&mut self, size: (u32, u32))
        requires
            old(self)@.live(),
        ensures
            final(self)@ == old(self)@.resized(size),
            final(self)@.wf(),
    {
        proof {
            use_type_invariant(&*self);
        }
        let platform = self.platform;
        let phase = self.phase;
        let mut config = self.take_config();
        config.width = clamp_dimension(size.0);
        config.height = clamp_dimension(size.1);
        *self = SurfaceLifecycle { platform, phase, config: Some(config) };
    }

    /// Changes the format of the live configuration and recomputes the view
    /// formats under the platform's rules; the caller applies the
    /// configuration. Size, alpha mode and presentation mode stay as they
    /// are, and so does the phase.
    pub fn update_config_format(&mut self, format: wgpu::TextureFormat)
        requires
            old(self)@.live(),
        ensures
            final(self)@ == old(self)@.reformatted(format),
            final(self)@.wf(),
    {
        proof {
            use_type_invariant(&*self);
        }
        let platform = self.platform;
        let phase = self.phase;
        let mut config = self.take_config();
        config.format = format;
        config.view_formats = view_formats(format, platform);
        *self = SurfaceLifecycle { platform, phase, config: Some(config) };
    }

    /// The format of the view created on an acquired texture.
    pub fn frame_view_format(&self, requested: Option<wgpu::TextureFormat>) -> (r:
        wgpu::TextureFormat)
        requires
            self@.live(),
            requested matches Some(format) ==> self@.config->Some_0.view_formats.contains(format),
        ensures
            r == self@.frame_view_format(requested),
    {
        match requested {
            Some(format) => format,
            None => self.config().format.add_srgb_suffix(),
        }
    }

    /// Takes the outcome of an acquisition and says what to do next.
    ///
    /// The configuration is never changed here: what is applied again after
    /// a failure is the configuration that was live before it.
    pub fn frame_step(&mut self, outcome: AcquireOutcome, requested: Option<wgpu::TextureFormat>)
        -> (r: FrameStep)
        requires
            old(self)@.live(),
            requested matches Some(format) ==> old(self)@.config->Some_0.view_formats.contains(
                format,
            ),
        ensures
            r == old(self)@.step_after(outcome, requested),
            final(self)@ == old(self)@.after_acquire(outcome),
            final(self)@.wf(),
    {
        proof {
            use_type_invariant(&*self);
        }
        match outcome {
            AcquireOutcome::Acquired => {
                let view_format = self.frame_view_format(requested);
                self.phase = Phase::Configured;
                FrameStep::Ready { view_format }
            },
            AcquireOutcome::Failed(_) => {
                let failed_before = self.phase == Phase::Invalidated;
                self.phase = Phase::Invalidated;
                if failed_before {
                    FrameStep::Fail(SurfaceError::FrameAcquisitionFailed)
                } else {
                    FrameStep::Reconfigure
                }
            },
        }
    }
}

} // verus!

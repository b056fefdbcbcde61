//! The response modes a caller can ask for, and their timing parameters.

use vstd::prelude::*;
use crate::rate::Fps;

verus! {

/// Timing parameters of the modes that pace an idle window.
#[derive(Debug, Clone, Copy, PartialEq, Eq, Structural)]
pub struct QuickResponseParameters {
    /// The update rate while nothing happens, or while the window is not
    /// focused. 60 by default.
    pub base_fps: Fps,
    /// The ceiling of the frame rate while the window is in use. 120 by
    /// default.
    pub max_fps: Fps,
    /// Whether the host's default subsystems are installed along with the
    /// policy. On by default.
    pub auto_init_default_plugins: bool,
}

/// Timing parameters of the power-saving mode, which has no base rate.
#[derive(Debug, Clone, Copy, PartialEq, Eq, Structural)]
pub struct QuickResponseParametersWithNoBaseFps {
    /// The ceiling of the frame rate while the window is in use.
    pub max_fps: Fps,
    /// Whether the host's default subsystems are installed along with the
    /// policy.
    pub auto_init_default_plugins: bool,
}

/// What the caller wants of the window.
#[derive(Debug, Clone, Copy, PartialEq, Eq, Structural)]
pub enum QuickResponseMode {
    /// Tear-free low-latency presentation where the platform has it, best-effort
    /// presentation without vsync elsewhere.
    FastVsync(QuickResponseParameters),
    /// Unsynchronised presentation. The lowest latency; it may tear, and some
    /// graphics backends refuse it.
    Immediate(QuickResponseParameters),
    /// Best-effort presentation without vsync on every platform.
    AutoNoVsync(QuickResponseParameters),
    /// Presentation as for `FastVsync`, with the event loop of a desktop
    /// application: meant for tools rather than games.
    PowerSaving(QuickResponseParametersWithNoBaseFps),
    /// The host's own behaviour. The flag says whether the host's default
    /// subsystems are still installed.
    Passthrough(bool),
}

impl QuickResponseParameters {
    /// The parameters that `default()` gives: a base rate of 60 and a ceiling
    /// of 120 frames per second, with the host defaults installed.
    pub open spec fn spec_default() -> QuickResponseParameters {
        QuickResponseParameters {
            base_fps: Fps::spec_from_millihertz(60_000),
            max_fps: Fps::spec_from_millihertz(120_000),
            auto_init_default_plugins: true,
        }
    }

    /// Whether both rates are strictly positive.
    pub open spec fn is_valid(&self) -> bool {
        self.base_fps.is_valid() && self.max_fps.is_valid()
    }
}

impl Default for QuickResponseParameters {
    fn default() -> (r: QuickResponseParameters)
        ensures
            r == QuickResponseParameters::spec_default(),
            r.base_fps.spec_millihertz() == 60_000,
            r.max_fps.spec_millihertz() == 120_000,
            r.auto_init_default_plugins,
    {
        QuickResponseParameters {
            base_fps: Fps::hertz_60(),
            max_fps: Fps::hertz_120(),
            auto_init_default_plugins: true,
        }
    }
}

impl QuickResponseMode {
    /// The mode that `default()` gives: `FastVsync` with the default
    /// parameters.
    pub open spec fn spec_default() -> QuickResponseMode {
        QuickResponseMode::FastVsync(QuickResponseParameters::spec_default())
    }

    /// Whether every rate the mode carries is strictly positive.
    pub open spec fn is_valid(&self) -> bool {
        match *self {
            QuickResponseMode::FastVsync(p) => p.is_valid(),
            QuickResponseMode::Immediate(p) => p.is_valid(),
            QuickResponseMode::AutoNoVsync(p) => p.is_valid(),
            QuickResponseMode::PowerSaving(p) => p.max_fps.is_valid(),
            QuickResponseMode::Passthrough(_) => true,
        }
    }

    /// The same mode with the installation of the host defaults switched off.
    pub open spec fn spec_without_defaults(&self) -> QuickResponseMode {
        match *self {
            QuickResponseMode::FastVsync(p) => QuickResponseMode::FastVsync(
                QuickResponseParameters { auto_init_default_plugins: false, ..p },
            ),
            QuickResponseMode::Immediate(p) => QuickResponseMode::Immediate(
                QuickResponseParameters { auto_init_default_plugins: false, ..p },
            ),
            QuickResponseMode::AutoNoVsync(p) => QuickResponseMode::AutoNoVsync(
                QuickResponseParameters { auto_init_default_plugins: false, ..p },
            ),
            QuickResponseMode::PowerSaving(p) => QuickResponseMode::PowerSaving(
                QuickResponseParametersWithNoBaseFps { auto_init_default_plugins: false, ..p },
            ),
            QuickResponseMode::Passthrough(_) => QuickResponseMode::Passthrough(false),
        }
    }
}

impl Default for QuickResponseMode {
    fn default() -> (r: QuickResponseMode)
        ensures
            r == QuickResponseMode::spec_default(),
    {
        QuickResponseMode::FastVsync(QuickResponseParameters::default())
    }
}

} // verus!

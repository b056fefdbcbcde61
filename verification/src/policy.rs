//! Resolution of a response mode, on a given operating system, into the
//! concrete policy that the host is configured with.

use vstd::prelude::*;
use crate::mode::QuickResponseMode;
use crate::rate::{
    interval_nanos, lemma_interval_bounds, lemma_interval_is_reciprocal, Fps, NANOS_PER_KILOSECOND,
};

verus! {

/// The operating system that the window is presented on.
#[derive(Debug, Clone, Copy, PartialEq, Eq, Structural)]
pub enum TargetOs {
    Windows,
    Linux,
    MacOs,
    /// Any other system.
    Other,
}

/// How the swapchain hands finished frames to the compositor.
#[derive(Debug, Clone, Copy, PartialEq, Eq, Structural)]
pub enum PresentMode {
    /// Tear-free and low-latency: the newest frame wins.
    Mailbox,
    /// No synchronisation; may tear.
    Immediate,
    /// Best effort without vsync, chosen by the graphics backend.
    AutoNoVsync,
}

/// How often the host's event loop updates while nothing happens.
#[derive(Debug, Clone, Copy, PartialEq, Eq, Structural)]
pub enum UpdateCadence {
    /// The loop idles until input arrives or `wait_nanos` nanoseconds have
    /// passed.
    ReactiveLowPower { wait_nanos: u64 },
    /// The host's preset for desktop applications.
    DesktopApp,
    /// Whatever the host does by itself.
    HostDefault,
}

/// The resolved configuration of one response mode on one operating system.
#[derive(Debug, Clone, Copy, PartialEq, Eq, Structural)]
pub struct Policy {
    /// The present mode of the primary window; `None` leaves the host's own.
    pub present_mode: Option<PresentMode>,
    /// The cadence while the window is focused.
    pub focused_cadence: UpdateCadence,
    /// The cadence while the window is not focused.
    pub unfocused_cadence: UpdateCadence,
    /// The ceiling that the frame limiter is set to; `None` where the limiter
    /// is not engaged.
    pub framerate_cap: Option<Fps>,
    /// Whether the host's default subsystems are installed.
    pub install_defaults: bool,
    /// Whether the frame limiter is engaged.
    pub engage_limiter: bool,
}

/// Whether drivers on this system present reliably in `Mailbox` mode.
pub open spec fn spec_supports_mailbox(os: TargetOs) -> bool {
    os == TargetOs::Windows || os == TargetOs::Linux
}

/// The present mode of the primary window for a mode on a system.
pub open spec fn spec_present_mode(mode: QuickResponseMode, os: TargetOs) -> Option<PresentMode> {
    if mode is Passthrough {
        None
    } else if mode is Immediate {
        Some(PresentMode::Immediate)
    } else if mode is AutoNoVsync || !spec_supports_mailbox(os) {
        Some(PresentMode::AutoNoVsync)
    } else {
        Some(PresentMode::Mailbox)
    }
}

/// The base rate of a mode: the modes that pace an idle window have one.
pub open spec fn spec_base_fps(mode: QuickResponseMode) -> Option<Fps> {
    match mode {
        QuickResponseMode::FastVsync(p) => Some(p.base_fps),
        QuickResponseMode::Immediate(p) => Some(p.base_fps),
        QuickResponseMode::AutoNoVsync(p) => Some(p.base_fps),
        _ => None,
    }
}

/// The event-loop cadence of a mode, the same with and without focus.
pub open spec fn spec_cadence(mode: QuickResponseMode) -> UpdateCadence {
    if mode is Passthrough {
        UpdateCadence::HostDefault
    } else if mode is PowerSaving {
        UpdateCadence::DesktopApp
    } else {
        UpdateCadence::ReactiveLowPower {
            wait_nanos: interval_nanos(spec_base_fps(mode).unwrap().spec_millihertz() as int) as u64,
        }
    }
}

/// The ceiling of the frame rate: the mode's `max_fps`, where it has one.
pub open spec fn spec_framerate_cap(mode: QuickResponseMode) -> Option<Fps> {
    match mode {
        QuickResponseMode::FastVsync(p) => Some(p.max_fps),
        QuickResponseMode::Immediate(p) => Some(p.max_fps),
        QuickResponseMode::AutoNoVsync(p) => Some(p.max_fps),
        QuickResponseMode::PowerSaving(p) => Some(p.max_fps),
        QuickResponseMode::Passthrough(_) => None,
    }
}

/// Whether the host's default subsystems are installed along with the mode.
pub open spec fn spec_install_defaults(mode: QuickResponseMode) -> bool {
    match mode {
        QuickResponseMode::FastVsync(p) => p.auto_init_default_plugins,
        QuickResponseMode::Immediate(p) => p.auto_init_default_plugins,
        QuickResponseMode::AutoNoVsync(p) => p.auto_init_default_plugins,
        QuickResponseMode::PowerSaving(p) => p.auto_init_default_plugins,
        QuickResponseMode::Passthrough(install) => install,
    }
}

/// The policy of a mode on a system.
pub open spec fn spec_resolve(mode: QuickResponseMode, os: TargetOs) -> Policy {
    Policy {
        present_mode: spec_present_mode(mode, os),
        focused_cadence: spec_cadence(mode),
        unfocused_cadence: spec_cadence(mode),
        framerate_cap: spec_framerate_cap(mode),
        install_defaults: spec_install_defaults(mode),
        engage_limiter: !(mode is Passthrough),
    }
}

/// Whether the mode paces the idle event loop by a base rate.
pub fn is_base_fps_enabled(mode: QuickResponseMode) -> (r: bool)
    ensures
        r == (mode is FastVsync || mode is Immediate || mode is AutoNoVsync),
        r == spec_base_fps(mode).is_some(),
{
    match mode {
        QuickResponseMode::FastVsync(_) => true,
        QuickResponseMode::Immediate(_) => true,
        QuickResponseMode::AutoNoVsync(_) => true,
        QuickResponseMode::PowerSaving(_) => false,
        QuickResponseMode::Passthrough(_) => false,
    }
}

/// Whether the mode is the power-saving one.
pub fn is_power_saving_enabled(mode: QuickResponseMode) -> (r: bool)
    ensures
        r == (mode is PowerSaving),
{
    match mode {
        QuickResponseMode::FastVsync(_) => false,
        QuickResponseMode::Immediate(_) => false,
        QuickResponseMode::AutoNoVsync(_) => false,
        QuickResponseMode::PowerSaving(_) => true,
        QuickResponseMode::Passthrough(_) => false,
    }
}

/// The present mode that stands for the "fast vsync" intent on a system.
pub fn fast_vsync_present_mode(os: TargetOs) -> (r: PresentMode)
    ensures
        r == (if spec_supports_mailbox(os) {
            PresentMode::Mailbox
        } else {
            PresentMode::AutoNoVsync
        }),
{
    match os {
        TargetOs::Windows => PresentMode::Mailbox,
        TargetOs::MacOs => PresentMode::AutoNoVsync,
        TargetOs::Linux => PresentMode::Mailbox,
        TargetOs::Other => PresentMode::AutoNoVsync,
    }
}

/// The present mode of the primary window for a mode on a system; `None`
/// leaves the host's own.
pub fn present_mode_for(mode: QuickResponseMode, os: TargetOs) -> (r: Option<PresentMode>)
    ensures
        r == spec_present_mode(mode, os),
{
    match mode {
        QuickResponseMode::FastVsync(_) => Some(fast_vsync_present_mode(os)),
        QuickResponseMode::Immediate(_) => Some(PresentMode::Immediate),
        QuickResponseMode::AutoNoVsync(_) => Some(PresentMode::AutoNoVsync),
        QuickResponseMode::PowerSaving(_) => Some(fast_vsync_present_mode(os)),
        QuickResponseMode::Passthrough(_) => None,
    }
}

/// Resolves a mode on a system into its policy.
pub fn resolve(mode: QuickResponseMode, os: TargetOs) -> (policy: Policy)
    ensures
        policy == spec_resolve(mode, os),
{
    let cadence = match mode {
        QuickResponseMode::FastVsync(p) => UpdateCadence::ReactiveLowPower {
            wait_nanos: p.base_fps.frame_interval_nanos(),
        },
        QuickResponseMode::Immediate(p) => UpdateCadence::ReactiveLowPower {
            wait_nanos: p.base_fps.frame_interval_nanos(),
        },
        QuickResponseMode::AutoNoVsync(p) => UpdateCadence::ReactiveLowPower {
            wait_nanos: p.base_fps.frame_interval_nanos(),
        },
        QuickResponseMode::PowerSaving(_) => UpdateCadence::DesktopApp,
        QuickResponseMode::Passthrough(_) => UpdateCadence::HostDefault,
    };
    let (framerate_cap, install_defaults) = match mode {
        QuickResponseMode::FastVsync(p) => (Some(p.max_fps), p.auto_init_default_plugins),
        QuickResponseMode::Immediate(p) => (Some(p.max_fps), p.auto_init_default_plugins),
        QuickResponseMode::AutoNoVsync(p) => (Some(p.max_fps), p.auto_init_default_plugins),
        QuickResponseMode::PowerSaving(p) => (Some(p.max_fps), p.auto_init_default_plugins),
        QuickResponseMode::Passthrough(install) => (None, install),
    };
    Policy {
        present_mode: present_mode_for(mode, os),
        focused_cadence: cadence,
        unfocused_cadence: cadence,
        framerate_cap,
        install_defaults,
        engage_limiter: framerate_cap.is_some(),
    }
}

/// The present-mode table, cell by cell: `FastVsync` and `PowerSaving` present
/// in `Mailbox` on Windows and Linux and in `AutoNoVsync` elsewhere,
/// `Immediate` and `AutoNoVsync` present as their names say on every system,
/// and the passthrough mode leaves the host's own present mode.
pub proof fn lemma_present_mode_table(mode: QuickResponseMode, os: TargetOs)
    ensures
        (mode is FastVsync || mode is PowerSaving) && (os is Windows || os is Linux)
            ==> spec_resolve(mode, os).present_mode == Some(PresentMode::Mailbox),
        (mode is FastVsync || mode is PowerSaving) && (os is MacOs || os is Other)
            ==> spec_resolve(mode, os).present_mode == Some(PresentMode::AutoNoVsync),
        mode is Immediate ==> spec_resolve(mode, os).present_mode == Some(PresentMode::Immediate),
        mode is AutoNoVsync ==> spec_resolve(mode, os).present_mode == Some(
            PresentMode::AutoNoVsync,
        ),
        mode is Passthrough ==> spec_resolve(mode, os).present_mode.is_none(),
{
}

/// The cadence rule: a mode with a base rate waits, focused and unfocused
/// alike, for the reciprocal of that rate, to within half a nanosecond. The
/// wait in nanoseconds times the rate in millihertz misses one thousand
/// seconds by at most half the rate.
pub proof fn lemma_cadence_is_reciprocal_of_base_fps(mode: QuickResponseMode, os: TargetOs)
    requires
        mode.is_valid(),
        mode is FastVsync || mode is Immediate || mode is AutoNoVsync,
    ensures
        spec_resolve(mode, os).focused_cadence == spec_resolve(mode, os).unfocused_cadence,
        spec_resolve(mode, os).focused_cadence matches UpdateCadence::ReactiveLowPower {
            wait_nanos,
        } && {
            let rate = spec_base_fps(mode).unwrap().spec_millihertz();
            &&& 2 * (wait_nanos * rate - NANOS_PER_KILOSECOND) <= rate
            &&& 2 * (NANOS_PER_KILOSECOND - wait_nanos * rate) <= rate
        },
{
    let fps = spec_base_fps(mode).unwrap();
    lemma_interval_is_reciprocal(fps);
    lemma_interval_bounds(fps.spec_millihertz() as int);
}

/// The limiter is engaged for every mode but the passthrough one, and its
/// ceiling is then the mode's `max_fps`.
pub proof fn lemma_limiter_cap(mode: QuickResponseMode, os: TargetOs)
    ensures
        spec_resolve(mode, os).engage_limiter <==> !(mode is Passthrough),
        spec_resolve(mode, os).engage_limiter <==> spec_resolve(mode, os).framerate_cap.is_some(),
        mode matches QuickResponseMode::PowerSaving(p) ==> spec_resolve(mode, os).framerate_cap
            == Some(p.max_fps),
        mode matches QuickResponseMode::FastVsync(p) ==> spec_resolve(mode, os).framerate_cap
            == Some(p.max_fps),
        mode matches QuickResponseMode::Immediate(p) ==> spec_resolve(mode, os).framerate_cap
            == Some(p.max_fps),
        mode matches QuickResponseMode::AutoNoVsync(p) ==> spec_resolve(mode, os).framerate_cap
            == Some(p.max_fps),
{
}

} // verus!

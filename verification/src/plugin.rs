//! The plugin configuration: a response mode, its named constructors and its
//! modifiers.

use vstd::prelude::*;
use bevy::window::WindowPlugin;
use crate::mode::{
    QuickResponseMode, QuickResponseParameters, QuickResponseParametersWithNoBaseFps,
};
use crate::policy::{present_mode_for, spec_present_mode, TargetOs};
use crate::rate::Fps;
use crate::window::{window_plugin_for, window_plugin_presenting};

verus! {

/// A response mode, ready to be installed into a host application.
#[derive(Debug, Clone, Copy, PartialEq, Eq, Structural)]
pub struct QuickResponsePlugin {
    /// The mode that the caller chose.
    pub mode: QuickResponseMode,
    /// Keeps the frame limiter out of the host, so that a test can build the
    /// plugin into an application that has no renderer.
    no_framepace_for_test: bool,
}

impl QuickResponsePlugin {
    /// The mode that the plugin holds.
    pub closed spec fn spec_mode(&self) -> QuickResponseMode {
        self.mode
    }

    /// Whether the frame limiter is kept out of the host.
    pub closed spec fn spec_limiter_suppressed(&self) -> bool {
        self.no_framepace_for_test
    }

    /// The plugin of a mode with the given suppression of the limiter.
    pub closed spec fn spec_of(mode: QuickResponseMode, limiter_suppressed: bool) -> Self {
        QuickResponsePlugin { mode, no_framepace_for_test: limiter_suppressed }
    }

    /// What `with_no_default_plugins` returns.
    pub open spec fn spec_with_no_default_plugins(&self) -> Self {
        Self::spec_of(self.spec_mode().spec_without_defaults(), self.spec_limiter_suppressed())
    }

    /// The mode that the plugin holds.
    #[verifier::when_used_as_spec(spec_mode)]
    pub fn mode(&self) -> (r: QuickResponseMode)
        ensures
            r == self.spec_mode(),
    {
        self.mode
    }

    /// Whether the frame limiter is kept out of the host.
    #[verifier::when_used_as_spec(spec_limiter_suppressed)]
    pub fn limiter_suppressed(&self) -> (r: bool)
        ensures
            r == self.spec_limiter_suppressed(),
    {
        self.no_framepace_for_test
    }

    /// Wraps a mode as it is.
    pub fn new(mode: QuickResponseMode) -> (r: Self)
        ensures
            r == Self::spec_of(mode, false),
            r.spec_mode() == mode,
            !r.spec_limiter_suppressed(),
    {
        QuickResponsePlugin { mode, no_framepace_for_test: false }
    }

    /// The power-saving mode with the given ceiling; host defaults installed.
    pub fn power_saving(max_fps: Fps) -> (r: Self)
        ensures
            r.spec_mode() == QuickResponseMode::PowerSaving(
                QuickResponseParametersWithNoBaseFps {
                    max_fps,
                    auto_init_default_plugins: true,
                },
            ),
            !r.spec_limiter_suppressed(),
            r == Self::spec_of(r.spec_mode(), false),
    {
        QuickResponsePlugin::new(
            QuickResponseMode::PowerSaving(
                QuickResponseParametersWithNoBaseFps { max_fps, auto_init_default_plugins: true },
            ),
        )
    }

    /// The fast-vsync mode with the given rates; host defaults installed.
    pub fn fast_vsync(base_fps: Fps, max_fps: Fps) -> (r: Self)
        ensures
            r.spec_mode() == QuickResponseMode::FastVsync(
                QuickResponseParameters { base_fps, max_fps, auto_init_default_plugins: true },
            ),
            !r.spec_limiter_suppressed(),
            r == Self::spec_of(r.spec_mode(), false),
    {
        QuickResponsePlugin::new(
            QuickResponseMode::FastVsync(
                QuickResponseParameters { base_fps, max_fps, auto_init_default_plugins: true },
            ),
        )
    }

    /// The immediate mode with the given rates; host defaults installed.
    pub fn immediate(base_fps: Fps, max_fps: Fps) -> (r: Self)
        ensures
            r.spec_mode() == QuickResponseMode::Immediate(
                QuickResponseParameters { base_fps, max_fps, auto_init_default_plugins: true },
            ),
            !r.spec_limiter_suppressed(),
            r == Self::spec_of(r.spec_mode(), false),
    {
        QuickResponsePlugin::new(
            QuickResponseMode::Immediate(
                QuickResponseParameters { base_fps, max_fps, auto_init_default_plugins: true },
            ),
        )
    }

    /// The mode without vsync on every platform, with the given rates; host
    /// defaults installed.
    pub fn auto_no_vsync(base_fps: Fps, max_fps: Fps) -> (r: Self)
        ensures
            r.spec_mode() == QuickResponseMode::AutoNoVsync(
                QuickResponseParameters { base_fps, max_fps, auto_init_default_plugins: true },
            ),
            !r.spec_limiter_suppressed(),
            r == Self::spec_of(r.spec_mode(), false),
    {
        QuickResponsePlugin::new(
            QuickResponseMode::AutoNoVsync(
                QuickResponseParameters { base_fps, max_fps, auto_init_default_plugins: true },
            ),
        )
    }

    /// The passthrough mode; the flag says whether the host defaults are
    /// still installed.
    pub fn none(should_default_plugins_enabled: bool) -> (r: Self)
        ensures
            r == Self::spec_of(QuickResponseMode::Passthrough(should_default_plugins_enabled), false),
            r.spec_mode() == QuickResponseMode::Passthrough(should_default_plugins_enabled),
            !r.spec_limiter_suppressed(),
    {
        QuickResponsePlugin::new(QuickResponseMode::Passthrough(should_default_plugins_enabled))
    }

    /// A copy that keeps the frame limiter out of the host.
    pub fn with_no_framepace_for_test(&self) -> (r: Self)
        ensures
            r == Self::spec_of(self.spec_mode(), true),
            r.spec_mode() == self.spec_mode(),
            r.spec_limiter_suppressed(),
    {
        QuickResponsePlugin { mode: self.mode, no_framepace_for_test: true }
    }

    /// A copy that does not install the host defaults: the flag of the active
    /// variant is cleared, and nothing else changes.
    pub fn with_no_default_plugins(&self) -> (r: Self)
        ensures
            r == self.spec_with_no_default_plugins(),
            r.spec_mode() == self.spec_mode().spec_without_defaults(),
            r.spec_limiter_suppressed() == self.spec_limiter_suppressed(),
    {
        let mode = match self.mode {
            QuickResponseMode::Passthrough(_) => QuickResponseMode::Passthrough(false),
            QuickResponseMode::FastVsync(params) => QuickResponseMode::FastVsync(
                QuickResponseParameters {
                    base_fps: params.base_fps,
                    max_fps: params.max_fps,
                    auto_init_default_plugins: false,
                },
            ),
            QuickResponseMode::Immediate(params) => QuickResponseMode::Immediate(
                QuickResponseParameters {
                    base_fps: params.base_fps,
                    max_fps: params.max_fps,
                    auto_init_default_plugins: false,
                },
            ),
            QuickResponseMode::AutoNoVsync(params) => QuickResponseMode::AutoNoVsync(
                QuickResponseParameters {
                    base_fps: params.base_fps,
                    max_fps: params.max_fps,
                    auto_init_default_plugins: false,
                },
            ),
            QuickResponseMode::PowerSaving(params) => QuickResponseMode::PowerSaving(
                QuickResponseParametersWithNoBaseFps {
                    max_fps: params.max_fps,
                    auto_init_default_plugins: false,
                },
            ),
        };
        QuickResponsePlugin { mode, no_framepace_for_test: self.no_framepace_for_test }
    }

    /// The window configuration that goes with the mode on the given system:
    /// the primary window presents as the policy says, and everything else is
    /// the host's default.
    pub fn window_plugin(&self, os: TargetOs) -> (plugin: WindowPlugin)
        ensures
            plugin == window_plugin_for(spec_present_mode(self.spec_mode(), os)),
    {
        window_plugin_presenting(present_mode_for(self.mode, os))
    }
}

impl Default for QuickResponsePlugin {
    fn default() -> (r: Self)
        ensures
            r == Self::spec_of(QuickResponseMode::spec_default(), false),
            r.spec_mode() == QuickResponseMode::spec_default(),
            !r.spec_limiter_suppressed(),
    {
        QuickResponsePlugin::new(QuickResponseMode::default())
    }
}

/// A plugin is its mode and its suppression flag.
pub proof fn lemma_plugin_parts(mode: QuickResponseMode, limiter_suppressed: bool)
    ensures
        QuickResponsePlugin::spec_of(mode, limiter_suppressed).spec_mode() == mode,
        QuickResponsePlugin::spec_of(mode, limiter_suppressed).spec_limiter_suppressed()
            == limiter_suppressed,
{
}

/// A plugin is made of its own parts, so two plugins with the same mode and
/// the same suppression flag are equal.
pub proof fn lemma_plugin_of_parts(plugin: QuickResponsePlugin)
    ensures
        QuickResponsePlugin::spec_of(plugin.spec_mode(), plugin.spec_limiter_suppressed()) == plugin,
{
}

/// Switching the host defaults off twice is the same as switching them off
/// once.
pub proof fn lemma_no_default_plugins_idempotent(plugin: QuickResponsePlugin)
    ensures
        plugin.spec_with_no_default_plugins().spec_with_no_default_plugins()
            == plugin.spec_with_no_default_plugins(),
{
}

/// Switching the host defaults off turns either passthrough mode into the one
/// that installs nothing.
pub proof fn lemma_no_default_plugins_on_passthrough(install: bool, limiter_suppressed: bool)
    ensures
        QuickResponsePlugin::spec_of(
            QuickResponseMode::Passthrough(install),
            limiter_suppressed,
        ).spec_with_no_default_plugins() == QuickResponsePlugin::spec_of(
            QuickResponseMode::Passthrough(false),
            limiter_suppressed,
        ),
{
}

/// Switching the host defaults off keeps the variant and both rates of every
/// mode with parameters, and clears its flag.
pub proof fn lemma_no_default_plugins_keeps_parameters(plugin: QuickResponsePlugin)
    ensures
        plugin.spec_with_no_default_plugins().spec_limiter_suppressed()
            == plugin.spec_limiter_suppressed(),
        plugin.spec_mode() matches QuickResponseMode::FastVsync(p)
            ==> plugin.spec_with_no_default_plugins().spec_mode() == QuickResponseMode::FastVsync(
            QuickResponseParameters {
                base_fps: p.base_fps,
                max_fps: p.max_fps,
                auto_init_default_plugins: false,
            },
        ),
        plugin.spec_mode() matches QuickResponseMode::Immediate(p)
            ==> plugin.spec_with_no_default_plugins().spec_mode() == QuickResponseMode::Immediate(
            QuickResponseParameters {
                base_fps: p.base_fps,
                max_fps: p.max_fps,
                auto_init_default_plugins: false,
            },
        ),
        plugin.spec_mode() matches QuickResponseMode::AutoNoVsync(p)
            ==> plugin.spec_with_no_default_plugins().spec_mode() == QuickResponseMode::AutoNoVsync(
            QuickResponseParameters {
                base_fps: p.base_fps,
                max_fps: p.max_fps,
                auto_init_default_plugins: false,
            },
        ),
        plugin.spec_mode() matches QuickResponseMode::PowerSaving(p)
            ==> plugin.spec_with_no_default_plugins().spec_mode() == QuickResponseMode::PowerSaving(
            QuickResponseParametersWithNoBaseFps {
                max_fps: p.max_fps,
                auto_init_default_plugins: false,
            },
        ),
{
}

} // verus!

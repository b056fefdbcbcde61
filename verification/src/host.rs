//! Installation of a plugin into a host application, as the ordered steps
//! that the host has to perform.

use vstd::prelude::*;
use crate::mode::QuickResponseMode;
use crate::plugin::QuickResponsePlugin;
use crate::policy::{
    resolve, spec_resolve, PresentMode, TargetOs, UpdateCadence,
};
use crate::rate::Fps;

verus! {

/// One change to the host application.
#[derive(Debug, Clone, Copy, PartialEq, Eq, Structural)]
pub enum BuildStep {
    /// Insert the event-loop settings with these two cadences.
    InsertEventLoopSettings { focused: UpdateCadence, unfocused: UpdateCadence },
    /// Install the host's default subsystems. The primary window presents in
    /// the given mode; `None` leaves the window configuration untouched.
    InstallHostDefaults { present_mode: Option<PresentMode> },
    /// Register the frame limiter.
    RegisterLimiter,
    /// Register the startup action that writes this ceiling into the frame
    /// limiter's configuration. In a host without the limiter the action
    /// finds no configuration and has nothing to write.
    SetFramerateCapAtStartup { cap: Fps },
}

/// The one step, where the condition holds; no step, where it does not.
pub open spec fn spec_step_if(condition: bool, step: BuildStep) -> Seq<BuildStep> {
    if condition {
        seq![step]
    } else {
        Seq::empty()
    }
}

/// The steps that install a plugin on a system into a host in which the
/// frame limiter is, or is not, registered already.
///
/// The passthrough mode installs the host defaults where it is asked to, and
/// nothing else. Every other mode inserts the event-loop settings first, then
/// installs the host defaults where the mode asks for them, then registers the
/// limiter unless it is suppressed or there already, and last, whether the
/// limiter is suppressed or not, registers the startup action that sets the
/// ceiling.
pub open spec fn spec_build(
    plugin: QuickResponsePlugin,
    os: TargetOs,
    limiter_registered: bool,
) -> Seq<BuildStep> {
    let policy = spec_resolve(plugin.spec_mode(), os);
    let defaults = spec_step_if(
        policy.install_defaults,
        BuildStep::InstallHostDefaults { present_mode: policy.present_mode },
    );
    if plugin.spec_mode() is Passthrough {
        defaults
    } else {
        let limited = !plugin.spec_limiter_suppressed();
        seq![
            BuildStep::InsertEventLoopSettings {
                focused: policy.focused_cadence,
                unfocused: policy.unfocused_cadence,
            },
        ] + defaults + spec_step_if(limited && !limiter_registered, BuildStep::RegisterLimiter)
            + seq![BuildStep::SetFramerateCapAtStartup { cap: policy.framerate_cap.unwrap() }]
    }
}

/// Whether the frame limiter is registered once the steps have been performed
/// on a host in which it was, or was not, registered before.
pub open spec fn spec_limiter_registered_after(
    limiter_registered: bool,
    steps: Seq<BuildStep>,
) -> bool {
    limiter_registered || steps.contains(BuildStep::RegisterLimiter)
}

impl QuickResponsePlugin {
    /// The steps that install the plugin into a host application, in the
    /// order in which the host has to perform them. `limiter_registered` says
    /// whether the host has the frame limiter registered already.
    pub fn build(&self, os: TargetOs, limiter_registered: bool) -> (steps: Vec<BuildStep>)
        ensures
            steps@ == spec_build(*self, os, limiter_registered),
    {
        let policy = resolve(self.mode(), os);
        let mut steps: Vec<BuildStep> = Vec::new();
        match policy.framerate_cap {
            None => {
                if policy.install_defaults {
                    steps.push(BuildStep::InstallHostDefaults { present_mode: policy.present_mode });
                }
            },
            Some(cap) => {
                steps.push(
                    BuildStep::InsertEventLoopSettings {
                        focused: policy.focused_cadence,
                        unfocused: policy.unfocused_cadence,
                    },
                );
                if policy.install_defaults {
                    steps.push(BuildStep::InstallHostDefaults { present_mode: policy.present_mode });
                }
                if !self.limiter_suppressed() && !limiter_registered {
                    steps.push(BuildStep::RegisterLimiter);
                }
                steps.push(BuildStep::SetFramerateCapAtStartup { cap });
            },
        }
        assert(steps@ =~= spec_build(*self, os, limiter_registered));
        steps
    }
}

/// The passthrough mode that installs nothing changes nothing in the host, and
/// the one that installs the host defaults does that and nothing else.
pub proof fn lemma_build_passthrough(
    plugin: QuickResponsePlugin,
    os: TargetOs,
    limiter_registered: bool,
)
    requires
        plugin.spec_mode() is Passthrough,
    ensures
        plugin.spec_mode() == QuickResponseMode::Passthrough(false) ==> spec_build(
            plugin,
            os,
            limiter_registered,
        ) == Seq::<BuildStep>::empty(),
        plugin.spec_mode() == QuickResponseMode::Passthrough(true) ==> spec_build(
            plugin,
            os,
            limiter_registered,
        ) == seq![BuildStep::InstallHostDefaults { present_mode: None }],
{
    if plugin.spec_mode() == QuickResponseMode::Passthrough(true) {
        assert(spec_build(plugin, os, limiter_registered) =~= seq![
            BuildStep::InstallHostDefaults { present_mode: None },
        ]);
    } else {
        assert(spec_build(plugin, os, limiter_registered) =~= Seq::<BuildStep>::empty());
    }
}

/// The event-loop settings go in before anything else: the window backend,
/// which the host defaults bring, has to find them when it starts. They are
/// the first step of every mode but the passthrough one, and no later step
/// inserts them again.
pub proof fn lemma_event_loop_settings_come_first(
    plugin: QuickResponsePlugin,
    os: TargetOs,
    limiter_registered: bool,
)
    requires
        !(plugin.spec_mode() is Passthrough),
    ensures
        spec_build(plugin, os, limiter_registered).len() >= 1,
        spec_build(plugin, os, limiter_registered)[0] == (BuildStep::InsertEventLoopSettings {
            focused: spec_resolve(plugin.spec_mode(), os).focused_cadence,
            unfocused: spec_resolve(plugin.spec_mode(), os).unfocused_cadence,
        }),
        forall|i: int|
            1 <= i < spec_build(plugin, os, limiter_registered).len() ==> !(spec_build(
                plugin,
                os,
                limiter_registered,
            )[i] is InsertEventLoopSettings),
{
}

/// Into a host without the frame limiter, building registers it if and only
/// if the mode is not the passthrough one and the limiter is not suppressed.
/// Whatever the host held before, the limiter is registered afterwards if and
/// only if it was before or this holds.
pub proof fn lemma_limiter_engagement(
    plugin: QuickResponsePlugin,
    os: TargetOs,
    limiter_registered: bool,
)
    ensures
        spec_build(plugin, os, false).contains(BuildStep::RegisterLimiter) <==> !(
        plugin.spec_mode() is Passthrough) && !plugin.spec_limiter_suppressed(),
        spec_limiter_registered_after(
            limiter_registered,
            spec_build(plugin, os, limiter_registered),
        ) <==> limiter_registered || (!(plugin.spec_mode() is Passthrough)
            && !plugin.spec_limiter_suppressed()),
{
    lemma_registers_limiter(plugin, os, false);
    lemma_registers_limiter(plugin, os, limiter_registered);
}

/// When exactly the steps hold a registration of the limiter, and that they
/// never hold two.
pub proof fn lemma_registers_limiter(
    plugin: QuickResponsePlugin,
    os: TargetOs,
    limiter_registered: bool,
)
    ensures
        spec_build(plugin, os, limiter_registered).contains(BuildStep::RegisterLimiter) <==> !(
        plugin.spec_mode() is Passthrough) && !plugin.spec_limiter_suppressed()
            && !limiter_registered,
        forall|i: int, j: int|
            #![trigger spec_build(plugin, os, limiter_registered)[i], spec_build(plugin, os, limiter_registered)[j]]
            0 <= i < spec_build(plugin, os, limiter_registered).len() && 0 <= j < spec_build(
                plugin,
                os,
                limiter_registered,
            ).len() && spec_build(plugin, os, limiter_registered)[i] is RegisterLimiter
                && spec_build(plugin, os, limiter_registered)[j] is RegisterLimiter ==> i == j,
{
    let steps = spec_build(plugin, os, limiter_registered);
    let policy = spec_resolve(plugin.spec_mode(), os);
    if !(plugin.spec_mode() is Passthrough) && !plugin.spec_limiter_suppressed()
        && !limiter_registered {
        let at: int = if policy.install_defaults {
            2
        } else {
            1
        };
        assert(steps[at] == BuildStep::RegisterLimiter);
    }
}

/// The ceiling is set last: every mode but the passthrough one ends its steps
/// with the startup action that writes the mode's `max_fps`, whether the
/// limiter is suppressed or not, and holds that action nowhere else. The
/// passthrough mode holds no such action.
pub proof fn lemma_cap_is_last_step(
    plugin: QuickResponsePlugin,
    os: TargetOs,
    limiter_registered: bool,
)
    ensures
        !(plugin.spec_mode() is Passthrough) ==> spec_build(plugin, os, limiter_registered).len()
            >= 2 && spec_resolve(plugin.spec_mode(), os).framerate_cap.is_some() && spec_build(
            plugin,
            os,
            limiter_registered,
        ).last() == (BuildStep::SetFramerateCapAtStartup {
            cap: spec_resolve(plugin.spec_mode(), os).framerate_cap.unwrap(),
        }),
        forall|i: int|
            0 <= i < spec_build(plugin, os, limiter_registered).len() && spec_build(
                plugin,
                os,
                limiter_registered,
            )[i] is SetFramerateCapAtStartup ==> !(plugin.spec_mode() is Passthrough) && i
                == spec_build(plugin, os, limiter_registered).len() - 1,
{
}

/// The startup action finds the limiter, unless the limiter is suppressed:
/// wherever the steps of a plugin that does not suppress it hold the action
/// that sets the ceiling, the limiter was registered in the host before, or
/// the step just before registers it. Of a plugin that suppresses the limiter
/// this holds only in a host that had the limiter before.
pub proof fn lemma_cap_follows_limiter(
    plugin: QuickResponsePlugin,
    os: TargetOs,
    limiter_registered: bool,
    at: int,
)
    requires
        0 <= at < spec_build(plugin, os, limiter_registered).len(),
        spec_build(plugin, os, limiter_registered)[at] is SetFramerateCapAtStartup,
    ensures
        !plugin.spec_limiter_suppressed() ==> limiter_registered || (at >= 1 && spec_build(
            plugin,
            os,
            limiter_registered,
        )[at - 1] == BuildStep::RegisterLimiter),
        spec_limiter_registered_after(
            limiter_registered,
            spec_build(plugin, os, limiter_registered),
        ) <==> limiter_registered || !plugin.spec_limiter_suppressed(),
        Some(spec_build(plugin, os, limiter_registered)[at]->cap) == spec_resolve(
            plugin.spec_mode(),
            os,
        ).framerate_cap,
{
    lemma_registers_limiter(plugin, os, limiter_registered);
}

/// Building twice against one host registers the frame limiter at most
/// once: where the first build registers it, the second, which finds it
/// registered, does not; and a build into a host that has it never does.
pub proof fn lemma_single_registration(
    first: QuickResponsePlugin,
    second: QuickResponsePlugin,
    os: TargetOs,
    limiter_registered: bool,
)
    ensures
        ({
            let first_steps = spec_build(first, os, limiter_registered);
            let after = spec_limiter_registered_after(limiter_registered, first_steps);
            let second_steps = spec_build(second, os, after);
            &&& first_steps.contains(BuildStep::RegisterLimiter) ==> !second_steps.contains(
                BuildStep::RegisterLimiter,
            )
            &&& limiter_registered ==> !first_steps.contains(BuildStep::RegisterLimiter)
                && !second_steps.contains(BuildStep::RegisterLimiter)
        }),
{
    let first_steps = spec_build(first, os, limiter_registered);
    let after = spec_limiter_registered_after(limiter_registered, first_steps);
    lemma_registers_limiter(first, os, limiter_registered);
    lemma_registers_limiter(second, os, after);
}

} // verus!

//! The host's window configuration for a chosen present mode.

use vstd::prelude::*;
use bevy::window::WindowPlugin;
use crate::policy::PresentMode;

verus! {

/// The host's window plugin, `bevy::window::WindowPlugin`. Its fields are not
/// read here: a value is made by `window_plugin_presenting` and handed on.
#[verifier::external_type_specification]
#[verifier::external_body]
pub struct ExWindowPlugin(bevy::window::WindowPlugin);

/// The window plugin whose primary window presents in the given mode, or in
/// the host's own where none is given, and whose other fields are the host's
/// defaults.
pub uninterp spec fn window_plugin_for(present_mode: Option<PresentMode>) -> WindowPlugin;

/// Builds a `bevy::window::WindowPlugin` by a struct literal over
/// `bevy::window::Window::default()` and `WindowPlugin::default()`, with the
/// primary window's `present_mode` set to the host's variant of the same name,
/// or to `bevy::window::PresentMode::default()` where none is given. Trusted:
/// the plugin depends on the given mode alone.
#[verifier::external_body]
pub(crate) fn window_plugin_presenting(present_mode: Option<PresentMode>) -> (plugin: WindowPlugin)
    ensures
        plugin == window_plugin_for(present_mode),
{
    let present_mode = match present_mode {
        Some(PresentMode::Mailbox) => bevy::window::PresentMode::Mailbox,
        Some(PresentMode::Immediate) => bevy::window::PresentMode::Immediate,
        Some(PresentMode::AutoNoVsync) => bevy::window::PresentMode::AutoNoVsync,
        None => bevy::window::PresentMode::default(),
    };
    WindowPlugin {
        primary_window: Some(bevy::window::Window { present_mode, ..Default::default() }),
        ..Default::default()
    }
}

} // verus!

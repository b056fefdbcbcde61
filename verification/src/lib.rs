//! Quick-response presentation and frame-pacing policy for desktop and game
//! windows: a response mode is resolved, per operating system, into a present
//! mode, an event-loop cadence, a frame-rate cap and the ordered steps that
//! install them into a host application.

pub mod rate;
pub mod mode;
pub mod policy;
pub mod window;
pub mod plugin;
pub mod host;

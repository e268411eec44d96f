//! State-transition notifications for a dashboard of dev-runner environments.
//!
//! The library decides, from successive snapshots of every environment's
//! unit states, which desktop notifications to post and which single sound
//! and spoken summary to play, honouring global and per-unit mute and
//! notification toggles. Playing audio and posting notifications is left to
//! the caller, which performs the [`notifier::Outcome`] returned by
//! [`notifier::Notifier::process`].

pub mod state;
pub mod sound;
pub mod text;
pub mod snapshot;
pub mod notifier;
pub mod laws;
pub mod dashboard;
pub mod cli;
pub mod cards;
pub mod registry;

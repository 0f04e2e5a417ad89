//! Completion racing for secondary dialog surfaces: a single-shot completion
//! slot, the race between an explicit result and a close notification, the
//! registry of active sessions and the coordinator's decisions around them.
pub mod desktop;
pub mod error;
pub mod event_wrappers;
pub mod models;
pub mod registry;
pub mod session;

pub use error::{Error, Result};
pub use models::{DialogInstanceData, DialogResult};

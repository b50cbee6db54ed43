//! A double-buffered, broadcast event queue with independent readers, together
//! with the plain configuration types of a render pipeline.

pub mod asset;
pub mod delivery;
pub mod event;
pub mod event_log;
pub mod render;

pub use event::{EventReader, Events, GetEventReader};
pub use event_log::EventLog;

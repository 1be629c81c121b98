//! Verified core of the Chikachika stream-overlay editor: the ordered overlay
//! document model, its persisted document format, application settings, the
//! delivery-revision hub, and the headless workspace coordinator.

pub mod ids;
pub mod text;
pub mod binary32;
pub mod model;
pub mod hub;
pub mod paths;
pub mod persistence;
pub mod settings;
pub mod server;
pub mod coordinator;
pub mod startup;
pub mod browser;
pub mod forms;

//! The domains of the backend.

pub mod character;
pub mod character_tracking;
pub mod configuration;
pub mod walkthrough;
pub mod economy;
pub mod event_management;
pub mod zone_tracking;

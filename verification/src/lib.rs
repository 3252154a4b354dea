//! Verified core of the POE2 Overlord backend: the domain models, validation
//! rules and state transitions of character management, character tracking,
//! configuration, the economy service and event management.

pub mod errors;
pub mod text;
pub mod time;
pub mod url;
pub mod json;
pub mod domain;
pub mod commands;

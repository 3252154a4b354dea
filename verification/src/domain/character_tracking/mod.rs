//! Character tracking: where a character is, the zones it has visited and the
//! time, visits and deaths recorded in each.

pub mod models;
pub mod service;
pub mod traits;

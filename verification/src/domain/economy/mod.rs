//! Currency exchange data from poe.ninja: its models, how it is fetched and
//! how long it is kept.

pub mod fetch;
pub mod models;
pub mod service;

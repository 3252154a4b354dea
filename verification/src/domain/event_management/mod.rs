//! Event management: event types, subscriptions, sessions and their
//! statistics.

pub mod events;
pub mod models;
pub mod service;

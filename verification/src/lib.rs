//! An event-sourced URL-shortener service: commands append immutable events
//! to an ordered log, a projection derived from that log answers queries,
//! and the service facade keeps the two consistent at every step.

pub mod service;

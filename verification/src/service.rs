//! The service: domain model, error taxonomy, event log, the projection it
//! determines, and the command/query handlers implemented by the facade.

pub mod commands;
pub mod errors;
pub mod event;
pub mod models;
pub mod projection;
pub mod queries;
pub mod url_shortener;

//! Start-up core of a small local content server: it resolves a start-up
//! request into a complete service configuration, renders the addresses
//! the service listens on, and drives the steps that bring the listener up.

pub mod address;
pub mod announce;
pub mod bootstrap;
pub mod config_lin;
pub mod endpoints;
pub mod errors;
pub mod text;

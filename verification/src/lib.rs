//! Instrument reconciliation between crypto exchanges and an instruments database.
pub mod cli;
pub mod collections;
pub mod database;
pub mod error;
pub mod instruments;
pub mod messaging;
pub mod options;
pub mod pattern;
pub mod sources;
pub mod text;

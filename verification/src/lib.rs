//! Resilient ingestion pipeline for window-manager state-change events.
//!
//! The library normalizes raw window-change notifications into canonical
//! `TimeEntry` records and appends them to a durable SQLite store, driven by
//! a supervisor that survives transport and store failures by reconnecting.

pub mod database;
pub mod events;
pub mod normalize;
pub mod supervisor;
pub mod timefmt;

pub use events::WindowEvent;

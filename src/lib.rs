//! File-backed persistence for two JSON documents (settings and database)
//! kept in a per-user application-data directory, and export of a payload
//! as a dated backup file.
//!
//! The library holds the decisions; the host performs the reads, writes and
//! dialogs and hands the outcomes back as plain values.

pub mod backup;
pub mod date;
pub mod json;
pub mod store;

//! A permissioned supply-chain provenance ledger: configuration, user
//! identities, product batches with a bounded audit log, IoT compliance
//! evaluation and certification, each operation gated by role checks.
pub mod state;
pub mod errors;
pub mod events;
pub mod event_log;
pub mod config;
pub mod user;
pub mod handover;
pub mod text;
pub mod batch;
pub mod compliance;
pub mod iot;
pub mod certification;
pub mod laws;

//! Tick ingestion and exactly-once payout settlement for an uptime-monitoring
//! network of independent validators.
//!
//! Validators report liveness observations (ticks) for monitored websites.
//! Every recorded tick credits the reporting validator; a settlement converts
//! the accrued balance into one external transfer, guarded by a write-ahead
//! intent so that no balance is paid twice or lost.

pub mod accounts;
pub mod auth;
pub mod config;
pub mod ingest;
pub mod laws;
pub mod ledger;
pub mod models;
pub mod payout;
pub mod preservation;
pub mod rail;
pub mod reconcile;
pub mod records;
pub mod settlement;
pub mod state;
pub mod text;
pub mod websites;

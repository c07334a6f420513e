//! A single-process accounting and marketplace engine for a carbon-credit
//! economy.
//!
//! The engine tracks each participant's carbon allowance, cumulative
//! emissions and fungible token balance; mediates peer-to-peer trade offers
//! for unused allowance; runs a secondary marketplace for certified carbon
//! credits; records every completed purchase in an append-only transaction
//! ledger; and derives per-account time series and threshold alerts from the
//! raw telemetry stream.
//!
//! Every public operation takes the pre-authenticated caller identity and,
//! where the outcome depends on it, the current time, as plain values: the
//! surrounding host is responsible for authentication and for reading the
//! clock. All state lives in a single [`engine::Engine`] value, and every
//! operation either completes atomically or fails with a typed error while
//! leaving the state untouched.

pub mod engine;
pub mod errors;
pub mod principal;
pub mod types;

pub mod accounts;
pub mod alerts;
pub mod credits;
pub mod laws;
pub mod ledger;
pub mod telemetry;
pub mod trades;

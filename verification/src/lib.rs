//! Schema management and bulk data loading for a Minerva time-series
//! warehouse instance.
//!
//! The library models the desired schema (trend stores, attribute stores,
//! notification stores, relations, trend materializations) as plain value
//! types, computes ordered change lists between two schema instances, and
//! applies those changes against a PostgreSQL database through a small set
//! of trusted wrappers around the `postgres` crate.

pub mod attribute_storage;
pub mod attribute_store;
pub mod admin_cli;
pub mod change;
pub mod cli;
pub mod entity;
pub mod error;
pub mod instance;
pub mod interval;
pub mod meas_value;
pub mod notification_store;
pub mod pg;
pub mod relation;
pub mod service;
pub mod text;
pub mod trend_materialization;
pub mod trend_store;
pub mod trigger;

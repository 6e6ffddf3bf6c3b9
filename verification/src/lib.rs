//! Customer record service for H1B visa-sponsorship data.
//!
//! The library holds the verified core of the service: the data model of a
//! customer record (dates, a currency amount, the enumerated status fields),
//! request validation, the in-memory record store with its create / read /
//! update / delete semantics, and the mapping from service errors to HTTP
//! status codes. Transport plumbing (HTTP routing, JSON encoding) lives
//! outside the library and hands it plain values.

pub mod dates;
pub mod errors;
pub mod laws;
pub mod models;
pub mod money;
pub mod patch;
pub mod requests;
pub mod service;
pub mod store;
pub mod validation;

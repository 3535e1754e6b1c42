//! Routing and correlation core of a multi-tenant script host.
//!
//! The crate keeps a registry of per-tenant runtimes addressed by id, hostname
//! and service name, a selector that creates at most one runtime per tenant
//! release, and the request/response correlation that lets runtimes call each
//! other by service name.

pub mod ids;
pub mod messaging;
pub mod names;
pub mod registry;
pub mod release;
pub mod responses;
pub mod runtime;
pub mod selector;
pub mod storage;

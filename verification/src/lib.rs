//! Verified core of a lightweight fleet-deployment agent.
//!
//! A control client pushes a named repository to a remote daemon, which
//! fetches, unpacks, configures, launches, and supervises it, exposing web
//! applications through a host-based HTTP gateway.  This crate holds the
//! deployment engine itself: the length-framed wire codec, the TLS trust
//! policy, the manifest-driven launch selection, the host-routing gateway
//! table, the versioned rollback store, and the dependency provisioning
//! planner.  All network, filesystem and subprocess work is performed by a
//! thin unverified shell around this library.

pub mod config;
pub mod database;
pub mod discovery;
pub mod framing;
pub mod gateway;
pub mod manifest;
pub mod netpolicy;
pub mod session;
pub mod store;
pub mod strutil;
pub mod tlsmat;

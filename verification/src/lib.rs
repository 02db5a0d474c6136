//! Core of a small HTTP asset server: a shared, path-keyed response cache,
//! an operator command console, a per-request dispatcher, and a synchronous
//! bridge that serializes calls to a sidecar process over a pipe pair.
//!
//! Everything here is plain computation on plain values; the surrounding
//! process (listener, filesystem reads, pipe I/O, signals) hands values in
//! and carries values out.

pub mod admin;
pub mod args;
pub mod asset;
pub mod bridge;
pub mod cache;
pub mod dispatch;
pub mod lifecycle;
pub mod store;

//! A name-service resolver core that answers identity lookups (accounts,
//! groups, shadow records) by proxying them to a remote HTTP directory
//! service.
//!
//! This crate holds the lookup resolution logic: turning a typed query into
//! a request URL, gating shadow lookups on caller privilege, classifying the
//! transport outcome, and decoding JSON response bodies into typed records.
//! The surrounding process (environment reading, the filesystem privilege
//! probe, and the HTTP transport itself) hands plain values in and takes
//! plain values back.

pub mod config;
pub mod decode;
pub mod json;
pub mod lookup;
pub mod privilege;
pub mod records;
pub mod request;
pub mod text;

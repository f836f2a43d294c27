//! Keeps one address record at a Cloudflare-style DNS provider pointing at the
//! caller's public IPv4 address.
//!
//! The library holds the record model, the decision between skipping,
//! creating and updating a record, the handling of the provider's response
//! envelopes, and the description of each provider request. Performing the
//! requests is left to the caller.
pub mod model;
pub mod reconcile;
pub mod provider;
pub mod desired;

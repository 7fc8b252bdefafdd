//! Environment resolution for a named service.
//!
//! The library aggregates a service's runtime environment variables from
//! a versioned configuration backend, a secrets backend, and an optional
//! metadata backend, merging them in a fixed precedence order, expanding
//! dependency URLs, filtering by glob patterns, and applying manual
//! overrides last. Every decision — which request comes next, how a
//! response updates the state, and what the final map holds — is made
//! here and verified; a thin driver performs the network calls and hands
//! the answers back as plain values.

/// Base-address handling shared by the backend clients.
pub mod address;
/// The outcome type a sub-command hands back to the entry point.
pub mod commands;
/// The configuration-backend client state.
pub mod consul;
/// The environment map and its merge, strip and filter operations.
pub mod env;
/// Output formats and the parsing of format names.
pub mod format;
/// The library-wide laws, proved over the specification functions.
pub mod laws;
/// Glob-pattern filtering of variable names.
pub mod patterns;
/// The metadata client model: entry decomposition and bounded retry.
pub mod rancher_metadata;
/// The resolution orchestrator and its specification.
pub mod resolve;
/// The string-keyed association map underlying environments and stores.
pub mod smap;
/// The snapshot of backend answers a resolution runs against.
pub mod store;
/// Verified string helpers: normalisation, trimming, decimal rendering.
pub mod text;
/// The secrets-backend client state and authentication strategy.
pub mod vault;

//! Currency-exchange quotes published as HTML fragments on dolarhoy.com,
//! fetched over TLS and parsed into typed buy/sell price pairs.
//!
//! The catalog of quote kinds, the HTTP status-line parser and the
//! markup-driven price extraction are verified; the network transport
//! lives outside this crate and hands in the raw response text.

/// The response-processing facade tying catalog, parser and extractor
/// together.
pub mod client;
/// The catalog of supported quote kinds and their endpoint and alias tables.
pub mod dolar;
/// The error taxonomy of the client facade.
pub mod error;
/// The HTTP status-line parser and the price extraction layer.
pub mod parser;
/// Verified helpers for comparing and slicing strings.
pub mod texto;

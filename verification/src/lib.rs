//! A streaming bridge that reads a column-oriented statistical table file in
//! fixed-size row batches and exposes each batch as a self-describing columnar
//! buffer for a downstream tabular engine.
//!
//! The library holds the verified core of the bridge: the error taxonomy and
//! status translation, the scalar semantic reinterpretation (date, datetime and
//! time epoch/unit conversions), schema resolution and caching, the batch
//! transport with its buffer-release ownership discipline, and the forward-only
//! stream controller.  The decoding engine itself is an external collaborator;
//! an instrumented in-memory engine stands in for it here so that the caching,
//! ownership and exhaustion laws can be stated and proved.

pub mod batch;
pub mod engine;
pub mod errors;
pub mod reader;
pub mod scalar;
pub mod schema;
pub mod stream;

//! Dual-mode web-content acquisition engine: a direct HTTP fetch path and a
//! rendered headless-browser fetch path, together with a stubbed inference
//! scorer. The decision logic lives here, verified; the surrounding I/O
//! (network transport, browser process, model file loading) is driven by an
//! unverified shell that feeds plain values in and out.

pub mod errors;
pub mod fetch;
pub mod flow;
pub mod headers;
pub mod inference;
pub mod timing;

pub use errors::ErrorKind;
pub use errors::FetchError;

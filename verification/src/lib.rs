//! A live-reload development server for static sites, verified.
//!
//! The library holds the logic of the server: the wrapping version
//! counter that change notifications advance, the resolution of a
//! request path to a candidate file and its index fallback, the
//! response builder that appends the reload snippet to HTML bodies,
//! and the formatting of the `/hot` body and the per-request log line.
//! The surrounding binary does the watching, the reading and the
//! listening, and hands this library plain values.

pub mod config;
pub mod loglines;
pub mod paths;
pub mod respond;
pub mod textfmt;
pub mod utf8check;
pub mod version;

pub use config::ServerConfig;
pub use version::VersionCounter;

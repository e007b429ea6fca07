//! The core of a static-content server: resolving a request path to an asset through an
//! ordered fallback chain, the table of packaged assets, reading the listen address, and the
//! record that each handled request leaves in the log.

pub mod args;
pub mod asset;
pub mod embedded;
pub mod listen;
pub mod request_log;
pub mod request_path;
pub mod resolve;

//! Verified core of a small HTTP service that streams two fixed, read-only
//! binary hint artifacts ("hint files") for two blockchain network variants.
//!
//! Everything the service decides is here, with a proved contract: which
//! route a request hits, which filename a variant maps to, which path the
//! handler opens, and which status, headers and body each reply carries.
//! The process edge — the listener, the open file handle, the lazily read
//! byte stream — stays outside this crate and exchanges plain values with it.

pub mod chain;
pub mod reply;
pub mod router;

pub use chain::Chain;
pub use chain::hints_file_name;
pub use chain::hints_file_path;
pub use reply::Reply;
pub use reply::root_reply;
pub use reply::stream_hints_reply;
pub use router::Route;
pub use router::route_request;
pub use router::str_eq;

//! A typed client binding for a social-media platform's REST API.
//!
//! The crate builds endpoint URLs, assembles query strings and JSON bodies,
//! and maps HTTP outcomes into a closed error taxonomy.  The network itself
//! is driven by the caller: every endpoint method produces a
//! `PreparedRequest` describing exactly one signed HTTP call, and
//! `interpret_response` maps what came back.

pub mod api;
pub mod text;
pub mod types;

pub use api::client::TweetyClient;

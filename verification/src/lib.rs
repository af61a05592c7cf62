//! A bridge between a desktop user interface and a remote messaging-platform
//! management API.
//!
//! The library holds the configuration, plans every HTTP request that a
//! command needs, and turns what came back from the network into the value
//! that the user interface receives. Sending a request is left to the caller:
//! a command returns an [`executor::HttpRequest`], the caller performs it and
//! reports an [`executor::HttpOutcome`], and the library reads that outcome.

pub mod text;
pub mod encoding;
pub mod json;
pub mod executor;
pub mod config;
pub mod payload;
pub mod commands;
pub mod laws;

pub use commands::ApiResponse;
pub use config::{ApiConfig, AppState};
pub use executor::{HttpOutcome, HttpRequest, Method};
pub use payload::{EmbedData, SendEmbedRequest, SendMessageRequest};

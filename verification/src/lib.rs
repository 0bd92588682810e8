//! Authenticated client core for a hashtag-tracking service.
//!
//! The library holds the verified logic of the client: the credential
//! store model, request preparation and response classification, the
//! session lifecycle, the wire codec for posts and tracks, the command
//! dispatch, and the feed subscription state machine. All I/O (terminal,
//! files, network, the async runtime) lives outside, in the application
//! shell, which hands this library plain values and performs the actions
//! it decides on.

pub mod client;
pub mod command;
pub mod errors;
pub mod feed;
pub mod session;
pub mod store;
pub mod text;
pub mod track;
pub mod tweet;

pub use client::{Method, PreparedRequest, Response, TransportOutcome};
pub use command::{Command, ParsedCommand};
pub use errors::{ApiError, CliError};
pub use feed::{FeedEvent, FeedHandle, ProducerAction};
pub use session::Session;
pub use store::CredentialStore;
pub use track::Track;
pub use tweet::PostRecord;

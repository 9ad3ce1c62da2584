//! Client-side supervisor for a background media-cataloging service.
//!
//! The crate models the session and lifecycle protocol of the backend
//! process: reading the per-channel descriptor records, computing the
//! service status, bringing the service up with a bounded discovery poll,
//! and keeping it alive through lease renewals.

pub mod apply;
pub mod bulk;
pub mod channel;
pub mod connect;
pub mod config;
pub mod download;
pub mod error;
pub mod folder;
pub mod import;
pub mod local_data;
pub mod server;
pub mod session;
pub mod setting;
pub mod source_data;
pub mod text;


//! A typed, transport-free client for the Notion web API.
//!
//! Every operation is split at its one round trip. A [`Client`] composes
//! the outbound [`http::Request`]; the caller sends it and hands back the
//! [`http::Response`]; the resource types classify its status and decode
//! its body. Nothing here touches the network, and a client, once built,
//! never changes, so one client serves any number of concurrent calls.
//!
//! - [`client`]: the configuration and the fixed headers of every request.
//! - [`http`]: requests and responses as plain values, and how a response
//!   is classified.
//! - [`pagination`]: the cursor protocol of the endpoints that answer in
//!   pages.
//! - [`json`]: JSON documents and the field readers and writers that the
//!   schemas are built from.
//! - [`block`], [`page`], [`database`], [`user`], [`common`]: the resources,
//!   their schemas and their operations.
//! - [`error`]: what a call can fail with.

pub mod text;
pub mod error;
pub mod json;
pub mod http;
pub mod client;
pub mod pagination;
pub mod common;
pub mod block;
pub mod page;
pub mod database;
pub mod user;

pub use client::Client;
pub use error::{DecodeFailure, Error};

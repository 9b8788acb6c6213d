//! A streaming object store addressed over HTTP.
//!
//! An upload persists a byte stream under a freshly generated identifier;
//! a download streams the bytes of a validated identifier back. This crate
//! holds the decisions of that service: the shape of identifiers, the routing
//! of requests, and the progress of a transfer. The program around it performs
//! the input and output that those decisions ask for.

pub mod download;
pub mod error;
pub mod identifier;
pub mod response;
pub mod router;
pub mod service;
pub mod store;
pub mod upload;

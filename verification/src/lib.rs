//! Request preparation and value model for a client of OCI distribution
//! registries: credentials, client configuration, image references,
//! manifests and the plans that a transport executes.

pub mod auth;
pub mod client;
pub mod config;
pub mod consts;
pub mod data;
pub mod error;
pub mod manifest;
pub mod plan;
pub mod platform;
pub mod reference;
pub mod requests;
pub mod text;

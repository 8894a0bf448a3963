//! Client library for the Philips Hue Bridge local HTTP API: request building,
//! response decoding, error classification and the persisted configuration.
pub mod json;
pub mod error;
pub mod models;
pub mod client;
pub mod logger;
pub mod hue_api;
pub mod config;
pub mod command;

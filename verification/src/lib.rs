//! A verified core for a payment relay: request validation, rate limiting,
//! circuit breaking, device and token management, and transaction storage.
pub mod text;
pub mod collections;
pub mod security;
pub mod error;
pub mod recovery;
pub mod middleware;
pub mod sanitizer;
pub mod digest;
pub mod auth;
pub mod config;
pub mod storage;
pub mod ble;
pub mod logger;
pub mod monitoring;
pub mod scheduler;
pub mod processors;
pub mod blockchain;
pub mod api;

//! Verified request handling for the EC secure-partition services.

pub mod payload;
pub mod service;
pub mod uuid_bytes;
pub mod message_handler;
pub mod services;
pub mod platform;

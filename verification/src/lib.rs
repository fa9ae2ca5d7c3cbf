//! Verified core of a flowmeter data-acquisition service: decoding of
//! Modbus register payloads, transaction request validation, volume-based
//! transaction tracking, WebSocket request routing and the text formats
//! the service produces.

pub mod text;
pub mod error;
pub mod float_bits;
pub mod clock;
pub mod flowmeter;
pub mod models;
pub mod api_service;
pub mod tracking;
pub mod batch;
pub mod parse;
pub mod config;
pub mod formatters;
pub mod socket_server;
pub mod sqlite_queries;
pub mod data_service;

//! Core of an embedded desktop application shell.
//!
//! The heart of the library is a pattern-addressed publish/subscribe event
//! bus with bounded history, together with the connection-resilience state
//! machine that reports its transitions through that bus. Around them stand
//! the data model of the events, the build-progress bookkeeping, and the
//! application configuration values.

pub mod build_logger;
pub mod bus;
pub mod clock;
pub mod config;
pub mod display;
pub mod event;
pub mod ids;
pub mod json_value;
pub mod models;
pub mod pattern;
pub mod plugins;
pub mod text;
pub mod websocket_manager;

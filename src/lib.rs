//! Write path of a log sink that ships batches of log events to a
//! sequence-token-gated remote log stream.

pub mod event;
pub mod encode;
pub mod config;
pub mod remote;
pub mod sequencer;
pub mod healthcheck;
pub mod laws;

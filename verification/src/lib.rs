//! A small web-service toolkit: a configuration loader for a profiling flag
//! and the pure logic of a single-shot heartbeat prober.

pub mod config;
pub mod probe;
pub mod text;

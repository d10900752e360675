//! A small telemetry agent: reads a CPU temperature, derives a per-host topic,
//! and drives the sampling and connection-retry decisions as state machines.

pub mod config;
pub mod connect;
pub mod identity;
pub mod sampling;
pub mod sensor;
pub mod text;

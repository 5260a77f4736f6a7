//! Polling engine for vehicle telemetry: classification of a vehicle's
//! operating state, adaptive poll intervals, the per-vehicle polling loop
//! and the gateway client's request and response rules.

pub mod metrics;
pub mod poller;
pub mod tesla_api_client;
pub mod text;

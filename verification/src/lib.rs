//! A local telemetry agent's verified core: an in-process broadcast event
//! bus, the per-module context that stamps and publishes events, a hardware
//! sensor monitor's query construction and per-tick logic, and a protocol
//! ingester's subscription planning, data-change translation and session
//! state machine.

pub mod event_bus;
pub mod module;
pub mod monitoring;
pub mod opcua;

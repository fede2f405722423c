//! Coordination core of a bridge between a vehicle simulation's telemetry feed
//! and haptic feedback devices.
//!
//! The library holds the data model (settings, telemetry snapshots, commands and
//! updates), the rule engine that maps telemetry changes to device actions, and
//! the three decision units that the runtime drives: the telemetry poller, the
//! device session manager and the coordinator that owns the application state.
//! All of it is plain, synchronous logic; the runtime around it performs the
//! network calls, the device calls and the waiting.

pub mod configuration_manager;
pub mod war_thunder_connector;
pub mod message_passing;
pub mod game_event_processor;
pub mod buttplug_connector;
pub mod application;

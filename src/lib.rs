//! Telemetry sampling, classification and offline-durable delivery engine of a
//! desktop activity agent.
//!
//! The crate holds the decisions of the agent's background loops as verified
//! state machines: the productivity classifier, the idle and power trackers,
//! the app-focus session tracker, the heartbeat composer, the lifecycle run
//! condition, work sessions and the retry-bounded outbox.  Timers, OS probes,
//! storage and network transport are supplied by the caller, which hands each
//! step plain values and acts on what comes back.
pub mod text;
pub mod pattern;
pub mod productivity;
pub mod rules;
pub mod queue;
pub mod usage;
pub mod worksession;
pub mod lifecycle;
pub mod clock;
pub mod idle;
pub mod power;
pub mod heartbeat;
pub mod focus;
pub mod policy;
pub mod logging;
pub mod state;
pub mod appnames;
pub mod report;

//! Instrumentation events of a metered EVM interpreter: gas snapshots and
//! metering events, interpreter lifecycle events in a borrowed and an owned
//! form, and a scoped registry through which one listener receives them.

pub mod gasometer;
pub mod listener;
pub mod events;
pub mod primitives;

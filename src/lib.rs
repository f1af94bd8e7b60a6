// Telemetry collector for a power-metering device: topic routing, strict
// decoding of the device's two JSON documents, the rows and statements that
// persist them, and the control-file driven reload of the log filter.

pub mod config;
pub mod control;
pub mod json;
pub mod records;
pub mod router;
pub mod store;
pub mod watcher;

//! Telemetry bridge for total-dissolved-solids readings: payload decoding,
//! the reading store's ordering rules, and the ingestion state machine.

pub mod decode;
pub mod ingest;
pub mod projection;
pub mod reading;
pub mod store;

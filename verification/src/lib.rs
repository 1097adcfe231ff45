//! Host telemetry collection with a verified NVMe SMART/Health decoder.

pub mod collector;

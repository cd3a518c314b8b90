//! Host telemetry snapshots: the unit conventions and the field-by-field
//! mapping from raw readings to display records.
//!
//! A reading holds what the system reported, as plain values. Each record
//! function turns one reading into the record that is shown for it, and is
//! verified against a `*_record` spec function that says what that record
//! is.

pub mod battery;
pub mod binary;
pub mod component;
pub mod counters;
pub mod cpu;
pub mod deflation;
pub mod disk;
pub mod graphics;
pub mod memory;
pub mod network;
pub mod os;
pub mod process;
pub mod text;
pub mod units;

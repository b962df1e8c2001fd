//! Tracing and load-generation toolkit for an embassy executor.
//!
//! The library holds the wire-level vocabulary shared between the device and
//! the host, the host-side accounting of executor and task time, and the
//! decision logic of the device firmware.

pub mod icd;
pub mod step_list;
pub mod hex;
pub mod exec;
pub mod task;
pub mod keys;
pub mod system;
pub mod burst;
pub mod scenario;
pub mod device;
pub mod laws;

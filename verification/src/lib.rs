//! Phase orchestration engine for a multi-stage acquisition-and-reconstruction
//! workflow: a local controller directs a remote capture device through rounds
//! of image acquisition, synchronizes the resulting images into a local store,
//! supervises an external reconstruction process, and pushes live updates to at
//! most one observer.
//!
//! This crate holds the verified decision core: the workflow state machine,
//! the image synchronization engine's diffing logic, the console transcript
//! and notification message building, and the capture plan handling. The
//! surrounding process (HTTP endpoints, network transport, file system,
//! process spawning) drives these decisions from the outside and performs the
//! actions they return.

pub mod com;
pub mod console;
pub mod hub;
pub mod model;
pub mod parse;
pub mod paths;
pub mod phase;
pub mod store;
pub mod sync;

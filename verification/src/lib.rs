//! USB Mass Storage class engine: Bulk-Only Transport framing, the class
//! control requests, a small SCSI command set and the transport session
//! state machine, all over a block store.

pub mod framing;
pub mod store;
pub mod scsi;
pub mod executor;
pub mod control;
pub mod session;
pub mod class;
pub mod laws;

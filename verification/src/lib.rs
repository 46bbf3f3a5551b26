//! Verified core of a USB Mass-Storage (Bulk-Only Transport) imaging tool.
//!
//! The crate covers the wire-level protocol logic: the fixed-layout BOT
//! frame codec (Command Block Wrapper / Command Status Wrapper), the SCSI
//! command subset (TEST UNIT READY, READ CAPACITY, READ(10), WRITE(10)),
//! the per-command phase discipline of a session, and the chunked transfer
//! engines that drive whole-image flashing and device cloning.  The USB
//! transport itself and all file I/O live outside this crate and feed it
//! plain byte buffers and counts.

use vstd::prelude::*;

pub mod codec;
pub mod devices;
pub mod engine;
pub mod log;
pub mod session;

verus! {

/// Sector size, fixed system-wide.
pub const SECTOR_SIZE: usize = 512;

} // verus!

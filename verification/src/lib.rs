//! Typed memory-mapped I/O register abstraction.
//!
//! Hardware peripheral registers and their bitfields are modelled as typed
//! values, so that drivers can read, write, and read-modify-write specific
//! bit ranges without hand-rolled mask/shift arithmetic scattered through
//! driver code. The bitfield arithmetic and the register views are verified;
//! binding a register block to a fixed device address and performing the
//! actual volatile accesses is left to the unverified outer layer.

pub mod dev;
pub mod mmio;

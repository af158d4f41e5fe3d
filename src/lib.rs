//! A verified core for an 8-bit handheld console processor: register file,
//! flat memory store, cycle clock and the fetch-decode-execute engine.
pub mod clock;
pub mod dmgcpu;
pub mod error;
pub mod instruction;
pub mod memory;
pub mod registers;

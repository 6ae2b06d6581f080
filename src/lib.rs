//! Critical sections for a single hart: run a computation with the
//! machine-mode interrupt enable bit cleared, then put the bit back as it was.
//!
//! The status register is passed around as a value (`register::Mstatus`), so
//! the save and restore discipline of `interrupt::free` is stated and proved
//! over it. The hart is taken to run in machine mode, where the bit can be
//! written.

pub mod register;
pub mod interrupt;

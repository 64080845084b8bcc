//! Trap-handling and boot decisions of a RISC-V machine-mode SBI firmware.
//!
//! Everything that touches a control and status register, executes a fence
//! instruction or waits for an interrupt is left to the caller; this library
//! decides what has to be done and proves that the decision is the right one.

pub mod boot;
pub mod context;
pub mod ecall;
pub mod illegal;
pub mod msoft;
pub mod rfence;
pub mod sbi;

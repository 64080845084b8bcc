//! Numbers fixed by the RISC-V Supervisor Binary Interface, and the pair of
//! words that every SBI call returns.

use vstd::prelude::*;

verus! {

/// Base extension.
pub const EID_BASE: usize = 0x10;
/// Base extension: probe whether an extension is available.
pub const PROBE_EXTENSION: usize = 0x3;
/// Hart state management extension ("HSM").
pub const EID_HSM: usize = 0x48534D;
/// HSM: stop the calling hart.
pub const HART_STOP: usize = 1;
/// HSM: suspend the calling hart.
pub const HART_SUSPEND: usize = 3;
/// HSM suspend type that does not keep the hart's state.
pub const NON_RETENTIVE: u32 = 0x8000_0000;
/// Legacy extension: write a byte to the console.
pub const LEGACY_CONSOLE_PUTCHAR: usize = 1;
/// Legacy extension: read a byte from the console.
pub const LEGACY_CONSOLE_GETCHAR: usize = 2;
/// Error word of a successful call.
pub const RET_SUCCESS: usize = 0;

/// What an SBI call returns in `a0` (`error`) and `a1` (`value`).
#[derive(Clone, Copy, Debug, PartialEq, Eq, Structural)]
pub struct SbiRet {
    pub error: usize,
    pub value: usize,
}

impl SbiRet {
    /// Whether the call succeeded.
    pub fn is_ok(&self) -> (ok: bool)
        ensures
            ok == (self.error == RET_SUCCESS),
    {
        self.error == RET_SUCCESS
    }
}

} // verus!

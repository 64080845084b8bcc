//! The fast trap path: which traps it serves, and what an SBI call from
//! supervisor mode returns.

use vstd::prelude::*;
use crate::boot::PrivilegeMode;
use crate::sbi::{
    SbiRet, EID_BASE, EID_HSM, HART_SUSPEND, LEGACY_CONSOLE_GETCHAR, LEGACY_CONSOLE_PUTCHAR,
    NON_RETENTIVE, PROBE_EXTENSION, RET_SUCCESS,
};

verus! {

/// The cause of a trap into machine mode, as far as the fast path tells
/// causes apart.
#[derive(Clone, Copy, Debug, PartialEq, Eq, Structural)]
pub enum TrapCause {
    SupervisorEnvCall,
    IllegalInstruction,
    Other,
}

/// Whether the fast path serves a trap with cause `cause` taken from
/// privilege mode `mpp`: an SBI call, or an illegal instruction from a mode
/// below machine mode. Any other trap stops the firmware.
pub open spec fn is_served_trap(cause: TrapCause, mpp: PrivilegeMode) -> bool {
    ||| cause == TrapCause::SupervisorEnvCall
    ||| (cause == TrapCause::IllegalInstruction && mpp != PrivilegeMode::Machine)
}

/// Whether the fast path serves a trap with cause `cause` taken from
/// privilege mode `mpp`.
pub fn trap_is_served(cause: TrapCause, mpp: PrivilegeMode) -> (served: bool)
    ensures
        served == is_served_trap(cause, mpp),
{
    match cause {
        TrapCause::SupervisorEnvCall => true,
        TrapCause::IllegalInstruction => match mpp {
            PrivilegeMode::Machine => false,
            _ => true,
        },
        TrapCause::Other => false,
    }
}

/// The fast path serves every SBI call from supervisor mode, an illegal
/// instruction exactly when it comes from user or supervisor mode, and no
/// other trap.
pub proof fn lemma_served_traps(mpp: PrivilegeMode)
    ensures
        is_served_trap(TrapCause::SupervisorEnvCall, mpp),
        is_served_trap(TrapCause::IllegalInstruction, mpp) <==> (mpp == PrivilegeMode::User || mpp
            == PrivilegeMode::Supervisor),
        !is_served_trap(TrapCause::Other, mpp),
{
}

/// How the fast path serves a trap.
#[derive(Clone, Copy, Debug, PartialEq, Eq, Structural)]
pub enum TrapRoute {
    /// An SBI call: hand it to the SBI implementation.
    Ecall,
    /// An illegal instruction from a lower mode: emulate or delegate it.
    IllegalInstruction,
}

/// Route a served trap with cause `cause`, taken from privilege mode `mpp`.
pub fn trap_route(cause: TrapCause, mpp: PrivilegeMode) -> (route: TrapRoute)
    requires
        is_served_trap(cause, mpp),
    ensures
        route == (if cause == TrapCause::SupervisorEnvCall {
            TrapRoute::Ecall
        } else {
            TrapRoute::IllegalInstruction
        }),
{
    match cause {
        TrapCause::SupervisorEnvCall => TrapRoute::Ecall,
        _ => TrapRoute::IllegalInstruction,
    }
}

/// What follows once the SBI implementation has answered a call.
#[derive(Clone, Copy, Debug, PartialEq, Eq, Structural)]
pub enum EcallStep {
    /// A non-retentive suspend: clear `SIE`, set `satp` to bare mode and enter
    /// `start_addr` with the hart id in `a0` and `opaque` in `a1`.
    Resume { start_addr: usize, opaque: usize },
    /// Return `ret` to the caller.
    Return { ret: SbiRet },
    /// A legacy console write of `ch`: perform it, then return
    /// `legacy_console_ret` of its status.
    ConsolePutchar { ch: usize },
    /// A legacy console read: perform it, then return `legacy_console_ret`
    /// of its status.
    ConsoleGetchar,
}

/// An SBI call as the SBI implementation takes it.
#[derive(Clone, Copy, Debug, PartialEq, Eq)]
pub struct SbiCall {
    pub extension: usize,
    pub function: usize,
    pub param: [usize; 6],
}

/// The SBI call in the argument registers `a`: the extension in `a7`, the
/// function in `a6`, the parameters in `a0` to `a5`.
pub fn ecall_arguments(a: &[usize; 8]) -> (call: SbiCall)
    ensures
        call.extension == a[7],
        call.function == a[6],
        call.param@ == a@.subrange(0, 6),
{
    let param = [a[0], a[1], a[2], a[3], a[4], a[5]];
    assert(param@ =~= a@.subrange(0, 6));
    SbiCall { extension: a[7], function: a[6], param }
}

/// The registers with which a resumed hart enters its next stage.
#[derive(Clone, Copy, Debug, PartialEq, Eq, Structural)]
pub struct ResumeEntry {
    pub a0: usize,
    pub a1: usize,
    pub pc: usize,
}

/// Hart `hart_id` resumes at `start_addr` with its hart id in `a0` and
/// `opaque` in `a1`.
pub fn resume_entry(hart_id: usize, start_addr: usize, opaque: usize) -> (entry: ResumeEntry)
    ensures
        entry == (ResumeEntry { a0: hart_id, a1: opaque, pc: start_addr }),
{
    ResumeEntry { a0: hart_id, a1: opaque, pc: start_addr }
}

/// Whether `a0` names one of the legacy console extensions.
pub open spec fn is_legacy_console(eid: usize) -> bool {
    eid == LEGACY_CONSOLE_PUTCHAR || eid == LEGACY_CONSOLE_GETCHAR
}

/// What follows an SBI call made with the argument registers `a` (`a[7]`
/// the extension, `a[6]` the function) and answered with `ret`.
pub open spec fn ecall_step_of(a: Seq<usize>, ret: SbiRet) -> EcallStep {
    if ret.error == RET_SUCCESS {
        if a[7] == EID_HSM && a[6] == HART_SUSPEND && (a[0] as u32) == NON_RETENTIVE {
            EcallStep::Resume { start_addr: a[1], opaque: a[2] }
        } else if a[7] == EID_BASE && a[6] == PROBE_EXTENSION && is_legacy_console(a[0]) {
            EcallStep::Return { ret: SbiRet { error: ret.error, value: 1 } }
        } else {
            EcallStep::Return { ret }
        }
    } else if a[7] == LEGACY_CONSOLE_PUTCHAR {
        EcallStep::ConsolePutchar { ch: a[0] }
    } else if a[7] == LEGACY_CONSOLE_GETCHAR {
        EcallStep::ConsoleGetchar
    } else {
        EcallStep::Return { ret }
    }
}

/// Decide what follows an SBI call made with the argument registers `a`
/// and answered with `ret`: a successful non-retentive suspend resumes at
/// the given address, a successful probe of a legacy console extension
/// reports it available, a failed legacy console call is served by the
/// console, and everything else returns `ret` unchanged.
pub fn ecall_step(a: &[usize; 8], ret: SbiRet) -> (step: EcallStep)
    ensures
        step == ecall_step_of(a@, ret),
{
    if ret.is_ok() {
        #[verifier::truncate]
        let suspend_type = a[0] as u32;
        if a[7] == EID_HSM && a[6] == HART_SUSPEND && suspend_type == NON_RETENTIVE {
            EcallStep::Resume { start_addr: a[1], opaque: a[2] }
        } else if a[7] == EID_BASE && a[6] == PROBE_EXTENSION && (a[0] == LEGACY_CONSOLE_PUTCHAR
            || a[0] == LEGACY_CONSOLE_GETCHAR) {
            EcallStep::Return { ret: SbiRet { error: ret.error, value: 1 } }
        } else {
            EcallStep::Return { ret }
        }
    } else if a[7] == LEGACY_CONSOLE_PUTCHAR {
        EcallStep::ConsolePutchar { ch: a[0] }
    } else if a[7] == LEGACY_CONSOLE_GETCHAR {
        EcallStep::ConsoleGetchar
    } else {
        EcallStep::Return { ret }
    }
}

/// A successful SBI call is answered to the caller exactly as the SBI
/// implementation answered it, unless it is a non-retentive HSM suspend or a
/// base-extension probe of one of the legacy console extensions.
pub proof fn lemma_successful_call_answer_kept(a: Seq<usize>, ret: SbiRet)
    requires
        a.len() == 8,
        ret.error == 0,
        !(a[7] == 0x48534D && a[6] == 3 && (a[0] as u32) == 0x8000_0000u32),
        !(a[7] == 0x10 && a[6] == 3 && (a[0] == 1 || a[0] == 2)),
    ensures
        ecall_step_of(a, ret) == (EcallStep::Return { ret }),
{
}

/// A successful non-retentive HSM suspend (whatever the upper bits of `a0`)
/// resumes the hart at the address in `a1`, with the opaque word of `a2`.
pub proof fn lemma_non_retentive_suspend_resumes(a: Seq<usize>, ret: SbiRet)
    requires
        a.len() == 8,
        ret.error == 0,
        a[7] == 0x48534D,
        a[6] == 3,
        (a[0] as u32) == 0x8000_0000u32,
    ensures
        ecall_step_of(a, ret) == (EcallStep::Resume { start_addr: a[1], opaque: a[2] }),
{
}

/// A successful probe of the legacy console write or read extension reports
/// it available (value 1) with the success error word.
pub proof fn lemma_legacy_console_probe_available(a: Seq<usize>, ret: SbiRet)
    requires
        a.len() == 8,
        ret.error == 0,
        a[7] == 0x10,
        a[6] == 3,
        a[0] == 1 || a[0] == 2,
    ensures
        ecall_step_of(a, ret) == (EcallStep::Return { ret: SbiRet { error: 0, value: 1 } }),
{
}

/// A failed call is served by the console exactly when it is a legacy
/// console call: a write passes the caller's `a0` through unchanged, a read
/// takes nothing; every other failed call returns the answer unchanged.
pub proof fn lemma_failed_call_step(a: Seq<usize>, ret: SbiRet)
    requires
        a.len() == 8,
        ret.error != 0,
    ensures
        a[7] == 1 ==> ecall_step_of(a, ret) == (EcallStep::ConsolePutchar { ch: a[0] }),
        a[7] == 2 ==> ecall_step_of(a, ret) == EcallStep::ConsoleGetchar,
        a[7] != 1 && a[7] != 2 ==> ecall_step_of(a, ret) == (EcallStep::Return { ret }),
{
}

/// What a legacy console call returns: the console's status as the error
/// word and the caller's `a1` as the value.
pub fn legacy_console_ret(status: usize, a: &[usize; 8]) -> (ret: SbiRet)
    ensures
        ret == (SbiRet { error: status, value: a[1] }),
{
    SbiRet { error: status, value: a[1] }
}

/// The argument registers after an SBI call returns `ret`: `a0` and `a1`
/// carry the answer, `a2` to `a7` keep what the caller put there.
pub fn ecall_return_regs(ret: SbiRet, a: &[usize; 8]) -> (regs: [usize; 8])
    ensures
        regs@ == seq![ret.error, ret.value, a[2], a[3], a[4], a[5], a[6], a[7]],
{
    let regs = [ret.error, ret.value, a[2], a[3], a[4], a[5], a[6], a[7]];
    assert(regs@ =~= seq![ret.error, ret.value, a[2], a[3], a[4], a[5], a[6], a[7]]);
    regs
}

/// The `mepc` that returns past the trapping four-byte instruction.
pub fn skip_instruction(mepc: usize) -> (next: usize)
    requires
        mepc + 4 <= usize::MAX,
    ensures
        next == mepc + 4,
{
    mepc + 4
}

} // verus!

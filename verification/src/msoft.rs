//! Machine-software interrupts: starting a hart, parking a stopped one, and
//! inter-processor interrupts.

use vstd::prelude::*;
use crate::boot::PrivilegeMode;
use crate::context::SupervisorContext;
use crate::rfence::{all_fit, handles, LocalRFence, RFenceOutcome};
use crate::sbi::HART_STOP;

verus! {

/// IPI kind: raise a supervisor software interrupt.
pub const IPI_TYPE_SSOFT: u8 = 1;
/// IPI kind: process the remote fence requests.
pub const IPI_TYPE_FENCE: u8 = 2;

/// Where a hart that is being started goes.
#[derive(Clone, Copy, Debug, PartialEq, Eq, Structural)]
pub struct NextStage {
    pub start_addr: usize,
    pub opaque: usize,
    pub next_mode: PrivilegeMode,
}

/// What the machine-software interrupt leads to, besides the changes to the
/// saved context.
#[derive(Clone, Copy, Debug, PartialEq, Eq, Structural)]
pub enum MsoftAction {
    /// The hart was asked to start: clear its software interrupt, set
    /// `MPIE`, set `MPP` to `next_mode`, enable the machine software and
    /// timer interrupts, clear `SIE`, set `satp` to bare mode, and return into
    /// the saved context.
    Boot { next_mode: PrivilegeMode },
    /// The hart is stopped: clear its software interrupt, enable the
    /// machine software interrupt and wait for an interrupt.
    Stop,
    /// An inter-processor interrupt: run the IPI handler.
    Ipi,
}

/// The context with which a started hart enters its next stage: `a0` holds
/// its hart id, `a1` the opaque argument, `mepc` the start address, and
/// every other register is as saved.
pub open spec fn booted(ctx: SupervisorContext, hart_id: usize, start_addr: usize, opaque: usize) -> SupervisorContext {
    SupervisorContext { a0: hart_id, a1: opaque, mepc: start_addr, ..ctx }
}

/// A started hart enters with its hart id in `a0`, the opaque word in `a1`
/// and the start address in `mepc`; every other register is as it was saved.
pub proof fn lemma_booted_registers(ctx: SupervisorContext, hart_id: usize, start_addr: usize, opaque: usize)
    ensures
        ({
            let b = booted(ctx, hart_id, start_addr, opaque);
            &&& b.a0 == hart_id
            &&& b.a1 == opaque
            &&& b.mepc == start_addr
            &&& b.ra == ctx.ra && b.sp == ctx.sp && b.gp == ctx.gp && b.tp == ctx.tp
            &&& b.t0 == ctx.t0 && b.t1 == ctx.t1 && b.t2 == ctx.t2 && b.t3 == ctx.t3
            &&& b.t4 == ctx.t4 && b.t5 == ctx.t5 && b.t6 == ctx.t6
            &&& b.s0 == ctx.s0 && b.s1 == ctx.s1 && b.s2 == ctx.s2 && b.s3 == ctx.s3
            &&& b.s4 == ctx.s4 && b.s5 == ctx.s5 && b.s6 == ctx.s6 && b.s7 == ctx.s7
            &&& b.s8 == ctx.s8 && b.s9 == ctx.s9 && b.s10 == ctx.s10 && b.s11 == ctx.s11
            &&& b.a2 == ctx.a2 && b.a3 == ctx.a3 && b.a4 == ctx.a4 && b.a5 == ctx.a5
            &&& b.a6 == ctx.a6 && b.a7 == ctx.a7
        }),
{
}

fn boot(ctx: &mut SupervisorContext, hart_id: usize, start_addr: usize, opaque: usize)
    ensures
        *final(ctx) == booted(*old(ctx), hart_id, start_addr, opaque),
{
    ctx.a0 = hart_id;
    ctx.a1 = opaque;
    ctx.mepc = start_addr;
}

/// Decide what a machine-software interrupt does on hart `hart_id`, given
/// what the hart state manager answered to the request to start it.
pub fn msoft_hanlder(ctx: &mut SupervisorContext, hart_id: usize, start: Result<NextStage, usize>) -> (action: MsoftAction)
    ensures
        match start {
            Ok(next) => {
                &&& action == MsoftAction::Boot { next_mode: next.next_mode }
                &&& *final(ctx) == booted(*old(ctx), hart_id, next.start_addr, next.opaque)
            },
            Err(e) => {
                &&& *final(ctx) == *old(ctx)
                &&& action == if e == HART_STOP { MsoftAction::Stop } else { MsoftAction::Ipi }
            },
        },
{
    match start {
        Ok(next) => {
            boot(ctx, hart_id, next.start_addr, next.opaque);
            MsoftAction::Boot { next_mode: next.next_mode }
        },
        Err(e) => {
            if e == HART_STOP {
                MsoftAction::Stop
            } else {
                MsoftAction::Ipi
            }
        },
    }
}

/// What an inter-processor interrupt leads to.
#[derive(Debug)]
pub struct IpiAction {
    /// Raise the supervisor software interrupt (`mip.SSIP`).
    pub set_ssoft: bool,
    /// The remote fence requests handled, oldest first.
    pub rfences: Vec<RFenceOutcome>,
}

/// Handle an inter-processor interrupt whose pending kinds are `ipi_type`.
pub fn msoft_ipi_handler(ipi_type: u8, local: &mut LocalRFence) -> (action: IpiAction)
    requires
        ipi_type & IPI_TYPE_FENCE != 0 ==> all_fit(old(local)@),
    ensures
        action.set_ssoft == (ipi_type & IPI_TYPE_SSOFT != 0),
        ipi_type & IPI_TYPE_FENCE != 0 ==> {
            &&& final(local)@.len() == 0
            &&& action.rfences@.len() == old(local)@.len()
            &&& forall|i: int|
                0 <= i < action.rfences@.len() ==> handles(
                    #[trigger] action.rfences@[i],
                    old(local)@[i].0,
                    old(local)@[i].1,
                )
        },
        ipi_type & IPI_TYPE_FENCE == 0 ==> final(local)@ == old(local)@ && action.rfences@.len() == 0,
{
    let set_ssoft = ipi_type & IPI_TYPE_SSOFT != 0;
    let rfences = if ipi_type & IPI_TYPE_FENCE != 0 {
        crate::rfence::rfence_handler(local)
    } else {
        Vec::new()
    };
    IpiAction { set_ssoft, rfences }
}

} // verus!

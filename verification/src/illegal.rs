//! Illegal instructions from supervisor or user mode: reading the `time`
//! counters is emulated, everything else is delegated to supervisor mode.

use vstd::prelude::*;
use crate::boot::PrivilegeMode;

verus! {

/// The `time` counter.
pub const CSR_TIME: u32 = 0xc01;
/// The upper half of the `time` counter, on 32-bit harts.
pub const CSR_TIMEH: u32 = 0xc81;

/// Whether the 32-bit word `w` encodes `csrrs` (opcode SYSTEM, funct3 010).
pub open spec fn is_csrrs(w: u32) -> bool {
    w & 0x7f == 0x73 && (w >> 12u32) & 7 == 2
}

/// The CSR number of a CSR instruction word.
pub open spec fn csr_field(w: u32) -> u32 {
    w >> 20u32
}

/// The destination register of a CSR instruction word.
pub open spec fn rd_field(w: u32) -> u32 {
    (w >> 7u32) & 0x1f
}

/// `riscv_decode::decode` applied to `word`, keeping only a decoded
/// `csrrs`, given back as its instruction word. The contract claims that
/// `decode` answers `Csrrs` exactly for the words with opcode SYSTEM and
/// funct3 `010`, wrapping the word itself, and that it returns on every
/// word.
#[verifier::external_body]
fn decode_csrrs(word: u32) -> (r: Option<u32>)
    ensures
        r == (if is_csrrs(word) { Some(word) } else { None::<u32> }),
{
    match riscv_decode::decode(word) {
        Ok(riscv_decode::Instruction::Csrrs(csr)) => Some(csr.0),
        _ => None,
    }
}

/// Which counter an emulated read targets.
#[derive(Clone, Copy, Debug, PartialEq, Eq, Structural)]
pub enum TimeCsr {
    Time,
    TimeH,
}

/// What becomes of an illegal instruction.
#[derive(Clone, Copy, Debug, PartialEq, Eq, Structural)]
pub enum IllegalOutcome {
    /// A read of a `time` counter into `a<index>`: write the counter there
    /// and return past the instruction.
    ReadTime { csr: TimeCsr, index: usize },
    /// Not emulated: delegate the trap to supervisor mode.
    NotEmulated,
}

/// Whether the word `w` reads a `time` counter with `csrrs`.
pub open spec fn is_time_read(w: u32) -> bool {
    is_csrrs(w) && (csr_field(w) == CSR_TIME || csr_field(w) == CSR_TIMEH)
}

/// Whether the word `w` reads a `time` counter into a register other than
/// `a0`..`a7`, which the firmware refuses with a panic.
pub open spec fn has_unsupported_rd(w: u32) -> bool {
    is_time_read(w) && !(10 <= rd_field(w) <= 17)
}

/// What becomes of the illegal instruction word `w`.
pub open spec fn illegal_outcome(w: u32) -> IllegalOutcome {
    if is_time_read(w) {
        IllegalOutcome::ReadTime {
            csr: if csr_field(w) == CSR_TIME { TimeCsr::Time } else { TimeCsr::TimeH },
            index: (rd_field(w) - 10) as usize,
        }
    } else {
        IllegalOutcome::NotEmulated
    }
}

/// The destination register of a `time` read in the low 32 bits of
/// `mtval` that the firmware refuses, if it is one.
pub fn unsupported_time_rd(mtval: usize) -> (rd: Option<u32>)
    ensures
        rd == (if has_unsupported_rd(mtval as u32) {
            Some(rd_field(mtval as u32))
        } else {
            None::<u32>
        }),
{
    #[verifier::truncate]
    let word = mtval as u32;
    match decode_csrrs(word) {
        Some(w) => {
            let csr = w >> 20u32;
            let rd = (w >> 7u32) & 0x1f;
            if (csr == CSR_TIME || csr == CSR_TIMEH) && !(10 <= rd && rd <= 17) {
                Some(rd)
            } else {
                None
            }
        },
        None => None,
    }
}

/// An emulated counter read only ever writes one of the argument registers
/// `a0`..`a7`, and only for a `csrrs` of `time` or `timeh`, on every word
/// that the handler accepts.
pub proof fn lemma_emulation_targets_argument_registers(w: u32)
    requires
        !has_unsupported_rd(w),
    ensures
        illegal_outcome(w) matches IllegalOutcome::ReadTime { csr, index } ==> {
            &&& index < 8
            &&& is_csrrs(w)
            &&& rd_field(w) == index + 10
            &&& csr_field(w) == (if csr == TimeCsr::Time { CSR_TIME } else { CSR_TIMEH })
        },
{
}

/// The word of `csrrs rd, csr, rs1`.
pub open spec fn csrrs_word(csr: u32, rs1: u32, rd: u32) -> u32 {
    (csr << 20u32) | (rs1 << 15u32) | (2u32 << 12u32) | (rd << 7u32) | 0x73u32
}

proof fn lemma_csrrs_word_fields(csr: u32, rs1: u32, rd: u32)
    requires
        csr < 4096,
        rs1 < 32,
        rd < 32,
    ensures
        csrrs_word(csr, rs1, rd) & 0x7f == 0x73,
        (csrrs_word(csr, rs1, rd) >> 12u32) & 7 == 2,
        csrrs_word(csr, rs1, rd) >> 20u32 == csr,
        (csrrs_word(csr, rs1, rd) >> 7u32) & 0x1f == rd,
{
    let w = csrrs_word(csr, rs1, rd);
    assert(w & 0x7f == 0x73 && (w >> 12u32) & 7 == 2 && w >> 20u32 == csr && (w >> 7u32) & 0x1f
        == rd) by (bit_vector)
        requires
            csr < 4096,
            rs1 < 32,
            rd < 32,
            w == (csr << 20u32) | (rs1 << 15u32) | (2u32 << 12u32) | (rd << 7u32) | 0x73u32,
    ;
}

/// `rdtime` and `rdtimeh` into an argument register are emulated: the word
/// of `csrrs rd, time, rs1` (or `timeh`) with `rd` one of `x10`..`x17` is
/// accepted, and its counter goes into `a<rd - 10>`.
pub proof fn lemma_time_read_into_argument_register(csr: u32, rs1: u32, rd: u32)
    requires
        csr == 0xc01 || csr == 0xc81,
        rs1 < 32,
        10 <= rd <= 17,
    ensures
        !has_unsupported_rd(csrrs_word(csr, rs1, rd)),
        illegal_outcome(csrrs_word(csr, rs1, rd)) == (IllegalOutcome::ReadTime {
            csr: if csr == 0xc01 { TimeCsr::Time } else { TimeCsr::TimeH },
            index: (rd - 10) as usize,
        }),
{
    lemma_csrrs_word_fields(csr, rs1, rd);
}

/// A read of `time` or `timeh` into a register outside `x10`..`x17` is
/// refused, and the refusal names that register.
pub proof fn lemma_time_read_into_other_register(csr: u32, rs1: u32, rd: u32)
    requires
        csr == 0xc01 || csr == 0xc81,
        rs1 < 32,
        rd < 32,
        !(10 <= rd <= 17),
    ensures
        has_unsupported_rd(csrrs_word(csr, rs1, rd)),
        rd_field(csrrs_word(csr, rs1, rd)) == rd,
{
    lemma_csrrs_word_fields(csr, rs1, rd);
}

/// Every word that is not a `csrrs` of `time` or `timeh` (opcode `0x73`,
/// funct3 `010`, CSR `0xc01` or `0xc81`) is accepted and delegated.
pub proof fn lemma_other_words_delegated(w: u32)
    requires
        !(w & 0x7f == 0x73 && (w >> 12u32) & 7 == 2 && (w >> 20u32 == 0xc01 || w >> 20u32 == 0xc81)),
    ensures
        !has_unsupported_rd(w),
        illegal_outcome(w) == IllegalOutcome::NotEmulated,
{
}

/// Decide what to do with an illegal instruction whose word is in the low
/// 32 bits of `mtval`.
pub fn illegal_instruction_handler(mtval: usize) -> (out: IllegalOutcome)
    requires
        !has_unsupported_rd(mtval as u32),
    ensures
        out == illegal_outcome(mtval as u32),
{
    #[verifier::truncate]
    let word = mtval as u32;
    match decode_csrrs(word) {
        Some(w) => {
            let csr = w >> 20u32;
            let rd = (w >> 7u32) & 0x1f;
            if csr == CSR_TIME || csr == CSR_TIMEH {
                let kind = if csr == CSR_TIME { TimeCsr::Time } else { TimeCsr::TimeH };
                IllegalOutcome::ReadTime { csr: kind, index: (rd - 10) as usize }
            } else {
                IllegalOutcome::NotEmulated
            }
        },
        None => IllegalOutcome::NotEmulated,
    }
}

/// The machine trap registers that delegation reads.
#[derive(Clone, Copy, Debug, PartialEq, Eq, Structural)]
pub struct TrapCsrs {
    pub mepc: usize,
    pub mcause: usize,
    pub mtval: usize,
    pub mpp: PrivilegeMode,
    /// The trap vector base address of supervisor mode (`stvec` without its
    /// mode bits).
    pub stvec_address: usize,
}

/// The privilege mode that `sret` returns to.
#[derive(Clone, Copy, Debug, PartialEq, Eq, Structural)]
pub enum SupervisorPrevious {
    User,
    Supervisor,
}

/// The registers that delegation writes; besides these, `sstatus.SIE` is
/// cleared.
#[derive(Clone, Copy, Debug, PartialEq, Eq, Structural)]
pub struct Delegation {
    pub sepc: usize,
    pub scause: usize,
    pub stval: usize,
    pub spp: SupervisorPrevious,
    pub mpp: PrivilegeMode,
    pub mepc: usize,
}

/// Hand a trap to supervisor mode: the supervisor trap registers take the
/// machine ones, `SPP` records whether the trap came from supervisor mode,
/// and `mret` goes to the supervisor trap vector in supervisor mode.
pub fn delegate(csrs: TrapCsrs) -> (d: Delegation)
    ensures
        d.sepc == csrs.mepc,
        d.scause == csrs.mcause,
        d.stval == csrs.mtval,
        d.spp == (if csrs.mpp == PrivilegeMode::Supervisor {
            SupervisorPrevious::Supervisor
        } else {
            SupervisorPrevious::User
        }),
        d.mpp == PrivilegeMode::Supervisor,
        d.mepc == csrs.stvec_address,
{
    let spp = match csrs.mpp {
        PrivilegeMode::Supervisor => SupervisorPrevious::Supervisor,
        _ => SupervisorPrevious::User,
    };
    Delegation {
        sepc: csrs.mepc,
        scause: csrs.mcause,
        stval: csrs.mtval,
        spp,
        mpp: PrivilegeMode::Supervisor,
        mepc: csrs.stvec_address,
    }
}

} // verus!

use prototyper_trap::boot::{get_boot_info, is_boot_hart, BootHartFlag, PrivilegeMode};
use prototyper_trap::context::SupervisorContext;
use prototyper_trap::msoft::{msoft_hanlder, msoft_ipi_handler, MsoftAction, NextStage};
use prototyper_trap::rfence::{LocalRFence, RFenceContext, RFenceType};
use prototyper_trap::sbi::HART_STOP;

fn sample_context() -> SupervisorContext {
    SupervisorContext {
        ra: 1, sp: 2, gp: 3, tp: 4, t0: 5, t1: 6, t2: 7, s0: 8, s1: 9, a0: 10, a1: 11,
        a2: 12, a3: 13, a4: 14, a5: 15, a6: 16, a7: 17, s2: 18, s3: 19, s4: 20, s5: 21,
        s6: 22, s7: 23, s8: 24, s9: 25, s10: 26, s11: 27, t3: 28, t4: 29, t5: 30, t6: 31,
        mepc: 32,
    }
}

#[test]
fn only_the_first_hart_is_the_boot_hart() {
    let mut genesis = BootHartFlag::new();
    assert!(is_boot_hart(&mut genesis, 0));
    assert!(!is_boot_hart(&mut genesis, 0));
    assert!(!is_boot_hart(&mut genesis, 7));
    let mut other = BootHartFlag::new();
    assert!(is_boot_hart(&mut other, 3));
    assert!(!is_boot_hart(&mut other, 3));
}

#[test]
fn boot_info_points_at_the_payload_in_supervisor_mode() {
    let info = get_boot_info(0, 0x8020_0000);
    assert_eq!(info.next_address, 0x8020_0000);
    assert_eq!(info.mpp, PrivilegeMode::Supervisor);
}

#[test]
fn started_hart_enters_next_stage() {
    let mut ctx = sample_context();
    let next = NextStage { start_addr: 0x8020_0000, opaque: 0x8700_0000, next_mode: PrivilegeMode::Supervisor };
    let action = msoft_hanlder(&mut ctx, 3, Ok(next));
    assert_eq!(action, MsoftAction::Boot { next_mode: PrivilegeMode::Supervisor });
    assert_eq!(ctx.a0, 3);
    assert_eq!(ctx.a1, 0x8700_0000);
    assert_eq!(ctx.mepc, 0x8020_0000);
    let before = sample_context();
    assert_eq!(ctx.ra, before.ra);
    assert_eq!(ctx.sp, before.sp);
    assert_eq!(ctx.a2, before.a2);
    assert_eq!(ctx.a7, before.a7);
    assert_eq!(ctx.t6, before.t6);
}

#[test]
fn stopped_hart_parks_and_others_take_the_ipi_path() {
    let mut ctx = sample_context();
    assert_eq!(msoft_hanlder(&mut ctx, 1, Err(HART_STOP)), MsoftAction::Stop);
    assert_eq!(ctx.a0, 10);
    assert_eq!(ctx.mepc, 32);
    assert_eq!(msoft_hanlder(&mut ctx, 1, Err(usize::MAX)), MsoftAction::Ipi);
    assert_eq!(msoft_hanlder(&mut ctx, 1, Err(0)), MsoftAction::Ipi);
    assert_eq!(ctx.a1, 11);
}

fn fence_i() -> RFenceContext {
    RFenceContext { start_addr: 0, size: 0, asid: 0, vmid: 0, op: RFenceType::FenceI }
}

#[test]
fn ipi_kinds_are_told_apart() {
    let mut local = LocalRFence::new();
    local.set(fence_i(), 2);
    let a = msoft_ipi_handler(1, &mut local);
    assert!(a.set_ssoft);
    assert!(a.rfences.is_empty());
    assert!(!local.is_empty());
    let b = msoft_ipi_handler(2, &mut local);
    assert!(!b.set_ssoft);
    assert_eq!(b.rfences.len(), 1);
    assert_eq!(b.rfences[0].ack, Some(2));
    assert!(local.is_empty());
    local.set(fence_i(), 4);
    let c = msoft_ipi_handler(3, &mut local);
    assert!(c.set_ssoft);
    assert_eq!(c.rfences.len(), 1);
    let d = msoft_ipi_handler(0, &mut local);
    assert!(!d.set_ssoft);
    assert!(d.rfences.is_empty());
}

use prototyper_trap::rfence::{
    check_range_fits, rfence_handler, rfence_signle_handler, FenceInstr, LocalRFence, RFenceContext, RFenceType,
    PAGE_SIZE, TLB_FLUSH_LIMIT,
};

fn ctx(op: RFenceType, start_addr: usize, size: usize, asid: usize) -> RFenceContext {
    RFenceContext { start_addr, size, asid, vmid: 0, op }
}

fn one(c: RFenceContext, sender: usize) -> prototyper_trap::rfence::RFenceOutcome {
    let mut local = LocalRFence::new();
    local.set(c, sender);
    let out = rfence_signle_handler(&mut local).expect("a request was queued");
    assert!(local.is_empty());
    out
}

#[test]
fn empty_queue_gives_nothing() {
    let mut local = LocalRFence::new();
    assert!(rfence_signle_handler(&mut local).is_none());
    assert!(rfence_handler(&mut local).is_empty());
}

#[test]
fn fence_i_request() {
    let out = one(ctx(RFenceType::FenceI, 0, 0, 0), 5);
    assert_eq!(out.fences, vec![FenceInstr::FenceI]);
    assert_eq!(out.ack, Some(5));
}

#[test]
fn sfence_vma_full_flushes() {
    let cases = [(0, 0), (0x1000, usize::MAX), (0x1000, TLB_FLUSH_LIMIT + 1), (0, usize::MAX)];
    for (start, size) in cases {
        let out = one(ctx(RFenceType::SFenceVma, start, size, 0), 1);
        assert_eq!(out.fences, vec![FenceInstr::SfenceVmaAll]);
        assert_eq!(out.ack, Some(1));
    }
}

#[test]
fn sfence_vma_ranged_flush_steps_by_page() {
    let out = one(ctx(RFenceType::SFenceVma, 0x8000_1000, 0x2001, 0), 2);
    assert_eq!(
        out.fences,
        vec![
            FenceInstr::SfenceVma { addr: 0x8000_1000 },
            FenceInstr::SfenceVma { addr: 0x8000_2000 },
            FenceInstr::SfenceVma { addr: 0x8000_3000 },
        ]
    );
    let limit = one(ctx(RFenceType::SFenceVma, 0x4000, TLB_FLUSH_LIMIT, 0), 2);
    assert_eq!(limit.fences.len(), TLB_FLUSH_LIMIT / PAGE_SIZE);
    assert_eq!(limit.fences[3], FenceInstr::SfenceVma { addr: 0x4000 + 3 * PAGE_SIZE });
    let single = one(ctx(RFenceType::SFenceVma, 0x10, 1, 0), 2);
    assert_eq!(single.fences, vec![FenceInstr::SfenceVma { addr: 0x10 }]);
}

#[test]
fn sfence_vma_empty_range_is_acknowledged_without_fence() {
    let out = one(ctx(RFenceType::SFenceVma, 0x1000, 0, 0), 6);
    assert!(out.fences.is_empty());
    assert_eq!(out.ack, Some(6));
}

#[test]
fn sfence_vma_asid_requests() {
    let full = one(ctx(RFenceType::SFenceVmaAsid, 0x1000, TLB_FLUSH_LIMIT * 2, 9), 3);
    assert_eq!(full.fences, vec![FenceInstr::SfenceVmaAsidAll { asid: 9 }]);
    let unbounded = one(ctx(RFenceType::SFenceVmaAsid, 0x1000, usize::MAX, 4), 3);
    assert_eq!(unbounded.fences, vec![FenceInstr::SfenceVmaAsidAll { asid: 4 }]);
    let empty_at_zero = one(ctx(RFenceType::SFenceVmaAsid, 0, 0, 5), 3);
    assert_eq!(empty_at_zero.fences, vec![FenceInstr::SfenceVmaAsidAll { asid: 5 }]);
    assert_eq!(empty_at_zero.ack, Some(3));
    let ranged = one(ctx(RFenceType::SFenceVmaAsid, 0x2000, 0x1001, 9), 3);
    assert_eq!(
        ranged.fences,
        vec![
            FenceInstr::SfenceVmaAsid { addr: 0x2000, asid: 9 },
            FenceInstr::SfenceVmaAsid { addr: 0x3000, asid: 9 },
        ]
    );
    assert_eq!(ranged.ack, Some(3));
}

#[test]
fn hypervisor_fences_are_not_acknowledged() {
    for op in [RFenceType::HFenceGvmaVmid, RFenceType::HFenceGvma, RFenceType::HFenceVvmaAsid, RFenceType::HFenceVvma] {
        let out = one(ctx(op, 0x1000, 0x1000, 1), 4);
        assert!(out.fences.is_empty());
        assert_eq!(out.ack, None);
        assert_eq!(out.op, op);
    }
}

#[test]
fn handler_drains_the_queue_oldest_first() {
    let mut local = LocalRFence::new();
    local.set(ctx(RFenceType::FenceI, 0, 0, 0), 1);
    local.set(ctx(RFenceType::HFenceGvma, 0, 0, 0), 2);
    local.set(ctx(RFenceType::SFenceVma, 0x3000, 0x1000, 0), 3);
    let outs = rfence_handler(&mut local);
    assert!(local.is_empty());
    assert_eq!(outs.len(), 3);
    assert_eq!(outs[0].ack, Some(1));
    assert_eq!(outs[0].fences, vec![FenceInstr::FenceI]);
    assert_eq!(outs[1].ack, None);
    assert_eq!(outs[2].ack, Some(3));
    assert_eq!(outs[2].fences, vec![FenceInstr::SfenceVma { addr: 0x3000 }]);
}

#[test]
fn single_handler_takes_the_oldest() {
    let mut local = LocalRFence::new();
    local.set(ctx(RFenceType::FenceI, 0, 0, 0), 7);
    local.set(ctx(RFenceType::SFenceVma, 0, 0, 0), 8);
    let first = rfence_signle_handler(&mut local).unwrap();
    assert_eq!(first.ack, Some(7));
    assert!(!local.is_empty());
    let second = rfence_signle_handler(&mut local).unwrap();
    assert_eq!(second.ack, Some(8));
    assert!(local.is_empty());
}

fn page(a: usize) -> usize {
    a / PAGE_SIZE
}

#[test]
fn aligned_ranged_flush_covers_every_page_of_its_range() {
    let start = 0x8000_1000usize;
    let size = 0x2900usize;
    let out = one(ctx(RFenceType::SFenceVma, start, size, 0), 1);
    for a in start..start + size {
        assert!(out.fences.iter().any(|f| match f {
            FenceInstr::SfenceVma { addr } => page(*addr) == page(a),
            _ => false,
        }));
    }
    for f in &out.fences {
        if let FenceInstr::SfenceVma { addr } = f {
            assert!(start <= *addr && *addr < start + size);
        }
    }
}

#[test]
fn unaligned_ranged_flush_steps_from_its_start() {
    // From 0x800 with size 0x1000 one fence is issued, for the page of 0x800;
    // the page of 0x1000, where the range ends, gets none.
    let out = one(ctx(RFenceType::SFenceVma, 0x800, 0x1000, 0), 1);
    assert_eq!(out.fences, vec![FenceInstr::SfenceVma { addr: 0x800 }]);
    assert!(!out.fences.iter().any(|f| match f {
        FenceInstr::SfenceVma { addr } => page(*addr) == page(0x1000),
        _ => false,
    }));
    let asid = one(ctx(RFenceType::SFenceVmaAsid, 0x8000_0800, 0x2900, 7), 1);
    assert_eq!(
        asid.fences,
        vec![
            FenceInstr::SfenceVmaAsid { addr: 0x8000_0800, asid: 7 },
            FenceInstr::SfenceVmaAsid { addr: 0x8000_1800, asid: 7 },
            FenceInstr::SfenceVmaAsid { addr: 0x8000_2800, asid: 7 },
        ]
    );
}

#[test]
fn no_request_asks_for_more_than_four_fences() {
    for size in [0usize, 1, 0x1000, 0x1001, 0x3fff, TLB_FLUSH_LIMIT, TLB_FLUSH_LIMIT + 1, usize::MAX] {
        for op in [RFenceType::FenceI, RFenceType::SFenceVma, RFenceType::SFenceVmaAsid, RFenceType::HFenceGvma] {
            let out = one(ctx(op, 0x123, size, 1), 1);
            assert!(out.fences.len() <= TLB_FLUSH_LIMIT / PAGE_SIZE);
        }
    }
}

#[test]
fn queueable_ranges_are_checked() {
    assert!(check_range_fits(&ctx(RFenceType::SFenceVma, usize::MAX - 0xfff, 0x1000, 0)));
    assert!(!check_range_fits(&ctx(RFenceType::SFenceVma, usize::MAX - 0xfff, 0x1001, 0)));
    assert!(check_range_fits(&ctx(RFenceType::SFenceVma, usize::MAX, usize::MAX, 0)));
    assert!(check_range_fits(&ctx(RFenceType::SFenceVma, usize::MAX, 0, 0)));
    assert!(check_range_fits(&ctx(RFenceType::SFenceVmaAsid, usize::MAX, 2, 1)));
    assert!(!check_range_fits(&ctx(RFenceType::SFenceVmaAsid, usize::MAX, 0x1001, 1)));
    assert!(check_range_fits(&ctx(RFenceType::FenceI, usize::MAX, 0x2000, 0)));
    let out = one(ctx(RFenceType::SFenceVma, usize::MAX - 0xfff, 0x1000, 0), 1);
    assert_eq!(out.fences, vec![FenceInstr::SfenceVma { addr: usize::MAX - 0xfff }]);
}

#[test]
fn queue_reports_whether_all_requests_fit() {
    let mut local = LocalRFence::new();
    assert!(local.all_fit());
    local.set(ctx(RFenceType::SFenceVma, 0x1000, 0x1000, 0), 1);
    assert!(local.all_fit());
    local.set(ctx(RFenceType::SFenceVma, usize::MAX - 0xfff, 0x2000, 0), 1);
    assert!(!local.all_fit());
}

#[test]
fn every_handled_request_is_acknowledged_to_its_sender_once() {
    let mut local = LocalRFence::new();
    local.set(ctx(RFenceType::FenceI, 0, 0, 0), 1);
    local.set(ctx(RFenceType::HFenceVvma, 0, 0, 0), 1);
    local.set(ctx(RFenceType::SFenceVma, 0x1000, 0x3000, 0), 2);
    local.set(ctx(RFenceType::SFenceVmaAsid, 0, 0, 3), 1);
    let outs = rfence_handler(&mut local);
    let acks = |h: usize| outs.iter().filter(|o| o.ack == Some(h)).count();
    assert_eq!(acks(1), 2);
    assert_eq!(acks(2), 1);
    assert_eq!(acks(3), 0);
    assert_eq!(outs.last().unwrap().ack, Some(1));
    assert_eq!(outs.last().unwrap().fences, vec![FenceInstr::SfenceVmaAsidAll { asid: 3 }]);
}

//! Remote fence requests: the per-hart request queue and the fence
//! instructions that each request asks for.

use vstd::prelude::*;

verus! {

/// Size of a page in bytes.
pub const PAGE_SIZE: usize = 4096;

/// Beyond this many bytes a ranged flush is replaced by a single fence that
/// does not go page by page.
pub const TLB_FLUSH_LIMIT: usize = 16384;

/// The kind of fence that a remote hart asked for.
#[derive(Clone, Copy, Debug, PartialEq, Eq, Structural)]
pub enum RFenceType {
    FenceI,
    SFenceVma,
    SFenceVmaAsid,
    HFenceGvmaVmid,
    HFenceGvma,
    HFenceVvmaAsid,
    HFenceVvma,
}

/// A remote fence request.
#[derive(Clone, Copy, Debug, PartialEq, Eq, Structural)]
pub struct RFenceContext {
    pub start_addr: usize,
    pub size: usize,
    pub asid: usize,
    pub vmid: usize,
    pub op: RFenceType,
}

/// One fence instruction to execute on the local hart.
#[derive(Clone, Copy, Debug, PartialEq, Eq, Structural)]
pub enum FenceInstr {
    /// `fence.i`
    FenceI,
    /// `sfence.vma` with no operand: every address, every address space.
    SfenceVmaAll,
    /// `sfence.vma addr`
    SfenceVma { addr: usize },
    /// `sfence.vma addr, asid`
    SfenceVmaAsid { addr: usize, asid: usize },
    /// `sfence.vma x0, asid`: every address of one address space.
    SfenceVmaAsidAll { asid: usize },
}

/// What handling one request amounts to: the fences to execute, in order,
/// and the hart whose wait counter is to be decremented afterwards.
/// A request of a kind that is not handled gets no fence and no
/// acknowledgement; `op` then names it for the error report.
#[derive(Debug)]
pub struct RFenceOutcome {
    pub op: RFenceType,
    pub fences: Vec<FenceInstr>,
    pub ack: Option<usize>,
}

/// A single request never asks for more than `TLB_FLUSH_LIMIT / PAGE_SIZE`
/// fences: one for `fence.i` or a widened flush, one per page-sized step of
/// a range of at most `TLB_FLUSH_LIMIT` bytes otherwise.
pub proof fn lemma_fences_per_request_bounded(ctx: RFenceContext)
    ensures
        planned_fences(ctx).len() <= TLB_FLUSH_LIMIT / PAGE_SIZE,
{
    if !flushes_all(ctx) && (ctx.op == RFenceType::SFenceVma || ctx.op == RFenceType::SFenceVmaAsid) {
        assert(page_count(ctx.size) <= 4) by (nonlinear_arith)
            requires
                ctx.size <= TLB_FLUSH_LIMIT,
                page_count(ctx.size) == ((ctx.size + PAGE_SIZE - 1) / (PAGE_SIZE as int)) as nat;
    }
}

/// The request kinds that this firmware carries out.
pub open spec fn is_supported(op: RFenceType) -> bool {
    op == RFenceType::FenceI || op == RFenceType::SFenceVma || op == RFenceType::SFenceVmaAsid
}

/// Whether a virtual-memory fence request is served by one fence instead of
/// one fence per page: an empty request at address 0, or a range that is
/// unbounded or larger than `TLB_FLUSH_LIMIT`. For `SFenceVma` that fence
/// covers every address of every address space; for `SFenceVmaAsid` every
/// address of the request's address space.
pub open spec fn flushes_all(ctx: RFenceContext) -> bool {
    ||| (ctx.start_addr == 0 && ctx.size == 0)
    ||| ctx.size == usize::MAX
    ||| ctx.size > TLB_FLUSH_LIMIT
}

/// Number of page-sized steps `0, PAGE_SIZE, 2 * PAGE_SIZE, ...` below `size`.
pub open spec fn page_count(size: usize) -> nat {
    ((size + PAGE_SIZE - 1) / (PAGE_SIZE as int)) as nat
}

/// The `k`-th address of a ranged flush.
pub open spec fn page_addr(ctx: RFenceContext, k: int) -> int {
    ctx.start_addr + k * PAGE_SIZE
}

/// The addresses of a ranged flush all fit in a machine word.
pub open spec fn range_fits(ctx: RFenceContext) -> bool {
    ||| !(ctx.op == RFenceType::SFenceVma || ctx.op == RFenceType::SFenceVmaAsid)
    ||| flushes_all(ctx)
    ||| ctx.size == 0
    ||| page_addr(ctx, page_count(ctx.size) - 1) <= usize::MAX
}

/// Whether the addresses of a ranged flush of `ctx` all fit in a machine
/// word, so that `ctx` can be carried out.
pub fn check_range_fits(ctx: &RFenceContext) -> (fits: bool)
    ensures
        fits == range_fits(*ctx),
{
    let ranged = match ctx.op {
        RFenceType::SFenceVma | RFenceType::SFenceVmaAsid => true,
        _ => false,
    };
    let all = (ctx.start_addr == 0 && ctx.size == 0) || ctx.size == usize::MAX || ctx.size
        > TLB_FLUSH_LIMIT;
    if !ranged || all || ctx.size == 0 {
        true
    } else {
        let last = (ctx.size - 1) / PAGE_SIZE;
        assert(last * PAGE_SIZE <= ctx.size - 1) by (nonlinear_arith)
            requires last == (ctx.size - 1) / (PAGE_SIZE as int), ctx.size >= 1;
        assert(last == page_count(ctx.size) - 1) by (nonlinear_arith)
            requires last == (ctx.size - 1) / (PAGE_SIZE as int), ctx.size >= 1;
        let offset = last * PAGE_SIZE;
        ctx.start_addr <= usize::MAX - offset
    }
}

/// A ranged virtual-memory fence request of at most `TLB_FLUSH_LIMIT` bytes
/// can be carried out exactly when every address `start_addr + k *
/// PAGE_SIZE` below the end of its range is a machine word; in particular
/// every range that ends by the top of the address space can.
pub proof fn lemma_range_fits_iff_steps_fit(ctx: RFenceContext)
    requires
        ctx.op == RFenceType::SFenceVma || ctx.op == RFenceType::SFenceVmaAsid,
        0 < ctx.size <= 16384,
    ensures
        range_fits(ctx) <==> (forall|k: int|
            0 <= k && k * 4096 < ctx.size ==> #[trigger] page_addr(ctx, k) == ctx.start_addr + k
                * 4096 && ctx.start_addr + k * 4096 <= usize::MAX),
        ctx.start_addr + ctx.size <= usize::MAX + 1 ==> range_fits(ctx),
{
    let count = page_count(ctx.size);
    assert((count - 1) * 4096 < ctx.size) by (nonlinear_arith)
        requires count == ((ctx.size + 4096 - 1) / 4096int) as nat, ctx.size > 0;
    assert(count >= 1) by (nonlinear_arith)
        requires count == ((ctx.size + 4096 - 1) / 4096int) as nat, ctx.size > 0;
    if range_fits(ctx) {
        assert forall|k: int| 0 <= k && k * 4096 < ctx.size implies #[trigger] page_addr(ctx, k)
            == ctx.start_addr + k * 4096 && ctx.start_addr + k * 4096 <= usize::MAX by {
            assert(k * 4096 <= (count - 1) * 4096) by (nonlinear_arith)
                requires
                    0 <= k,
                    k * 4096 < ctx.size,
                    count == ((ctx.size + 4096 - 1) / 4096int) as nat;
        }
    }
    if forall|k: int|
        0 <= k && k * 4096 < ctx.size ==> #[trigger] page_addr(ctx, k) == ctx.start_addr + k * 4096
            && ctx.start_addr + k * 4096 <= usize::MAX {
        assert(page_addr(ctx, count - 1) == ctx.start_addr + (count - 1) * 4096);
    }
}

/// The fences that a request asks for.
pub open spec fn planned_fences(ctx: RFenceContext) -> Seq<FenceInstr> {
    match ctx.op {
        RFenceType::FenceI => seq![FenceInstr::FenceI],
        RFenceType::SFenceVma => if flushes_all(ctx) {
            seq![FenceInstr::SfenceVmaAll]
        } else {
            Seq::new(
                page_count(ctx.size),
                |k: int| FenceInstr::SfenceVma { addr: page_addr(ctx, k) as usize },
            )
        },
        RFenceType::SFenceVmaAsid => if flushes_all(ctx) {
            seq![FenceInstr::SfenceVmaAsidAll { asid: ctx.asid }]
        } else {
            Seq::new(
                page_count(ctx.size),
                |k: int| FenceInstr::SfenceVmaAsid { addr: page_addr(ctx, k) as usize, asid: ctx.asid },
            )
        },
        _ => Seq::empty(),
    }
}

/// `out` is what handling the request `ctx`, sent by hart `sender`, amounts to.
pub open spec fn handles(out: RFenceOutcome, ctx: RFenceContext, sender: usize) -> bool {
    &&& out.op == ctx.op
    &&& out.fences@ == planned_fences(ctx)
    &&& out.ack == if is_supported(ctx.op) {
        Some(sender)
    } else {
        None::<usize>
    }
}

/// The ranged flush of a request whose range is neither empty nor too large.
fn page_fences(ctx: RFenceContext) -> (fences: Vec<FenceInstr>)
    requires
        ctx.op == RFenceType::SFenceVma || ctx.op == RFenceType::SFenceVmaAsid,
        !flushes_all(ctx),
        range_fits(ctx),
    ensures
        fences@ == planned_fences(ctx),
{
    let mut fences: Vec<FenceInstr> = Vec::new();
    let mut offset: usize = 0;
    let mut k: usize = 0;
    let ghost count = page_count(ctx.size);
    assert(count * PAGE_SIZE < ctx.size + PAGE_SIZE) by (nonlinear_arith)
        requires count == ((ctx.size + PAGE_SIZE - 1) / (PAGE_SIZE as int)) as nat;
    assert(ctx.size <= count * PAGE_SIZE) by (nonlinear_arith)
        requires count == ((ctx.size + PAGE_SIZE - 1) / (PAGE_SIZE as int)) as nat;
    while offset < ctx.size
        invariant
            ctx.op == RFenceType::SFenceVma || ctx.op == RFenceType::SFenceVmaAsid,
            !flushes_all(ctx),
            range_fits(ctx),
            count == page_count(ctx.size),
            count * PAGE_SIZE < ctx.size + PAGE_SIZE,
            ctx.size <= count * PAGE_SIZE,
            offset == k * PAGE_SIZE,
            k <= count,
            fences@.len() == k,
            forall|j: int| 0 <= j < k ==> #[trigger] fences@[j] == planned_fences(ctx)[j],
        decreases count - k,
    {
        assert(k < count) by (nonlinear_arith)
            requires offset == k * PAGE_SIZE, offset < ctx.size, ctx.size <= count * PAGE_SIZE;
        assert(page_addr(ctx, k as int) <= page_addr(ctx, count - 1));
        let addr = ctx.start_addr + offset;
        let fence = match ctx.op {
            RFenceType::SFenceVma => FenceInstr::SfenceVma { addr },
            _ => FenceInstr::SfenceVmaAsid { addr, asid: ctx.asid },
        };
        fences.push(fence);
        offset = offset + PAGE_SIZE;
        k = k + 1;
    }
    assert(k == count) by (nonlinear_arith)
        requires offset == k * PAGE_SIZE, offset >= ctx.size, count * PAGE_SIZE < ctx.size + PAGE_SIZE, k <= count;
    assert(fences@ =~= planned_fences(ctx));
    fences
}

/// What one request amounts to.
fn plan(ctx: RFenceContext, sender: usize) -> (out: RFenceOutcome)
    requires
        range_fits(ctx),
    ensures
        handles(out, ctx, sender),
{
    match ctx.op {
        RFenceType::FenceI => {
            let fences = vec![FenceInstr::FenceI];
            assert(fences@ =~= planned_fences(ctx));
            RFenceOutcome { op: ctx.op, fences, ack: Some(sender) }
        },
        RFenceType::SFenceVma | RFenceType::SFenceVmaAsid => {
            let all = (ctx.start_addr == 0 && ctx.size == 0) || ctx.size == usize::MAX
                || ctx.size > TLB_FLUSH_LIMIT;
            let fences = if all {
                let f = match ctx.op {
                    RFenceType::SFenceVma => FenceInstr::SfenceVmaAll,
                    _ => FenceInstr::SfenceVmaAsidAll { asid: ctx.asid },
                };
                let v = vec![f];
                assert(v@ =~= planned_fences(ctx));
                v
            } else {
                page_fences(ctx)
            };
            RFenceOutcome { op: ctx.op, fences, ack: Some(sender) }
        },
        _ => {
            let fences: Vec<FenceInstr> = Vec::new();
            assert(fences@ =~= planned_fences(ctx));
            RFenceOutcome { op: ctx.op, fences, ack: None }
        },
    }
}

/// The fence requests waiting for one hart, oldest first, each with the
/// hart that sent it.
pub struct LocalRFence {
    queue: Vec<(RFenceContext, usize)>,
}

impl LocalRFence {
    /// The waiting requests, oldest first.
    pub closed spec fn view(&self) -> Seq<(RFenceContext, usize)> {
        self.queue@
    }

    /// Whether every waiting request can be carried out.
    pub fn all_fit(&self) -> (fits: bool)
        ensures
            fits == all_fit(self@),
    {
        let mut i: usize = 0;
        while i < self.queue.len()
            invariant
                i <= self.queue@.len(),
                forall|j: int| 0 <= j < i ==> range_fits(#[trigger] self.queue@[j].0),
            decreases self.queue@.len() - i,
        {
            if !check_range_fits(&self.queue[i].0) {
                return false;
            }
            i = i + 1;
        }
        true
    }

    /// An empty queue.
    pub fn new() -> (q: Self)
        ensures
            q@ == Seq::<(RFenceContext, usize)>::empty(),
    {
        LocalRFence { queue: Vec::new() }
    }

    /// Whether no request is waiting.
    pub fn is_empty(&self) -> (empty: bool)
        ensures
            empty == (self@.len() == 0),
    {
        self.queue.len() == 0
    }

    /// Queue the request `ctx` from hart `sender` behind the waiting ones.
    pub fn set(&mut self, ctx: RFenceContext, sender: usize)
        ensures
            final(self)@ == old(self)@.push((ctx, sender)),
    {
        self.queue.push((ctx, sender));
    }

    /// Take the oldest waiting request, if any.
    pub fn get(&mut self) -> (front: Option<(RFenceContext, usize)>)
        ensures
            old(self)@.len() == 0 ==> front is None && final(self)@ == old(self)@,
            old(self)@.len() > 0 ==> front == Some(old(self)@[0]) && final(self)@ == old(self)@.drop_first(),
    {
        if self.queue.len() == 0 {
            None
        } else {
            let front = self.queue.remove(0);
            assert(self.queue@ =~= old(self)@.drop_first());
            Some(front)
        }
    }
}

/// Every request in `queue` can be carried out.
pub open spec fn all_fit(queue: Seq<(RFenceContext, usize)>) -> bool {
    forall|i: int| 0 <= i < queue.len() ==> range_fits(#[trigger] queue[i].0)
}

/// Handle the oldest request waiting for this hart, if there is one.
pub fn rfence_signle_handler(local: &mut LocalRFence) -> (out: Option<RFenceOutcome>)
    requires
        old(local)@.len() > 0 ==> range_fits(old(local)@[0].0),
    ensures
        old(local)@.len() == 0 ==> out is None && final(local)@ == old(local)@,
        old(local)@.len() > 0 ==> final(local)@ == old(local)@.drop_first() && (out matches Some(o)
            && handles(o, old(local)@[0].0, old(local)@[0].1)),
{
    match local.get() {
        Some((ctx, sender)) => Some(plan(ctx, sender)),
        None => None,
    }
}

/// Handle every request waiting for this hart, oldest first.
///
/// The queue is left empty and the outcomes stand in the order of the
/// requests they handle.
pub fn rfence_handler(local: &mut LocalRFence) -> (outs: Vec<RFenceOutcome>)
    requires
        all_fit(old(local)@),
    ensures
        final(local)@.len() == 0,
        outs@.len() == old(local)@.len(),
        forall|i: int|
            0 <= i < outs@.len() ==> handles(
                #[trigger] outs@[i],
                old(local)@[i].0,
                old(local)@[i].1,
            ),
{
    let ghost start = local@;
    let mut outs: Vec<RFenceOutcome> = Vec::new();
    while !local.is_empty()
        invariant
            outs@.len() + local@.len() == start.len(),
            local@ == start.skip(outs@.len() as int),
            all_fit(start),
            forall|i: int|
                0 <= i < outs@.len() ==> handles(#[trigger] outs@[i], start[i].0, start[i].1),
        decreases local@.len(),
    {
        let ghost before = local@;
        let out = rfence_signle_handler(local);
        match out {
            Some(o) => {
                assert(before[0] == start[outs@.len() as int]);
                outs.push(o);
                assert(local@ =~= start.skip(outs@.len() as int));
            },
            None => {},
        }
    }
    outs
}

/// How many of `outs` acknowledge a request of hart `sender`.
pub open spec fn acks_for(outs: Seq<RFenceOutcome>, sender: usize) -> nat
    decreases outs.len(),
{
    if outs.len() == 0 {
        0
    } else {
        acks_for(outs.drop_last(), sender) + if outs.last().ack == Some(sender) {
            1nat
        } else {
            0nat
        }
    }
}

/// How many of the requests in `queue` come from hart `sender` and are of a
/// kind that is carried out.
pub open spec fn pending_for(queue: Seq<(RFenceContext, usize)>, sender: usize) -> nat
    decreases queue.len(),
{
    if queue.len() == 0 {
        0
    } else {
        pending_for(queue.drop_last(), sender) + if queue.last().1 == sender && is_supported(
            queue.last().0.op,
        ) {
            1nat
        } else {
            0nat
        }
    }
}

/// Handling a queue gives every sender back exactly as many
/// acknowledgements as it has requests of a handled kind in the queue, so
/// the count of requests a sender waits for returns to where it was.
pub proof fn lemma_acks_match_requests(
    queue: Seq<(RFenceContext, usize)>,
    outs: Seq<RFenceOutcome>,
    sender: usize,
)
    requires
        outs.len() == queue.len(),
        forall|i: int| 0 <= i < outs.len() ==> handles(#[trigger] outs[i], queue[i].0, queue[i].1),
    ensures
        acks_for(outs, sender) == pending_for(queue, sender),
    decreases outs.len(),
{
    if outs.len() > 0 {
        let n = outs.len() - 1;
        assert(handles(outs[n as int], queue[n as int].0, queue[n as int].1));
        assert forall|i: int| 0 <= i < outs.drop_last().len() implies handles(
            #[trigger] outs.drop_last()[i],
            queue.drop_last()[i].0,
            queue.drop_last()[i].1,
        ) by {
            assert(handles(outs[i], queue[i].0, queue[i].1));
        }
        lemma_acks_match_requests(queue.drop_last(), outs.drop_last(), sender);
    }
}

/// A request queued with `set` is handled by the next drain of the queue,
/// last of all, and acknowledged to its sender when it is of a handled kind.
pub proof fn lemma_queued_request_is_handled(
    queue: Seq<(RFenceContext, usize)>,
    ctx: RFenceContext,
    sender: usize,
    outs: Seq<RFenceOutcome>,
)
    requires
        outs.len() == queue.push((ctx, sender)).len(),
        forall|i: int|
            0 <= i < outs.len() ==> handles(
                #[trigger] outs[i],
                queue.push((ctx, sender))[i].0,
                queue.push((ctx, sender))[i].1,
            ),
    ensures
        handles(outs.last(), ctx, sender),
{
    assert(handles(outs[queue.len() as int], queue.push((ctx, sender))[queue.len() as int].0, queue.push((ctx, sender))[queue.len() as int].1));
}

/// The number of the page that holds the address `a`.
pub open spec fn page_of(a: int) -> int {
    a / (PAGE_SIZE as int)
}

/// Whether executing `f` flushes the cached mapping of the page that holds
/// the address `a`, in the address space `asid`. `sfence.vma` with an
/// address flushes the mapping of the page that holds that address.
pub open spec fn fence_covers(f: FenceInstr, asid: usize, a: int) -> bool {
    match f {
        FenceInstr::FenceI => false,
        FenceInstr::SfenceVmaAll => true,
        FenceInstr::SfenceVma { addr } => page_of(a) == page_of(addr as int),
        FenceInstr::SfenceVmaAsid { addr, asid: space } => space == asid && page_of(a) == page_of(
            addr as int,
        ),
        FenceInstr::SfenceVmaAsidAll { asid: space } => space == asid,
    }
}

/// The address spaces that a virtual-memory fence request is about: all of
/// them for `SFenceVma`, the request's own for `SFenceVmaAsid`.
pub open spec fn concerns_space(ctx: RFenceContext, asid: usize) -> bool {
    ctx.op == RFenceType::SFenceVma || (ctx.op == RFenceType::SFenceVmaAsid && asid == ctx.asid)
}

/// What a virtual-memory fence request flushes, in every address space that
/// it is about: a request served by one fence flushes every address; a
/// ranged request flushes the page of each address `start_addr + k *
/// PAGE_SIZE` below the end of its range.
pub proof fn lemma_fence_covers_steps(ctx: RFenceContext, asid: usize, a: int)
    requires
        concerns_space(ctx, asid),
        range_fits(ctx),
        flushes_all(ctx) || exists|k: int|
            0 <= k < page_count(ctx.size) && #[trigger] page_of(page_addr(ctx, k)) == page_of(a),
    ensures
        exists|k: int|
            0 <= k < planned_fences(ctx).len() && fence_covers(
                #[trigger] planned_fences(ctx)[k],
                asid,
                a,
            ),
{
    if flushes_all(ctx) {
        assert(fence_covers(planned_fences(ctx)[0], asid, a));
    } else {
        let count = page_count(ctx.size);
        let k = choose|k: int| 0 <= k < count && #[trigger] page_of(page_addr(ctx, k)) == page_of(a);
        assert(page_addr(ctx, k) <= page_addr(ctx, count - 1));
        assert(fence_covers(planned_fences(ctx)[k], asid, a));
    }
}

/// A virtual-memory fence request whose range starts on a page boundary
/// flushes every address of its range, in every address space that it is
/// about. (A range that starts inside a page can end in a page that no
/// fence reaches: from 0x800 with size 0x1000 only the page of 0x800 is
/// flushed, not that of 0x1000.)
pub proof fn lemma_aligned_fence_covers_range(ctx: RFenceContext, asid: usize, a: int)
    requires
        concerns_space(ctx, asid),
        range_fits(ctx),
        ctx.start_addr % PAGE_SIZE == 0,
        flushes_all(ctx) || ctx.start_addr <= a < ctx.start_addr + ctx.size,
    ensures
        exists|k: int|
            0 <= k < planned_fences(ctx).len() && fence_covers(
                #[trigger] planned_fences(ctx)[k],
                asid,
                a,
            ),
{
    if !flushes_all(ctx) {
        let count = page_count(ctx.size);
        let d = a - ctx.start_addr;
        let k = d / (PAGE_SIZE as int);
        assert(0 <= k && k * PAGE_SIZE <= d < k * PAGE_SIZE + PAGE_SIZE) by (nonlinear_arith)
            requires 0 <= d, k == d / (PAGE_SIZE as int);
        assert(k < count) by (nonlinear_arith)
            requires
                0 <= d < ctx.size,
                k == d / (PAGE_SIZE as int),
                count == ((ctx.size + PAGE_SIZE - 1) / (PAGE_SIZE as int)) as nat;
        let st = ctx.start_addr as int;
        let q = st / (PAGE_SIZE as int);
        assert(st == q * PAGE_SIZE) by (nonlinear_arith)
            requires st % (PAGE_SIZE as int) == 0, q == st / (PAGE_SIZE as int);
        assert(page_addr(ctx, k) == (q + k) * PAGE_SIZE) by (nonlinear_arith)
            requires st == q * PAGE_SIZE, page_addr(ctx, k) == st + k * PAGE_SIZE;
        vstd::arithmetic::div_mod::lemma_fundamental_div_mod_converse(
            page_addr(ctx, k),
            PAGE_SIZE as int,
            q + k,
            0,
        );
        assert(a == (q + k) * PAGE_SIZE + (d - k * PAGE_SIZE)) by (nonlinear_arith)
            requires st == q * PAGE_SIZE, a == st + d;
        vstd::arithmetic::div_mod::lemma_fundamental_div_mod_converse(
            a,
            PAGE_SIZE as int,
            q + k,
            d - k * PAGE_SIZE,
        );
        assert(page_of(page_addr(ctx, k)) == page_of(a));
    }
    lemma_fence_covers_steps(ctx, asid, a);
}

/// The fences of a ranged flush are issued at `start_addr`, `start_addr +
/// PAGE_SIZE`, ... up to the end of the range, one per step, and the count
/// is the number of page-sized steps below `size`.
pub proof fn lemma_ranged_fences_within_range(ctx: RFenceContext, k: int)
    requires
        ctx.op == RFenceType::SFenceVma || ctx.op == RFenceType::SFenceVmaAsid,
        !flushes_all(ctx),
        range_fits(ctx),
        0 <= k < planned_fences(ctx).len(),
    ensures
        planned_fences(ctx).len() == page_count(ctx.size),
        ctx.start_addr <= page_addr(ctx, k) < ctx.start_addr + ctx.size,
        planned_fences(ctx)[k] == (if ctx.op == RFenceType::SFenceVma {
            FenceInstr::SfenceVma { addr: page_addr(ctx, k) as usize }
        } else {
            FenceInstr::SfenceVmaAsid { addr: page_addr(ctx, k) as usize, asid: ctx.asid }
        }),
{
    let count = page_count(ctx.size);
    assert(k * PAGE_SIZE < ctx.size) by (nonlinear_arith)
        requires
            0 <= k < count,
            count == ((ctx.size + PAGE_SIZE - 1) / (PAGE_SIZE as int)) as nat;
}

/// A virtual-memory fence request for 1 to 16384 bytes of a range that
/// fits goes page by page: one fence at `start_addr + k * 4096` for each
/// step `k` with `k * 4096 < size` and no other, plain `sfence.vma` for
/// `SFenceVma` and with the request's address space for `SFenceVmaAsid`.
pub proof fn lemma_small_range_goes_page_by_page(ctx: RFenceContext)
    requires
        ctx.op == RFenceType::SFenceVma || ctx.op == RFenceType::SFenceVmaAsid,
        0 < ctx.size <= 16384,
        range_fits(ctx),
    ensures
        (planned_fences(ctx).len() - 1) * 4096 < ctx.size <= planned_fences(ctx).len() * 4096,
        forall|k: int|
            0 <= k < planned_fences(ctx).len() ==> ctx.start_addr + k * 4096 <= usize::MAX
                && #[trigger] planned_fences(ctx)[k] == (if ctx.op == RFenceType::SFenceVma {
                FenceInstr::SfenceVma { addr: (ctx.start_addr + k * 4096) as usize }
            } else {
                FenceInstr::SfenceVmaAsid {
                    addr: (ctx.start_addr + k * 4096) as usize,
                    asid: ctx.asid,
                }
            }),
{
    let count = page_count(ctx.size);
    assert((count - 1) * 4096 < ctx.size <= count * 4096) by (nonlinear_arith)
        requires count == ((ctx.size + 4096 - 1) / 4096int) as nat, ctx.size > 0;
    assert forall|k: int| 0 <= k < planned_fences(ctx).len() implies ctx.start_addr + k * 4096
        <= usize::MAX && #[trigger] planned_fences(ctx)[k] == (if ctx.op == RFenceType::SFenceVma {
        FenceInstr::SfenceVma { addr: (ctx.start_addr + k * 4096) as usize }
    } else {
        FenceInstr::SfenceVmaAsid { addr: (ctx.start_addr + k * 4096) as usize, asid: ctx.asid }
    }) by {
        assert(k * 4096 <= (count - 1) * 4096) by (nonlinear_arith)
            requires 0 <= k < count;
        assert(page_addr(ctx, k) <= page_addr(ctx, count - 1));
    }
}

/// A virtual-memory fence request that is empty at address 0, unbounded
/// (`usize::MAX` bytes) or larger than 16384 bytes is served by one fence
/// over everything: every address space for `SFenceVma`, the request's
/// address space for `SFenceVmaAsid`.
pub proof fn lemma_large_range_flushes_everything(ctx: RFenceContext)
    requires
        ctx.op == RFenceType::SFenceVma || ctx.op == RFenceType::SFenceVmaAsid,
        (ctx.start_addr == 0 && ctx.size == 0) || ctx.size == usize::MAX || ctx.size > 16384,
    ensures
        planned_fences(ctx) == (if ctx.op == RFenceType::SFenceVma {
            seq![FenceInstr::SfenceVmaAll]
        } else {
            seq![FenceInstr::SfenceVmaAsidAll { asid: ctx.asid }]
        }),
{
}

/// `fence.i` is one `fence.i`; a hypervisor fence asks for nothing. A
/// handled request is acknowledged to its sender exactly when it is a
/// `fence.i` or a supervisor virtual-memory fence.
pub proof fn lemma_other_kinds_and_acks(out: RFenceOutcome, ctx: RFenceContext, sender: usize)
    requires
        handles(out, ctx, sender),
    ensures
        ctx.op == RFenceType::FenceI ==> out.fences@ == seq![FenceInstr::FenceI],
        !(ctx.op == RFenceType::FenceI || ctx.op == RFenceType::SFenceVma || ctx.op
            == RFenceType::SFenceVmaAsid) ==> out.fences@.len() == 0,
        out.ack == Some(sender) <==> (ctx.op == RFenceType::FenceI || ctx.op == RFenceType::SFenceVma
            || ctx.op == RFenceType::SFenceVmaAsid),
        out.ack is None <==> !(ctx.op == RFenceType::FenceI || ctx.op == RFenceType::SFenceVma
            || ctx.op == RFenceType::SFenceVmaAsid),
        out.op == ctx.op,
{
}

} // verus!

//! Election of the boot hart and the boot information handed to the payload.

use vstd::prelude::*;

verus! {

/// A RISC-V privilege mode, as it stands in the `MPP` field of `mstatus`.
#[derive(Clone, Copy, Debug, PartialEq, Eq, Structural)]
pub enum PrivilegeMode {
    User,
    Supervisor,
    Machine,
}

/// Where the next boot stage starts and in which mode it runs.
#[derive(Clone, Copy, Debug)]
pub struct BootInfo {
    pub next_address: usize,
    pub mpp: PrivilegeMode,
}

/// One step of the election: what a hart learns, and what the flag becomes.
pub open spec fn election_step(genesis: bool) -> (bool, bool) {
    (genesis, false)
}

/// What `calls` consecutive harts learn from a flag that starts as `genesis`.
pub open spec fn election(genesis: bool, calls: nat) -> Seq<bool>
    decreases calls,
{
    if calls == 0 {
        Seq::empty()
    } else {
        let (boot, rest) = election_step(genesis);
        seq![boot] + election(rest, (calls - 1) as nat)
    }
}

/// The flag that all harts share to elect the boot hart: unclaimed when it
/// is made, and once claimed it stays claimed, since no operation sets it
/// back.
pub struct BootHartFlag {
    genesis: bool,
}

impl BootHartFlag {
    /// Whether the boot role is still unclaimed.
    pub closed spec fn view(&self) -> bool {
        self.genesis
    }

    /// A flag whose boot role is unclaimed.
    pub fn new() -> (flag: Self)
        ensures
            flag@,
    {
        BootHartFlag { genesis: true }
    }
}

/// Determine whether the current hart is the boot hart.
///
/// The call claims the boot role of `genesis`, so exactly the first caller
/// is told `true`.
pub fn is_boot_hart(genesis: &mut BootHartFlag, _nonstandard_a2: usize) -> (boot: bool)
    ensures
        (boot, final(genesis)@) == election_step(old(genesis)@),
{
    let was = genesis.genesis;
    genesis.genesis = false;
    was
}

/// The boot information of the payload linked into the firmware image:
/// it starts at `image_address` and runs in supervisor mode.
pub fn get_boot_info(_nonstandard_a2: usize, image_address: usize) -> (info: BootInfo)
    ensures
        info.next_address == image_address,
        info.mpp == PrivilegeMode::Supervisor,
{
    BootInfo { next_address: image_address, mpp: PrivilegeMode::Supervisor }
}

/// At most one hart is ever elected: in any run of consecutive calls two
/// distinct calls never both answer `true`, and some call answers `true`
/// exactly when the flag started as `true` and at least one hart asked.
pub proof fn lemma_single_boot_hart(genesis: bool, calls: nat)
    ensures
        election(genesis, calls).len() == calls,
        forall|i: int, j: int|
            0 <= i < j < calls ==> !(#[trigger] election(genesis, calls)[i] && #[trigger] election(
                genesis,
                calls,
            )[j]),
        election(genesis, calls).contains(true) <==> (genesis && calls > 0),
    decreases calls,
{
    if calls > 0 {
        lemma_single_boot_hart(false, (calls - 1) as nat);
        let s = election(genesis, calls);
        let t = election(false, (calls - 1) as nat);
        assert(s == seq![genesis] + t);
        assert forall|k: int| 0 <= k < t.len() implies !t[k] by {
            if t[k] {
                assert(t.contains(true));
            }
        }
        assert forall|i: int, j: int| 0 <= i < j < calls implies !(s[i] && s[j]) by {
            assert(s[j] == t[j - 1]);
        }
        if s.contains(true) {
            let k = choose|k: int| 0 <= k < s.len() && s[k] == true;
            if k > 0 {
                assert(t[k - 1]);
            }
        }
        if genesis {
            assert(s[0] == true);
        }
    }
}

} // verus!

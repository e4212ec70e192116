//! The order of platform calls over a container's life.
//!
//! The container's protection relies on a handful of platform requests (pin,
//! unpin, set protection flags, toggle dump exclusion, wipe).  Issuing them in
//! the wrong order is the dangerous part: wiping after the region was unpinned
//! or while it is still marked no-access, or leaving a region readable after a
//! guard goes away.  This module fixes the order once: each phase of the
//! lifecycle is an explicit plan, a short sequence of [`PlatformAction`]
//! values, and the lemmas below prove what running a plan does to the
//! region's status.  The unverified platform layer only walks a plan and
//! performs each action in turn; every decision about ordering is made, and
//! proved, here.

use vstd::prelude::*;

use crate::region::Region;

verus! {

/// Access level the platform enforces on a region.  Any access that violates
/// the level causes a hard fault, which is the deterrent the design relies
/// on.
#[derive(Clone, Copy, Debug, PartialEq, Eq, Structural)]
pub enum Protection {
    /// Neither reads nor writes are allowed.
    NoAccess,
    /// Reads are allowed, writes fault.
    ReadOnly,
    /// Reads and writes are allowed.
    ReadWrite,
}

/// One request to the platform's memory services.  Every request names the
/// page-aligned region it operates on; partial-page operations are undefined
/// on most platforms, so no action ever takes a bare address.
#[derive(Clone, Copy, Debug, PartialEq, Eq, Structural)]
pub enum PlatformAction {
    /// Keep the region's pages resident: never write them to swap.
    Pin(Region),
    /// Reverse a pin.
    Unpin(Region),
    /// Enforce the given access level on the region.
    SetProtection(Region, Protection),
    /// Best effort: omit the region from crash-dump snapshots.
    ExcludeFromDumps(Region),
    /// Reverse the dump exclusion.
    IncludeInDumps(Region),
    /// Overwrite the secret bytes inside the region with zeroes.
    WipeSecret(Region),
}

/// What the platform believes about a region after a prefix of a plan has
/// run.
pub struct RegionStatus {
    /// The pages are resident and never swapped.
    pub pinned: bool,
    /// The pages are omitted from crash dumps.
    pub excluded: bool,
    /// The access level currently enforced.
    pub prot: Protection,
    /// The secret bytes have been overwritten with zeroes.
    pub wiped: bool,
}

/// The status of a freshly made allocation: swappable, dumpable, writable,
/// and holding its bytes.
pub open spec fn fresh_status() -> RegionStatus {
    RegionStatus { pinned: false, excluded: false, prot: Protection::ReadWrite, wiped: false }
}

/// How one platform request changes the region's status.
pub open spec fn step(s: RegionStatus, a: PlatformAction) -> RegionStatus {
    match a {
        PlatformAction::Pin(_) => RegionStatus { pinned: true, ..s },
        PlatformAction::Unpin(_) => RegionStatus { pinned: false, ..s },
        PlatformAction::SetProtection(_, p) => RegionStatus { prot: p, ..s },
        PlatformAction::ExcludeFromDumps(_) => RegionStatus { excluded: true, ..s },
        PlatformAction::IncludeInDumps(_) => RegionStatus { excluded: false, ..s },
        PlatformAction::WipeSecret(_) => RegionStatus { wiped: true, ..s },
    }
}

/// The status after a whole plan has run, first action first.
pub open spec fn run(s: RegionStatus, plan: Seq<PlatformAction>) -> RegionStatus
    decreases plan.len(),
{
    if plan.len() == 0 {
        s
    } else {
        run(step(s, plan[0]), plan.subrange(1, plan.len() as int))
    }
}

/// How many of the plan's actions wipe the secret.
pub open spec fn wipe_count(plan: Seq<PlatformAction>) -> nat
    decreases plan.len(),
{
    if plan.len() == 0 {
        0
    } else {
        (if plan[0] is WipeSecret {
            1nat
        } else {
            0nat
        }) + wipe_count(plan.subrange(1, plan.len() as int))
    }
}

/// The construction plan: exclude the region from dumps, pin it, then deny
/// all access.  By the time a constructor returns, the secret's pages can
/// neither be swapped nor dumped nor touched.
pub open spec fn construction_seq(r: Region) -> Seq<PlatformAction> {
    seq![
        PlatformAction::ExcludeFromDumps(r),
        PlatformAction::Pin(r),
        PlatformAction::SetProtection(r, Protection::NoAccess),
    ]
}

/// The expose plan: raise the region's protection so a guard can read or
/// write the secret.
pub open spec fn expose_seq(r: Region, level: Protection) -> Seq<PlatformAction> {
    seq![PlatformAction::SetProtection(r, level)]
}

/// The release plan: lower the region back to no-access when a guard goes
/// away, on every exit path.
pub open spec fn release_seq(r: Region) -> Seq<PlatformAction> {
    seq![PlatformAction::SetProtection(r, Protection::NoAccess)]
}

/// The teardown plan: make the region writable again (platforms refuse to
/// mutate or free no-access memory), wipe the secret, unpin, and re-include
/// the region in dumps so the allocation leaves no process-wide trace of its
/// policy.
pub open spec fn teardown_seq(r: Region) -> Seq<PlatformAction> {
    seq![
        PlatformAction::SetProtection(r, Protection::ReadWrite),
        PlatformAction::WipeSecret(r),
        PlatformAction::Unpin(r),
        PlatformAction::IncludeInDumps(r),
    ]
}

/// The construction plan as a value the platform layer can walk.
pub fn construction_plan(r: Region) -> (p: Vec<PlatformAction>)
    ensures
        p@ == construction_seq(r),
{
    let mut p: Vec<PlatformAction> = Vec::new();
    p.push(PlatformAction::ExcludeFromDumps(r));
    p.push(PlatformAction::Pin(r));
    p.push(PlatformAction::SetProtection(r, Protection::NoAccess));
    proof {
        assert(p@ =~= construction_seq(r));
    }
    p
}

/// The expose plan as a value.  A guard only ever raises protection to a
/// readable level; lowering it back is the release plan's job.
pub fn expose_plan(r: Region, level: Protection) -> (p: Vec<PlatformAction>)
    requires
        level != Protection::NoAccess,
    ensures
        p@ == expose_seq(r, level),
{
    let mut p: Vec<PlatformAction> = Vec::new();
    p.push(PlatformAction::SetProtection(r, level));
    proof {
        assert(p@ =~= expose_seq(r, level));
    }
    p
}

/// The release plan as a value.
pub fn release_plan(r: Region) -> (p: Vec<PlatformAction>)
    ensures
        p@ == release_seq(r),
{
    let mut p: Vec<PlatformAction> = Vec::new();
    p.push(PlatformAction::SetProtection(r, Protection::NoAccess));
    proof {
        assert(p@ =~= release_seq(r));
    }
    p
}

/// The teardown plan as a value.
pub fn teardown_plan(r: Region) -> (p: Vec<PlatformAction>)
    ensures
        p@ == teardown_seq(r),
{
    let mut p: Vec<PlatformAction> = Vec::new();
    p.push(PlatformAction::SetProtection(r, Protection::ReadWrite));
    p.push(PlatformAction::WipeSecret(r));
    p.push(PlatformAction::Unpin(r));
    p.push(PlatformAction::IncludeInDumps(r));
    proof {
        assert(p@ =~= teardown_seq(r));
    }
    p
}

/// Law (default deny after construction): running the construction plan on a
/// fresh allocation leaves it pinned, dump-excluded and inaccessible, with
/// the secret still intact.
pub proof fn lemma_construction_denies(r: Region)
    ensures
        run(fresh_status(), construction_seq(r)) == (RegionStatus {
            pinned: true,
            excluded: true,
            prot: Protection::NoAccess,
            wiped: false,
        }),
{
    reveal_with_fuel(run, 5);
    assert(construction_seq(r).subrange(1, 3).subrange(1, 2) =~= seq![
        PlatformAction::SetProtection(r, Protection::NoAccess),
    ]);
    assert(construction_seq(r).subrange(1, 3) =~= seq![
        PlatformAction::Pin(r),
        PlatformAction::SetProtection(r, Protection::NoAccess),
    ]);
}

/// Law (default deny after release): whatever state a guard left the region
/// in, running the release plan denies all access again and changes nothing
/// else.
pub proof fn lemma_release_denies(s: RegionStatus, r: Region)
    ensures
        run(s, release_seq(r)) == (RegionStatus { prot: Protection::NoAccess, ..s }),
{
    reveal_with_fuel(run, 2);
    assert(release_seq(r).subrange(1, 1) =~= Seq::<PlatformAction>::empty());
}

/// Law (expose/release round trip): raising protection for a guard and
/// lowering it on release returns the region to the denied state it started
/// from; repeated exposure is safe.
pub proof fn lemma_expose_release_round_trip(s: RegionStatus, r: Region, level: Protection)
    requires
        s.prot == Protection::NoAccess,
    ensures
        run(run(s, expose_seq(r, level)), release_seq(r)) == s,
{
    reveal_with_fuel(run, 2);
    assert(expose_seq(r, level).subrange(1, 1) =~= Seq::<PlatformAction>::empty());
    lemma_release_denies(run(s, expose_seq(r, level)), r);
}

/// Law (teardown order): the teardown plan wipes the secret exactly once,
/// and at the moment of the wipe the region has already been made writable
/// but is still pinned and still dump-excluded; only after the wipe is it
/// unpinned.  The plan ends with the region back in its ordinary state:
/// swappable, dumpable, writable — and wiped.
pub proof fn lemma_teardown_order(s: RegionStatus, r: Region)
    ensures
        wipe_count(teardown_seq(r)) == 1,
        teardown_seq(r)[1] == PlatformAction::WipeSecret(r),
        run(s, teardown_seq(r).subrange(0, 1)).prot == Protection::ReadWrite,
        run(s, teardown_seq(r).subrange(0, 1)).pinned == s.pinned,
        run(s, teardown_seq(r).subrange(0, 1)).excluded == s.excluded,
        forall|j: int|
            0 <= j < teardown_seq(r).len() && teardown_seq(r)[j] is Unpin ==> j > 1,
        run(s, teardown_seq(r)) == (RegionStatus {
            pinned: false,
            excluded: false,
            prot: Protection::ReadWrite,
            wiped: true,
        }),
{
    reveal_with_fuel(run, 6);
    reveal_with_fuel(wipe_count, 6);
    let t = teardown_seq(r);
    assert(t.subrange(0, 1) =~= seq![PlatformAction::SetProtection(r, Protection::ReadWrite)]);
    assert(t.subrange(0, 1).subrange(1, 1) =~= Seq::<PlatformAction>::empty());
    let t1 = t.subrange(1, 4);
    let t2 = t1.subrange(1, 3);
    let t3 = t2.subrange(1, 2);
    assert(t1 =~= seq![
        PlatformAction::WipeSecret(r),
        PlatformAction::Unpin(r),
        PlatformAction::IncludeInDumps(r),
    ]);
    assert(t2 =~= seq![PlatformAction::Unpin(r), PlatformAction::IncludeInDumps(r)]);
    assert(t3 =~= seq![PlatformAction::IncludeInDumps(r)]);
    assert(t3.subrange(1, 1) =~= Seq::<PlatformAction>::empty());
}

} // verus!

use vstd::prelude::*;

use crate::lifecycle::cache_after_start;
use crate::lifecycle::cache_after_stop;
use crate::lifecycle::cache_after_wipe;
use crate::lifecycle::rel_after_init;
use crate::lifecycle::rel_after_start;
use crate::lifecycle::rel_after_stop;
use crate::lifecycle::rel_after_wipe;
use crate::lifecycle::CachePhase;
use crate::lifecycle::RelPhase;

verus! {

/// One step of a combined operation, in the order the embedding binary must
/// perform them.
#[derive(Clone, Copy, PartialEq, Eq, Structural, Debug)]
pub enum Step {
    /// The full relational Stop operation (probe, graceful, fallback).
    StopRelational,
    /// The full cache Stop operation (probe, shutdown command).
    StopCache,
    /// Delete the relational data directory in full; failures are swallowed.
    WipeRelationalData,
    /// Delete the cache working directory in full; failures are swallowed.
    WipeCacheDir,
    /// The full relational Initialize operation.
    InitializeRelational,
    /// The full relational Start operation.
    StartRelational,
    /// The full cache Start operation.
    StartCache,
}

/// How one step moves the relational service's phase, assuming the step's
/// own fatal failures terminate the invocation instead of yielding a phase.
pub open spec fn rel_step_effect(s: Step, ph: RelPhase) -> RelPhase {
    match s {
        Step::StopRelational => rel_after_stop(ph),
        Step::WipeRelationalData => rel_after_wipe(ph),
        Step::InitializeRelational => rel_after_init(ph),
        Step::StartRelational => rel_after_start(ph),
        _ => ph,
    }
}

pub open spec fn cache_step_effect(s: Step, ph: CachePhase) -> CachePhase {
    match s {
        Step::StopCache => cache_after_stop(ph),
        Step::WipeCacheDir => cache_after_wipe(ph),
        Step::StartCache => cache_after_start(ph),
        _ => ph,
    }
}

/// The relational phase after performing a whole plan in order.
pub open spec fn rel_run(plan: Seq<Step>, ph: RelPhase) -> RelPhase
    decreases plan.len(),
{
    if plan.len() == 0 {
        ph
    } else {
        rel_run(plan.drop_first(), rel_step_effect(plan[0], ph))
    }
}

pub open spec fn cache_run(plan: Seq<Step>, ph: CachePhase) -> CachePhase
    decreases plan.len(),
{
    if plan.len() == 0 {
        ph
    } else {
        cache_run(plan.drop_first(), cache_step_effect(plan[0], ph))
    }
}

/// Up: start the relational service first, then the cache service. Either
/// failure is fatal inside its own step; there is no rollback of a
/// partially started pair.
pub open spec fn spec_up_plan() -> Seq<Step> {
    seq![Step::StartRelational, Step::StartCache]
}

/// Down: stop the relational service first, then the cache service. Both
/// stops are idempotent, so Down is safe in any state.
pub open spec fn spec_down_plan() -> Seq<Step> {
    seq![Step::StopRelational, Step::StopCache]
}

/// Reset: stop both services, wipe both directories, then re-drive the pair
/// through Initialize and the two Starts. The wipes come strictly after the
/// stops and strictly before the re-initialization.
pub open spec fn spec_reset_plan() -> Seq<Step> {
    seq![
        Step::StopRelational,
        Step::StopCache,
        Step::WipeRelationalData,
        Step::WipeCacheDir,
        Step::InitializeRelational,
        Step::StartRelational,
        Step::StartCache,
    ]
}

pub fn up_plan() -> (v: Vec<Step>)
    ensures
        v@ == spec_up_plan(),
{
    let mut v: Vec<Step> = Vec::new();
    v.push(Step::StartRelational);
    v.push(Step::StartCache);
    proof {
        assert(v@ =~= spec_up_plan());
    }
    v
}

pub fn down_plan() -> (v: Vec<Step>)
    ensures
        v@ == spec_down_plan(),
{
    let mut v: Vec<Step> = Vec::new();
    v.push(Step::StopRelational);
    v.push(Step::StopCache);
    proof {
        assert(v@ =~= spec_down_plan());
    }
    v
}

pub fn reset_plan() -> (v: Vec<Step>)
    ensures
        v@ == spec_reset_plan(),
{
    let mut v: Vec<Step> = Vec::new();
    v.push(Step::StopRelational);
    v.push(Step::StopCache);
    v.push(Step::WipeRelationalData);
    v.push(Step::WipeCacheDir);
    v.push(Step::InitializeRelational);
    v.push(Step::StartRelational);
    v.push(Step::StartCache);
    proof {
        assert(v@ =~= spec_reset_plan());
    }
    v
}

/// Reset ends with both services running, whatever phase either service was
/// in beforehand — never started, running, or stopped with a stale pid file
/// left behind (a stale pid file changes which stop actions run, never the
/// resulting phase). On the way, both directories pass through the wiped
/// state: the relational service is `Uninitialized` again immediately after
/// its wipe step, before being re-initialized and restarted.
pub proof fn lemma_reset_ends_running(rp: RelPhase, cp: CachePhase)
    ensures
        rel_run(spec_reset_plan(), rp) is Running,
        cache_run(spec_reset_plan(), cp) is Running,
        rel_run(spec_reset_plan().take(3), rp) is Uninitialized,
        cache_run(spec_reset_plan().take(4), cp) is Stopped,
{
    reveal_with_fuel(rel_run, 9);
    reveal_with_fuel(cache_run, 9);
    assert(rel_run(spec_reset_plan(), rp) is Running);
    assert(cache_run(spec_reset_plan(), cp) is Running);
    assert(rel_run(spec_reset_plan().take(3), rp) is Uninitialized);
    assert(cache_run(spec_reset_plan().take(4), cp) is Stopped);
}

/// Down is safe to run in any state and is idempotent at the phase level:
/// after one Down neither service runs, and a second Down changes nothing.
pub proof fn lemma_down_idempotent(rp: RelPhase, cp: CachePhase)
    ensures
        rel_run(spec_down_plan(), rp) !is Running,
        cache_run(spec_down_plan(), cp) is Stopped,
        rel_run(spec_down_plan(), rel_run(spec_down_plan(), rp)) == rel_run(
            spec_down_plan(),
            rp,
        ),
        cache_run(spec_down_plan(), cache_run(spec_down_plan(), cp)) == cache_run(
            spec_down_plan(),
            cp,
        ),
{
    reveal_with_fuel(rel_run, 4);
    reveal_with_fuel(cache_run, 4);
}

} // verus!

use vstd::prelude::*;

verus! {

/// Externally observed lifecycle phase of the relational service. The
/// library never stores a phase: each operation re-derives it from scratch
/// out of the initialization marker, the pid file and a network probe.
#[derive(Clone, Copy, PartialEq, Eq, Structural, Debug)]
pub enum RelPhase {
    /// The data directory has never completed one-time initialization.
    Uninitialized,
    /// Initialized, but no server answers on the configured endpoint.
    Stopped,
    /// A server process answers the liveness probe.
    Running,
}

/// Externally observed lifecycle phase of the cache service, which has no
/// separate initialization: its first start creates the working directory.
#[derive(Clone, Copy, PartialEq, Eq, Structural, Debug)]
pub enum CachePhase {
    Stopped,
    Running,
}

/// What one inspection of the relational service's side channels yields.
#[derive(Clone, Copy, Debug)]
pub struct RelObs {
    /// The initialization marker file exists in the data directory.
    pub marker_present: bool,
    /// The process id recorded in the pid file, if the file exists and its
    /// first line parses. A stale pid file may survive a crashed server, so
    /// presence does not imply reachability.
    pub pid: Option<u32>,
    /// The liveness probe (a handshake against the administrative
    /// maintenance database) succeeded.
    pub reachable: bool,
}

/// What one inspection of the cache service yields: only a network probe,
/// a connect plus one trivial round-trip command.
#[derive(Clone, Copy, Debug)]
pub struct CacheObs {
    pub reachable: bool,
}

/// How an observation relates to the phase the external engines are really
/// in. The marker exists exactly when initialization has completed; the
/// probe answers exactly when a server runs; a running server has written
/// its pid file; an uninitialized service has no data directory and hence
/// no pid file. A *stopped* service may or may not leave a stale pid file
/// behind, so nothing is said about `pid` in that phase.
pub open spec fn rel_obs_ok(ph: RelPhase, o: RelObs) -> bool {
    &&& o.marker_present == (ph !is Uninitialized)
    &&& o.reachable == (ph is Running)
    &&& (ph is Running ==> o.pid is Some)
    &&& (ph is Uninitialized ==> o.pid is None)
}

pub open spec fn cache_obs_ok(ph: CachePhase, o: CacheObs) -> bool {
    o.reachable == (ph is Running)
}

/// Phase after a completed Initialize operation. Initialization is a no-op
/// on an already initialized directory; on success the external tool leaves
/// the directory initialized (and nothing is started). A failing tool
/// terminates the whole invocation, so no "after" phase exists for it.
pub open spec fn rel_after_init(ph: RelPhase) -> RelPhase {
    if ph is Uninitialized {
        RelPhase::Stopped
    } else {
        ph
    }
}

/// Phase after a successful Start. Start is only meaningful from the
/// stopped phase: from `Uninitialized` or `Running` the external control
/// tool fails and the invocation terminates instead of reaching a phase.
pub open spec fn rel_after_start(ph: RelPhase) -> RelPhase
    recommends
        ph is Stopped,
{
    if ph is Stopped {
        RelPhase::Running
    } else {
        ph
    }
}

/// Phase after a completed Stop, whichever path it took: an already stopped
/// or never-initialized service is left untouched.
pub open spec fn rel_after_stop(ph: RelPhase) -> RelPhase {
    if ph is Running {
        RelPhase::Stopped
    } else {
        ph
    }
}

/// Phase after deleting the data directory: everything, marker included,
/// is gone.
pub open spec fn rel_after_wipe(ph: RelPhase) -> RelPhase {
    RelPhase::Uninitialized
}

pub open spec fn cache_after_start(ph: CachePhase) -> CachePhase {
    CachePhase::Running
}

pub open spec fn cache_after_stop(ph: CachePhase) -> CachePhase {
    CachePhase::Stopped
}

pub open spec fn cache_after_wipe(ph: CachePhase) -> CachePhase {
    CachePhase::Stopped
}

/// What the Initialize operation does next, given whether the marker file
/// was observed.
#[derive(Clone, Copy, PartialEq, Eq, Structural, Debug)]
pub enum InitDecision {
    /// Report "already initialized" and return; no external action at all.
    AlreadyInitialized,
    /// Run the external initialization tool.
    RunInit,
}

pub open spec fn spec_init_decision(marker_present: bool) -> InitDecision {
    if marker_present {
        InitDecision::AlreadyInitialized
    } else {
        InitDecision::RunInit
    }
}

pub fn init_decide(marker_present: bool) -> (d: InitDecision)
    ensures
        d == spec_init_decision(marker_present),
        d is AlreadyInitialized <==> marker_present,
{
    if marker_present {
        InitDecision::AlreadyInitialized
    } else {
        InitDecision::RunInit
    }
}

/// What a Stop operation does next, given the presence signal it probes
/// first (pid file for the relational service, reachability for the cache).
#[derive(Clone, Copy, PartialEq, Eq, Structural, Debug)]
pub enum StopDecision {
    /// Treat as already stopped; no external action, immediate success.
    AlreadyStopped,
    /// Issue the graceful stop action.
    IssueStop,
}

pub open spec fn spec_rel_stop_decision(pid: Option<u32>) -> StopDecision {
    if pid is Some {
        StopDecision::IssueStop
    } else {
        StopDecision::AlreadyStopped
    }
}

pub fn rel_stop_decide(pid: Option<u32>) -> (d: StopDecision)
    ensures
        d == spec_rel_stop_decision(pid),
        d is IssueStop <==> pid is Some,
{
    match pid {
        Some(_) => StopDecision::IssueStop,
        None => StopDecision::AlreadyStopped,
    }
}

pub open spec fn spec_cache_stop_decision(reachable: bool) -> StopDecision {
    if reachable {
        StopDecision::IssueStop
    } else {
        StopDecision::AlreadyStopped
    }
}

pub fn cache_stop_decide(reachable: bool) -> (d: StopDecision)
    ensures
        d == spec_cache_stop_decision(reachable),
        d is IssueStop <==> reachable,
{
    if reachable {
        StopDecision::IssueStop
    } else {
        StopDecision::AlreadyStopped
    }
}

/// What the relational Stop does after the graceful stop action came back:
/// nothing more on success; on failure (a wedged server, say one stuck in
/// single-user recovery) a forceful kill signal routed at the recorded
/// process id, if one is still recorded.
#[derive(Clone, Copy, PartialEq, Eq, Structural, Debug)]
pub enum StopFollowup {
    /// Nothing further; report the stop as done.
    Finished,
    /// Send a forceful kill to this process id, pause briefly for the
    /// operating system to reap it, then still report the stop as done.
    ForceKill(u32),
}

pub open spec fn spec_stop_followup(graceful_ok: bool, pid: Option<u32>) -> StopFollowup {
    if graceful_ok {
        StopFollowup::Finished
    } else {
        match pid {
            Some(p) => StopFollowup::ForceKill(p),
            None => StopFollowup::Finished,
        }
    }
}

pub fn rel_stop_followup(graceful_ok: bool, pid: Option<u32>) -> (f: StopFollowup)
    ensures
        f == spec_stop_followup(graceful_ok, pid),
        graceful_ok ==> f is Finished,
        !graceful_ok ==> (pid matches Some(p) ==> f == StopFollowup::ForceKill(p)),
{
    if graceful_ok {
        StopFollowup::Finished
    } else {
        match pid {
            Some(p) => StopFollowup::ForceKill(p),
            None => StopFollowup::Finished,
        }
    }
}

/// How a whole operation ends. `Fatal` means the embedding process must
/// terminate with a non-zero status and a diagnostic.
#[derive(Clone, Copy, PartialEq, Eq, Structural, Debug)]
pub enum Outcome {
    Success,
    Fatal,
}

pub open spec fn spec_init_outcome(marker_present: bool, tool_ok: Option<bool>) -> Outcome {
    if marker_present || tool_ok == Some(true) {
        Outcome::Success
    } else {
        Outcome::Fatal
    }
}

/// Outcome of Initialize. `tool_ok` is the initialization tool's exit
/// signal, present exactly when the tool was decided to run; the already
/// initialized no-op path is always a success.
pub fn rel_init_outcome(marker_present: bool, tool_ok: Option<bool>) -> (r: Outcome)
    requires
        tool_ok is Some <==> !marker_present,
    ensures
        r == spec_init_outcome(marker_present, tool_ok),
        r is Success <==> (marker_present || tool_ok == Some(true)),
{
    if marker_present {
        Outcome::Success
    } else {
        match tool_ok {
            Some(true) => Outcome::Success,
            _ => Outcome::Fatal,
        }
    }
}

/// Outcome of a Start, for either service: exactly the external tool's
/// success signal.
pub fn start_outcome(tool_ok: bool) -> (r: Outcome)
    ensures
        r is Success <==> tool_ok,
{
    if tool_ok {
        Outcome::Success
    } else {
        Outcome::Fatal
    }
}

/// Stop never fails. This constant is the policy, stated once: an absent
/// presence signal is an idempotent no-op, a failed graceful stop falls
/// back to the forceful kill, and the kill's own exit signal is not
/// consulted.
pub open spec fn spec_stop_outcome() -> Outcome {
    Outcome::Success
}

/// Outcome of the relational Stop. `graceful_ok` is the graceful stop
/// action's exit signal, present exactly when the pid file made the
/// operation issue one.
pub fn rel_stop_outcome(pid: Option<u32>, graceful_ok: Option<bool>) -> (r: Outcome)
    requires
        graceful_ok is Some <==> pid is Some,
    ensures
        r == spec_stop_outcome(),
        r is Success,
{
    Outcome::Success
}

/// Outcome of the cache Stop: a no-op when unreachable, otherwise the
/// shutdown command is issued and the stop reported done either way.
pub fn cache_stop_outcome(reachable: bool) -> (r: Outcome)
    ensures
        r == spec_stop_outcome(),
        r is Success,
{
    Outcome::Success
}

/// Exit status of the fatal Check operation: zero exactly when the probe
/// answered.
pub open spec fn spec_check_exit(reachable: bool) -> int {
    if reachable {
        0
    } else {
        1
    }
}

pub fn check_exit_code(reachable: bool) -> (c: i32)
    ensures
        c == spec_check_exit(reachable),
        c == 0 <==> reachable,
{
    if reachable {
        0
    } else {
        1
    }
}

/// Initialize is idempotent: whatever phase the service started in, a
/// second Initialize observes the marker that the first one established (or
/// found), decides against running the tool, and reports success. Across
/// the two calls the external initialization tool therefore runs at most
/// once — on the first call, and only from the uninitialized phase.
pub proof fn lemma_initialize_idempotent(ph: RelPhase, o1: RelObs, o2: RelObs)
    requires
        rel_obs_ok(ph, o1),
        rel_obs_ok(rel_after_init(ph), o2),
    ensures
        spec_init_decision(o1.marker_present) == InitDecision::RunInit <==> ph
            is Uninitialized,
        spec_init_decision(o2.marker_present) == InitDecision::AlreadyInitialized,
        spec_init_outcome(o2.marker_present, None) == Outcome::Success,
        rel_after_init(rel_after_init(ph)) == rel_after_init(ph),
{
}

/// Stop is idempotent for both services: a second stop starts from a
/// non-running phase and leaves it unchanged, and no stop ever reports
/// failure. Moreover a stopped cache service answers no probe, so the
/// second cache stop decides no action at all.
pub proof fn lemma_stop_idempotent(rp: RelPhase, cp: CachePhase, o2: CacheObs)
    requires
        cache_obs_ok(cache_after_stop(cp), o2),
    ensures
        rel_after_stop(rel_after_stop(rp)) == rel_after_stop(rp),
        rel_after_stop(rp) !is Running,
        cache_after_stop(cache_after_stop(cp)) == cache_after_stop(cp),
        spec_cache_stop_decision(o2.reachable) == StopDecision::AlreadyStopped,
        spec_stop_outcome() == Outcome::Success,
{
}

/// Check succeeds after a start: starting from any non-running phase,
/// Initialize-then-Start leaves the relational service reachable, and Start
/// leaves the cache service reachable, so Check exits zero for both.
pub proof fn lemma_check_after_start(
    rp: RelPhase,
    cp: CachePhase,
    o: RelObs,
    c: CacheObs,
)
    requires
        rp !is Running,
        rel_obs_ok(rel_after_start(rel_after_init(rp)), o),
        cache_obs_ok(cache_after_start(cp), c),
    ensures
        o.reachable,
        spec_check_exit(o.reachable) == 0,
        c.reachable,
        spec_check_exit(c.reachable) == 0,
{
}

/// Check fails on a fresh configuration: before anything was initialized or
/// started, neither service answers its probe, so Check exits non-zero for
/// both.
pub proof fn lemma_check_fresh_fails(o: RelObs, c: CacheObs)
    requires
        rel_obs_ok(RelPhase::Uninitialized, o),
        cache_obs_ok(CachePhase::Stopped, c),
    ensures
        spec_check_exit(o.reachable) != 0,
        spec_check_exit(c.reachable) != 0,
{
}

/// The two-tier stop policy: when the graceful stop action fails while a
/// process id is recorded, the follow-up is the forceful kill at exactly
/// that id — and the operation still reports success.
pub proof fn lemma_stop_forceful_fallback(p: u32)
    ensures
        spec_stop_followup(false, Some(p)) == StopFollowup::ForceKill(p),
        spec_stop_outcome() == Outcome::Success,
{
}

} // verus!

//! The script runtime: its lifecycle, its pending work, and the decisions of
//! the event-loop drain. The engine that evaluates script text reports what
//! each piece of script code did; the runtime decides what runs next.
use vstd::prelude::*;
use crate::modules::{install_outcome, BuiltinModule, ModuleSet};
use crate::ops::{decl_names, unique_names, ModuleInstallationError, OpDecl, OpRegistry};
use crate::permissions::{PermissionDenied, PermissionGate};

verus! {

/// The lifecycle of a runtime:
/// `Constructed -> EntryExecuted -> Draining -> Drained | Faulted`.
#[derive(Clone, Copy, Debug, PartialEq, Eq, Structural)]
pub enum Phase {
    Constructed,
    EntryExecuted,
    Draining,
    Drained,
    Faulted,
}

/// An uncaught error of script code, with its message and source location.
#[derive(Clone, Debug)]
pub struct ScriptError {
    pub message: String,
    pub location: String,
}

/// A scheduled timer: the continuation it runs and the tick it is due at.
#[derive(Clone, Copy, Debug, PartialEq, Eq, Structural)]
pub struct Timer {
    pub callback: u64,
    pub due: u64,
}

/// What the drain loop does next.
#[derive(Clone, Copy, Debug, PartialEq, Eq, Structural)]
pub enum DrainStep {
    /// Run this continuation, then report its outcome.
    Run(u64),
    /// Nothing is ready; wait for an outstanding network completion.
    AwaitNetwork,
    /// No ready work and nothing outstanding: the loop is drained.
    Finished,
    /// The runtime is not in a phase that may drain.
    Halted,
}

/// The state of a runtime's scheduler.
pub struct SchedulerView {
    pub phase: Phase,
    pub now: u64,
    /// Ready continuations, in enqueue order.
    pub ready: Seq<u64>,
    /// Timers, in scheduling order.
    pub timers: Seq<Timer>,
    /// Outstanding network requests.
    pub in_flight: Seq<u64>,
}

/// Whether script code may run and schedule work in phase `p`.
pub open spec fn script_may_run(p: Phase) -> bool {
    p == Phase::EntryExecuted || p == Phase::Draining
}

/// Whether the scheduler holds no work at all.
pub open spec fn idle(s: SchedulerView) -> bool {
    s.ready.len() == 0 && s.timers.len() == 0 && s.in_flight.len() == 0
}

/// The index of the first timer with the smallest due tick: timers due at
/// the same tick fire in scheduling order.
pub open spec fn earliest_index(ts: Seq<Timer>) -> int
    decreases ts.len(),
{
    if ts.len() <= 1 {
        0
    } else {
        let k = earliest_index(ts.drop_last());
        if ts.last().due < ts[k].due {
            ts.len() - 1
        } else {
            k
        }
    }
}

/// `a + b`, or the largest `u64` where that overflows.
pub open spec fn saturating_sum(a: u64, b: u64) -> u64 {
    if a + b > u64::MAX {
        u64::MAX
    } else {
        (a + b) as u64
    }
}

/// One decision of the drain loop: the next state and the action.
pub open spec fn step_spec(s: SchedulerView) -> (SchedulerView, DrainStep) {
    if s.phase == Phase::Constructed || s.phase == Phase::Faulted {
        (s, DrainStep::Halted)
    } else if s.ready.len() > 0 {
        (SchedulerView { phase: Phase::Draining, ready: s.ready.drop_first(), ..s }, DrainStep::Run(s.ready[0]))
    } else if s.timers.len() > 0 {
        let k = earliest_index(s.timers);
        let t = s.timers[k];
        (
            SchedulerView {
                phase: Phase::Draining,
                now: if t.due > s.now { t.due } else { s.now },
                timers: s.timers.remove(k),
                ..s
            },
            DrainStep::Run(t.callback),
        )
    } else if s.in_flight.len() > 0 {
        (SchedulerView { phase: Phase::Draining, ..s }, DrainStep::AwaitNetwork)
    } else {
        (SchedulerView { phase: Phase::Drained, ..s }, DrainStep::Finished)
    }
}

/// The actions of the drain loop from `s`, for at most `fuel` decisions,
/// where each continuation that runs succeeds and schedules nothing.
pub open spec fn drain_trace(s: SchedulerView, fuel: nat) -> Seq<DrainStep>
    decreases fuel,
{
    if fuel == 0 {
        seq![]
    } else {
        let (t, a) = step_spec(s);
        match a {
            DrainStep::Run(_) => seq![a] + drain_trace(t, (fuel - 1) as nat),
            _ => seq![a],
        }
    }
}

/// The state after the entry script's top-level code reported `ok`.
pub open spec fn entry_spec(s: SchedulerView, ok: bool) -> SchedulerView {
    SchedulerView { phase: if ok { Phase::EntryExecuted } else { Phase::Faulted }, ..s }
}

/// The state after scheduling a timer for `callback`, `delay` ticks ahead.
pub open spec fn schedule_timer_spec(s: SchedulerView, callback: u64, delay: u64) -> SchedulerView {
    SchedulerView {
        timers: s.timers.push(Timer { callback, due: saturating_sum(s.now, delay) }),
        ..s
    }
}

/// The state after scheduling a timer for each of `callbacks`, in order,
/// all with the same delay.
pub open spec fn schedule_all_spec(s: SchedulerView, callbacks: Seq<u64>, delay: u64) -> SchedulerView
    decreases callbacks.len(),
{
    if callbacks.len() == 0 {
        s
    } else {
        schedule_timer_spec(
            schedule_all_spec(s, callbacks.drop_last(), delay),
            callbacks.last(),
            delay,
        )
    }
}

/// `after` is `before` with the request at `k` completed and `callback`
/// queued.
pub open spec fn completed_fetch_view(before: SchedulerView, after: SchedulerView, k: int, callback: u64) -> bool {
    after == (SchedulerView {
        in_flight: before.in_flight.remove(k),
        ready: before.ready.push(callback),
        ..before
    })
}

/// The runtime: gate, modules and ops wired together, and the scheduler.
pub struct ScriptRuntime<P: PermissionGate> {
    gate: P,
    modules: ModuleSet,
    ops: OpRegistry,
    phase: Phase,
    now: u64,
    ready: Vec<u64>,
    timers: Vec<Timer>,
    in_flight: Vec<u64>,
}

impl<P: PermissionGate> ScriptRuntime<P> {
    pub closed spec fn view(&self) -> SchedulerView {
        SchedulerView {
            phase: self.phase,
            now: self.now,
            ready: self.ready@,
            timers: self.timers@,
            in_flight: self.in_flight@,
        }
    }

    pub closed spec fn gate_spec(&self) -> P {
        self.gate
    }

    pub closed spec fn modules_spec(&self) -> Seq<BuiltinModule> {
        self.modules@
    }

    pub closed spec fn ops_spec(&self) -> Seq<Seq<char>> {
        self.ops@
    }

    /// Wires a runtime: installs the modules of `order` strictly in that
    /// order, then registers `ops`; any collision or missing prerequisite
    /// fails the construction.
    pub fn new(gate: P, order: &Vec<BuiltinModule>, ops: Vec<OpDecl>) -> (r: Result<
        ScriptRuntime<P>,
        ModuleInstallationError,
    >)
        ensures
            r is Ok <==> install_outcome(order@) is Ok && unique_names(decl_names(ops@)),
            install_outcome(order@) matches Err(e) ==> r matches Err(x) && x == e,
            install_outcome(order@) is Ok && !unique_names(decl_names(ops@)) ==> r matches Err(
                ModuleInstallationError::DuplicateOp(_),
            ),
            r matches Ok(rt) ==> rt@ == (SchedulerView {
                phase: Phase::Constructed,
                now: 0,
                ready: seq![],
                timers: seq![],
                in_flight: seq![],
            }) && rt.gate_spec() == gate && rt.modules_spec() == order@ && rt.ops_spec()
                == decl_names(ops@),
    {
        let modules = match ModuleSet::install_all(order) {
            Ok(m) => m,
            Err(e) => {
                return Err(e);
            },
        };
        proof {
            crate::modules::lemma_install_success(order@);
        }
        let ops = match OpRegistry::from_decls(ops) {
            Ok(o) => o,
            Err(e) => {
                return Err(e);
            },
        };
        let rt = ScriptRuntime {
            gate,
            modules,
            ops,
            phase: Phase::Constructed,
            now: 0,
            ready: Vec::new(),
            timers: Vec::new(),
            in_flight: Vec::new(),
        };
        assert(rt@.ready =~= seq![]);
        assert(rt@.timers =~= seq![]);
        assert(rt@.in_flight =~= seq![]);
        Ok(rt)
    }

    /// The installed modules, in installation order.
    pub fn modules(&self) -> (r: Vec<BuiltinModule>)
        ensures
            r@ == self.modules_spec(),
    {
        self.modules.modules()
    }

    /// Whether script code can call an op of this name.
    pub fn has_op(&self, name: &str) -> (r: bool)
        ensures
            r == self.ops_spec().contains(name@),
    {
        self.ops.contains(name)
    }

    /// The current phase.
    pub fn phase(&self) -> (r: Phase)
        ensures
            r == self@.phase,
    {
        self.phase
    }

    /// Records the outcome of the entry script's top-level code and returns
    /// it: success leads to `EntryExecuted`, an uncaught error to
    /// `Faulted`.
    pub fn execute_entry(&mut self, outcome: Result<(), ScriptError>) -> (r: Result<(), ScriptError>)
        requires
            old(self)@.phase == Phase::Constructed,
        ensures
            r == outcome,
            final(self)@ == entry_spec(old(self)@, outcome is Ok),
            final(self).gate_spec() == old(self).gate_spec(),
    {
        if outcome.is_ok() {
            self.phase = Phase::EntryExecuted;
        } else {
            self.phase = Phase::Faulted;
        }
        outcome
    }

    /// Queues a ready continuation behind those already queued.
    pub fn enqueue(&mut self, callback: u64)
        requires
            script_may_run(old(self)@.phase),
        ensures
            final(self)@ == (SchedulerView { ready: old(self)@.ready.push(callback), ..old(self)@ }),
            final(self).gate_spec() == old(self).gate_spec(),
    {
        self.ready.push(callback);
    }

    /// Schedules a timer for `callback`, `delay` ticks from now.
    pub fn schedule_timer(&mut self, callback: u64, delay: u64)
        requires
            script_may_run(old(self)@.phase),
        ensures
            final(self)@ == schedule_timer_spec(old(self)@, callback, delay),
            final(self).gate_spec() == old(self).gate_spec(),
    {
        let due = if delay <= u64::MAX - self.now {
            self.now + delay
        } else {
            u64::MAX
        };
        self.timers.push(Timer { callback, due });
    }

    /// Starts a fetch of `url` with id `request` once the permission policy
    /// allows network access to it, asked anew for every request; on a
    /// refusal its error is returned and nothing becomes outstanding.
    pub fn start_fetch(&mut self, url: &str, request: u64) -> (r: Result<(), PermissionDenied>)
        requires
            script_may_run(old(self)@.phase),
        ensures
            r is Ok <==> old(self).gate_spec().net_allowed(url@),
            r matches Err(e) ==> e.capability == crate::permissions::Capability::Network
                && e.target@ == url@,
            r is Ok ==> final(self)@ == (SchedulerView {
                in_flight: old(self)@.in_flight.push(request),
                ..old(self)@
            }),
            r is Err ==> final(self)@ == old(self)@,
            final(self).gate_spec() == old(self).gate_spec(),
    {
        match self.gate.check_net_url(url, "fetch") {
            Err(e) => Err(e),
            Ok(()) => {
                self.in_flight.push(request);
                Ok(())
            },
        }
    }

    /// Whether hosted code may use high-resolution timers; asked on every
    /// request.
    pub fn allow_hrtime(&self) -> (r: bool)
        ensures
            r == self.gate_spec().hrtime_allowed(),
    {
        self.gate.allow_hrtime()
    }

    /// Checks a filesystem read that a built-in was asked for.
    pub fn check_read(&self, path: &str, api_name: &str) -> (r: Result<(), PermissionDenied>)
        ensures
            r is Ok <==> self.gate_spec().read_allowed(path@),
    {
        self.gate.check_read(path, api_name)
    }

    /// Records that the outstanding request `request` completed, queuing
    /// `callback`; an id that is not outstanding changes nothing.
    pub fn complete_fetch(&mut self, request: u64, callback: u64) -> (r: bool)
        ensures
            r == old(self)@.in_flight.contains(request),
            r ==> exists|k: int|
                0 <= k < old(self)@.in_flight.len() && old(self)@.in_flight[k] == request
                    && #[trigger] completed_fetch_view(old(self)@, final(self)@, k, callback),
            !r ==> final(self)@ == old(self)@,
            final(self).gate_spec() == old(self).gate_spec(),
    {
        let mut i: usize = 0;
        while i < self.in_flight.len()
            invariant
                i <= self.in_flight@.len(),
                *self == *old(self),
                forall|j: int| 0 <= j < i ==> self.in_flight@[j] != request,
            decreases self.in_flight@.len() - i,
        {
            if self.in_flight[i] == request {
                self.in_flight.remove(i);
                self.ready.push(callback);
                assert(completed_fetch_view(old(self)@, self@, i as int, callback));
                return true;
            }
            i = i + 1;
        }
        false
    }

    /// Records the outcome of a continuation that the drain loop ran: an
    /// uncaught error faults the runtime and ends the drain.
    pub fn finish_continuation(&mut self, outcome: Result<(), ScriptError>) -> (r: Result<
        (),
        ScriptError,
    >)
        requires
            old(self)@.phase == Phase::Draining,
        ensures
            r == outcome,
            outcome is Ok ==> final(self)@ == old(self)@,
            outcome is Err ==> final(self)@ == (SchedulerView { phase: Phase::Faulted, ..old(self)@ }),
            final(self).gate_spec() == old(self).gate_spec(),
    {
        if outcome.is_err() {
            self.phase = Phase::Faulted;
        }
        outcome
    }

    /// The index of the timer that fires next.
    fn earliest_timer(&self) -> (k: usize)
        requires
            self.timers@.len() > 0,
        ensures
            k == earliest_index(self.timers@),
            k < self.timers@.len(),
    {
        let ghost ts = self.timers@;
        let mut best: usize = 0;
        let mut i: usize = 1;
        assert(ts.take(1).len() == 1);
        while i < self.timers.len()
            invariant
                1 <= i <= ts.len(),
                ts == self.timers@,
                best == earliest_index(ts.take(i as int)),
                best < i,
            decreases ts.len() - i,
        {
            let ghost next = ts.take(i + 1);
            assert(next.drop_last() =~= ts.take(i as int));
            assert(next.last() == ts[i as int]);
            assert(next[best as int] == ts[best as int]);
            if self.timers[i].due < self.timers[best].due {
                best = i;
            }
            i = i + 1;
        }
        assert(ts.take(ts.len() as int) =~= ts);
        best
    }

    /// One decision of the drain loop: runs ready continuations first, in
    /// enqueue order, then the earliest timer, then waits on the network;
    /// with nothing left the runtime is drained.
    pub fn next_step(&mut self) -> (r: DrainStep)
        ensures
            (final(self)@, r) == step_spec(old(self)@),
            final(self).gate_spec() == old(self).gate_spec(),
    {
        if self.phase == Phase::Constructed || self.phase == Phase::Faulted {
            return DrainStep::Halted;
        }
        if self.ready.len() > 0 {
            let cb = self.ready.remove(0);
            self.phase = Phase::Draining;
            return DrainStep::Run(cb);
        }
        if self.timers.len() > 0 {
            let k = self.earliest_timer();
            let t = self.timers.remove(k);
            if t.due > self.now {
                self.now = t.due;
            }
            self.phase = Phase::Draining;
            return DrainStep::Run(t.callback);
        }
        if self.in_flight.len() > 0 {
            self.phase = Phase::Draining;
            return DrainStep::AwaitNetwork;
        }
        self.phase = Phase::Drained;
        DrainStep::Finished
    }
}

/// Draining an already drained runtime, with no new work, finishes at once
/// without running anything and leaves the runtime as it was.
pub proof fn lemma_drain_idempotent(s: SchedulerView, fuel: nat)
    requires
        s.phase == Phase::Drained,
        idle(s),
        fuel > 0,
    ensures
        step_spec(s) == (s, DrainStep::Finished),
        drain_trace(s, fuel) == seq![DrainStep::Finished],
{
    assert(step_spec(s).0 == s);
}

/// An entry script that throws faults the runtime, and the drain loop then
/// runs nothing.
pub proof fn lemma_failed_entry_never_drains(s: SchedulerView, fuel: nat)
    requires
        s.phase == Phase::Constructed,
        fuel > 0,
    ensures
        entry_spec(s, false).phase == Phase::Faulted,
        step_spec(entry_spec(s, false)) == (entry_spec(s, false), DrainStep::Halted),
        drain_trace(entry_spec(s, false), fuel) == seq![DrainStep::Halted],
{
}

/// Timers all due at tick `due`, one for each of `callbacks`, in order.
pub open spec fn timers_due_at(callbacks: Seq<u64>, due: u64) -> Seq<Timer> {
    callbacks.map_values(|c: u64| Timer { callback: c, due })
}

/// Among timers all due at the same tick, the first fires first.
proof fn lemma_earliest_of_equal(ts: Seq<Timer>, due: u64)
    requires
        ts.len() > 0,
        forall|i: int| 0 <= i < ts.len() ==> (#[trigger] ts[i]).due == due,
    ensures
        earliest_index(ts) == 0,
    decreases ts.len(),
{
    if ts.len() > 1 {
        let prev = ts.drop_last();
        assert forall|i: int| 0 <= i < prev.len() implies (#[trigger] prev[i]).due == due by {
            assert(prev[i] == ts[i]);
        }
        lemma_earliest_of_equal(prev, due);
        assert(prev[0] == ts[0]);
    }
}

/// Scheduling each of `callbacks` with no delay appends timers due now, in
/// order, and changes nothing else.
proof fn lemma_schedule_all_zero_delay(s: SchedulerView, callbacks: Seq<u64>)
    ensures
        schedule_all_spec(s, callbacks, 0) == (SchedulerView {
            timers: s.timers + timers_due_at(callbacks, s.now),
            ..s
        }),
    decreases callbacks.len(),
{
    if callbacks.len() == 0 {
        assert(s.timers + timers_due_at(callbacks, s.now) =~= s.timers);
    } else {
        lemma_schedule_all_zero_delay(s, callbacks.drop_last());
        assert(s.timers + timers_due_at(callbacks, s.now) =~= (s.timers + timers_due_at(
            callbacks.drop_last(),
            s.now,
        )).push(Timer { callback: callbacks.last(), due: s.now }));
    }
}

/// The runs of `callbacks`, in order.
pub open spec fn runs_of(callbacks: Seq<u64>) -> Seq<DrainStep> {
    callbacks.map_values(|c: u64| DrainStep::Run(c))
}

/// From a state with only timers all due at the same tick, not before now,
/// the drain runs them in scheduling order and then finishes.
proof fn lemma_equal_timers_drain_in_order(s: SchedulerView, callbacks: Seq<u64>, due: u64)
    requires
        script_may_run(s.phase) || s.phase == Phase::Drained,
        s.ready.len() == 0,
        s.in_flight.len() == 0,
        s.now <= due,
        s.timers == timers_due_at(callbacks, due),
    ensures
        drain_trace(s, callbacks.len() + 1) == runs_of(callbacks) + seq![DrainStep::Finished],
    decreases callbacks.len(),
{
    if callbacks.len() == 0 {
        assert(runs_of(callbacks) + seq![DrainStep::Finished] =~= seq![DrainStep::Finished]);
    } else {
        lemma_earliest_of_equal(s.timers, due);
        let (t, a) = step_spec(s);
        assert(a == DrainStep::Run(callbacks[0]));
        assert(t.timers =~= timers_due_at(callbacks.drop_first(), due));
        lemma_equal_timers_drain_in_order(t, callbacks.drop_first(), due);
        assert(runs_of(callbacks) + seq![DrainStep::Finished] =~= seq![a] + (runs_of(
            callbacks.drop_first(),
        ) + seq![DrainStep::Finished]));
    }
}

/// Timers that script code schedules with no delay, in a runtime with no
/// other work, run in the order they were scheduled, after which the drain
/// finishes.
pub proof fn lemma_zero_delay_timers_run_in_order(s: SchedulerView, callbacks: Seq<u64>)
    requires
        script_may_run(s.phase),
        idle(s),
    ensures
        drain_trace(schedule_all_spec(s, callbacks, 0), callbacks.len() + 1) == runs_of(callbacks)
            + seq![DrainStep::Finished],
{
    lemma_schedule_all_zero_delay(s, callbacks);
    assert(s.timers + timers_due_at(callbacks, s.now) =~= timers_due_at(callbacks, s.now));
    lemma_equal_timers_drain_in_order(schedule_all_spec(s, callbacks, 0), callbacks, s.now);
}

/// The drain reaches `Drained` only from a state with no ready work, no
/// timer and no outstanding request, and never from a runtime whose entry
/// script has not run or that has faulted.
pub proof fn lemma_drained_only_when_idle(s: SchedulerView)
    requires
        step_spec(s).0.phase == Phase::Drained,
    ensures
        idle(s),
        s.phase != Phase::Constructed && s.phase != Phase::Faulted,
        step_spec(s).1 == DrainStep::Finished,
{
}

} // verus!

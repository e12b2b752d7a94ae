//! The orchestrator core: the static routing table, the per-engine task
//! state machine with cooperative cancellation, the collector step
//! decision, and the ticker's all-or-nothing evaluation. The hosting
//! program owns the actual tasks, channels and timers; every decision they
//! take goes through these functions.

use vstd::prelude::*;

use crate::candle::sat_add;
use crate::engine::{engine_series, engine_step, spec_snapshot, PriceStateEngine};
use crate::errors::StateUpdateError;
use crate::event::{EventSource, InternalEvent};
use crate::output::{IndicatorSet, StateOutput};
use crate::strategy::{InputBuilder, Strategy};

verus! {

/// Where an engine task stands in its lifecycle.
#[derive(Clone, Copy, Debug, PartialEq, Eq, Structural)]
pub enum TaskPhase {
    /// Before one-time state synchronization.
    Initializing,
    /// Racing events, queries and the cancellation signal.
    Running,
    /// Cancellation observed: no further events or queries are accepted.
    Draining,
    /// The shutdown hook has run; the task is about to return.
    Terminated,
}

/// What wakes an engine task at its suspension point.
pub enum EngineWake {
    /// A routed domain event arrived.
    Event(InternalEvent),
    /// A point-in-time query arrived, carrying the indicator outputs
    /// gathered for it.
    Query(IndicatorSet),
    /// The shared cancellation signal fired.
    Cancelled,
}

/// What the task must do after one step.
pub enum StepEffect {
    /// Nothing to send.
    Idle,
    /// Send this snapshot through the query's single-use response channel.
    Respond(StateOutput),
}

/// One engine task's state: the engine it exclusively owns, its lifecycle
/// phase, and a count of per-event fold failures (logged, never fatal).
pub struct EngineTask {
    engine: PriceStateEngine,
    phase: TaskPhase,
    error_count: u64,
    hook_runs: Ghost<nat>,
}

impl EngineTask {
    /// The engine the task owns.
    pub closed spec fn spec_engine(&self) -> PriceStateEngine {
        self.engine
    }

    /// The task's lifecycle phase.
    pub closed spec fn phase(&self) -> TaskPhase {
        self.phase
    }

    /// How many malformed events have been dropped so far.
    pub closed spec fn errors(&self) -> u64 {
        self.error_count
    }

    /// How many times the shutdown hook has run.
    pub closed spec fn hook_runs(&self) -> nat {
        self.hook_runs@
    }

    /// Task well-formedness: the engine's own invariant, and the shutdown
    /// hook has run exactly once if and only if the task has terminated.
    pub closed spec fn wf(&self) -> bool {
        &&& self.engine.wf()
        &&& (self.phase is Terminated <==> self.hook_runs@ == 1)
        &&& (!(self.phase is Terminated) ==> self.hook_runs@ == 0)
    }

    /// Wraps a freshly constructed engine for its owning task.
    pub fn new(engine: PriceStateEngine) -> (r: Self)
        requires
            engine.wf(),
        ensures
            r.wf(),
            r.phase() == TaskPhase::Initializing,
            r.spec_engine() == engine,
            r.errors() == 0,
            r.hook_runs() == 0,
    {
        EngineTask { engine, phase: TaskPhase::Initializing, error_count: 0, hook_runs: Ghost(0) }
    }

    /// One-time initialization before the event loop: runs the engine's
    /// state synchronization and enters the loop. This engine's
    /// synchronization cannot fail, so the task always reaches `Running`.
    pub fn start(&mut self) -> (r: Result<(), StateUpdateError>)
        requires
            old(self).wf(),
            old(self).phase() == TaskPhase::Initializing,
        ensures
            final(self).wf(),
            r is Ok,
            final(self).phase() == TaskPhase::Running,
            final(self).spec_engine() == old(self).spec_engine(),
            final(self).errors() == old(self).errors(),
            final(self).hook_runs() == 0,
    {
        let r = self.engine.sync_state();
        self.phase = TaskPhase::Running;
        r
    }

    /// One turn of the running task's race between the next event, the
    /// next query and the cancellation signal.
    ///
    /// An event is folded; a malformed one is dropped, counted, and leaves
    /// engine state exactly as it was. A query is answered with the
    /// read-only snapshot and mutates nothing. Cancellation moves the task
    /// to `Draining`: one signal suffices, and no further event or query
    /// is accepted afterwards.
    pub fn step(&mut self, wake: EngineWake) -> (eff: StepEffect)
        requires
            old(self).wf(),
            old(self).phase() == TaskPhase::Running,
        ensures
            final(self).wf(),
            final(self).hook_runs() == 0,
            match wake {
                EngineWake::Event(e) => {
                    &&& final(self).phase() == TaskPhase::Running
                    &&& eff is Idle
                    &&& match e {
                        InternalEvent::Trade(t) => {
                            &&& final(self).spec_engine()@ == engine_step(
                                old(self).spec_engine()@,
                                t,
                            )
                            &&& final(self).spec_engine().log() == old(
                                self,
                            ).spec_engine().log().push(t)
                            &&& final(self).errors() == if crate::candle::spec_push(
                                engine_series(old(self).spec_engine()@, t.source),
                                t.price,
                                t.size,
                                t.timestamp,
                            ) is Some {
                                old(self).errors()
                            } else {
                                sat_add(old(self).errors(), 1)
                            }
                        },
                        InternalEvent::Error(_) => final(self).spec_engine() == old(
                            self,
                        ).spec_engine() && final(self).errors() == sat_add(old(self).errors(), 1),
                        InternalEvent::Unsupported(_) => final(self).spec_engine() == old(
                            self,
                        ).spec_engine() && final(self).errors() == old(self).errors(),
                    }
                },
                EngineWake::Query(ind) => {
                    &&& final(self).phase() == TaskPhase::Running
                    &&& final(self).spec_engine() == old(self).spec_engine()
                    &&& final(self).errors() == old(self).errors()
                    &&& eff matches StepEffect::Respond(out) && out matches StateOutput::Prices(ps)
                        && ps@ == spec_snapshot(old(self).spec_engine()@, ind)
                },
                EngineWake::Cancelled => {
                    &&& final(self).phase() == TaskPhase::Draining
                    &&& final(self).spec_engine() == old(self).spec_engine()
                    &&& final(self).errors() == old(self).errors()
                    &&& eff is Idle
                },
            },
    {
        match wake {
            EngineWake::Event(e) => {
                match self.engine.process_event(e) {
                    Ok(()) => {},
                    Err(_) => {
                        if self.error_count < u64::MAX {
                            self.error_count = self.error_count + 1;
                        }
                    },
                }
                StepEffect::Idle
            },
            EngineWake::Query(ind) => {
                let out = self.engine.process_request(&ind);
                StepEffect::Respond(out)
            },
            EngineWake::Cancelled => {
                self.phase = TaskPhase::Draining;
                StepEffect::Idle
            },
        }
    }

    /// The draining task's last act: run the shutdown hook exactly once
    /// and terminate. Returns the hook's final-state report for the
    /// hosting program to log; the hook reads engine state and never
    /// mutates it.
    pub fn finish(&mut self) -> (report: Vec<(EventSource, usize)>)
        requires
            old(self).wf(),
            old(self).phase() == TaskPhase::Draining,
        ensures
            final(self).wf(),
            final(self).phase() == TaskPhase::Terminated,
            final(self).hook_runs() == 1,
            final(self).spec_engine() == old(self).spec_engine(),
            final(self).errors() == old(self).errors(),
            report@ == seq![
                (
                    EventSource::Binance,
                    crate::candle::capped_series_len(old(self).spec_engine()@.binance),
                ),
                (
                    EventSource::Bybit,
                    crate::candle::capped_series_len(old(self).spec_engine()@.bybit),
                ),
                (
                    EventSource::Coinbase,
                    crate::candle::capped_series_len(old(self).spec_engine()@.coinbase),
                ),
            ],
    {
        let report = self.engine.on_shutdown();
        self.phase = TaskPhase::Terminated;
        proof {
            self.hook_runs@ = self.hook_runs@ + 1;
        }
        report
    }

    /// The number of malformed events the task has dropped. Comparing the
    /// count before and after a step distinguishes a successful fold from
    /// a dropped event, which is what the metrics recording needs.
    pub fn error_count(&self) -> (r: u64)
        ensures
            r == self.errors(),
    {
        self.error_count
    }

    /// Whether the task has reached its natural exit point.
    pub fn is_terminated(&self) -> (r: bool)
        ensures
            r == (self.phase() is Terminated),
    {
        matches!(self.phase, TaskPhase::Terminated)
    }

    /// Read access to the owned engine, for queries issued in tests and
    /// by the hosting program's analytics collaborator.
    pub fn engine_ref(&self) -> (r: &PriceStateEngine)
        ensures
            *r == self.spec_engine(),
    {
        &self.engine
    }
}

/// Law: the shutdown hook runs exactly once per engine task. A task has
/// terminated exactly when its hook has run, and a task that has not
/// terminated has never run it. Together with [`EngineTask::step`] —
/// one cancellation signal moves a running task to `Draining` — and
/// [`EngineTask::finish`] — one further step terminates it — a single
/// signal suffices for every task, in two steps, with the hook run once.
pub proof fn lemma_shutdown_hook_exactly_once(t: &EngineTask)
    requires
        t.wf(),
    ensures
        t.phase() is Terminated <==> t.hook_runs() == 1,
        !(t.phase() is Terminated) ==> t.hook_runs() == 0,
{
}

/// What a collector task does after one pull from its upstream feed.
pub enum CollectorAction {
    /// Stop pulling: the run is over for this source.
    Stop,
    /// Hand this event to the router.
    Forward(InternalEvent),
}

/// The collector loop's decision at each suspension point. Cancellation
/// always wins the race: a cancelled collector pulls nothing further. An
/// exhausted upstream (`None`) also stops the task; everything else is
/// forwarded unchanged.
pub fn collector_step(cancelled: bool, upstream: Option<InternalEvent>) -> (r: CollectorAction)
    ensures
        cancelled ==> r is Stop,
        !cancelled ==> match upstream {
            None => r is Stop,
            Some(e) => r == CollectorAction::Forward(e),
        },
{
    if cancelled {
        CollectorAction::Stop
    } else {
        match upstream {
            None => CollectorAction::Stop,
            Some(e) => CollectorAction::Forward(e),
        }
    }
}

/// The fixed routing table built at orchestrator start: for each engine,
/// the sources it declared interest in. Never changes afterwards.
pub struct RoutingTable {
    interests: Vec<Vec<EventSource>>,
}

impl RoutingTable {
    /// Whether engine `i` declared interest in `source`.
    pub closed spec fn interested(&self, i: int, source: EventSource) -> bool {
        self.interests@[i]@.contains(source)
    }

    /// Number of registered engines.
    pub closed spec fn engines(&self) -> nat {
        self.interests@.len()
    }

    /// Builds the table from each engine's declared interest set, in
    /// engine registration order.
    pub fn new(interests: Vec<Vec<EventSource>>) -> (r: Self)
        ensures
            r.engines() == interests@.len(),
            forall|i: int, s: EventSource|
                0 <= i < interests@.len() ==> (#[trigger] r.interested(i, s) <==> interests@[i]@.contains(
                    s,
                )),
    {
        RoutingTable { interests }
    }

    /// The engines a source's events are delivered to: exactly those that
    /// declared interest, in ascending registration order, each once.
    pub fn route(&self, source: EventSource) -> (r: Vec<usize>)
        ensures
            forall|k: int|
                0 <= k < r@.len() ==> (#[trigger] r@[k]) < self.engines() && self.interested(
                    r@[k] as int,
                    source,
                ),
            forall|i: int|
                0 <= i < self.engines() && self.interested(i, source) ==> exists|k: int|
                    0 <= k < r@.len() && (#[trigger] r@[k]) as int == i,
            forall|k1: int, k2: int| 0 <= k1 < k2 < r@.len() ==> r@[k1] < r@[k2],
    {
        let mut r: Vec<usize> = Vec::new();
        let mut i: usize = 0;
        while i < self.interests.len()
            invariant
                0 <= i <= self.interests@.len(),
                forall|k: int|
                    0 <= k < r@.len() ==> (#[trigger] r@[k]) < i && self.interested(
                        r@[k] as int,
                        source,
                    ),
                forall|e: int|
                    0 <= e < i && self.interested(e, source) ==> exists|k: int|
                        0 <= k < r@.len() && (#[trigger] r@[k]) as int == e,
                forall|k1: int, k2: int| 0 <= k1 < k2 < r@.len() ==> r@[k1] < r@[k2],
            decreases self.interests@.len() - i,
        {
            let row = &self.interests[i];
            let mut j: usize = 0;
            let mut found = false;
            while j < row.len()
                invariant
                    0 <= j <= row@.len(),
                    row == self.interests@[i as int],
                    i < self.interests@.len(),
                    found <==> exists|t: int| 0 <= t < j && row@[t] == source,
                decreases row@.len() - j,
            {
                if row[j] == source {
                    found = true;
                }
                j += 1;
            }
            let ghost r_before = r@;
            if found {
                assert(row@.contains(source));
                r.push(i);
            } else {
                assert(!row@.contains(source)) by {
                    if row@.contains(source) {
                        let t = choose|t: int| 0 <= t < row@.len() && row@[t] == source;
                        assert(row@[t] == source);
                    }
                }
            }
            proof {
                assert forall|e: int|
                    0 <= e < i + 1 && self.interested(e, source) implies exists|k: int|
                    0 <= k < r@.len() && (#[trigger] r@[k]) as int == e by {
                    if e == i {
                        assert(found);
                        assert(r@[r@.len() - 1] as int == e);
                    } else {
                        let k = choose|k: int|
                            0 <= k < r_before.len() && (#[trigger] r_before[k]) as int == e;
                        assert(r@[k] as int == e);
                    }
                }
            }
            i += 1;
        }
        r
    }
}

/// Whether every registered engine answered this tick.
pub open spec fn all_present<D>(responses: Seq<Option<D>>) -> bool {
    forall|i: int| 0 <= i < responses.len() ==> (#[trigger] responses[i]) is Some
}

/// The answers themselves, in registration order.
pub open spec fn present_values<D>(responses: Seq<Option<D>>) -> Seq<D>
    recommends
        all_present(responses),
{
    responses.map_values(|o: Option<D>| o.unwrap())
}

/// One evaluation tick, all or nothing.
///
/// If any registered engine's response is missing — its query failed,
/// timed out, or the engine is gone — the tick yields no actions at all; a
/// partial input is never evaluated. Otherwise every response is filed in
/// a fresh builder, and the tick's actions are exactly the strategy's pure
/// evaluation of the input built from all responses, in order — or none,
/// should the filed responses still not make a complete input.
pub fn run_tick<D, I, A, S: Strategy<D, I, A>>(strategy: &S, responses: Vec<Option<D>>) -> (r: Vec<
    A,
>)
    ensures
        !all_present(responses@) ==> r@.len() == 0,
        all_present(responses@) ==> {
            let slots = present_values(responses@);
            if <S as Strategy<D, I, A>>::InputBuilder::spec_complete(slots) {
                r@ == strategy.spec_evaluate(
                    <S as Strategy<D, I, A>>::InputBuilder::spec_build(slots),
                )
            } else {
                r@.len() == 0
            }
        },
{
    let ghost all = responses@;
    let mut builder = <S as Strategy<D, I, A>>::InputBuilder::empty();
    let mut rest = responses;
    let ghost mut idx: int = 0;
    while rest.len() > 0
        invariant
            all == responses@,
            0 <= idx <= all.len(),
            rest@ =~= all.skip(idx),
            forall|k: int| 0 <= k < idx ==> (#[trigger] all[k]) is Some,
            builder.slots() =~= present_values(all.take(idx)),
        decreases rest@.len(),
    {
        let d = rest.remove(0);
        proof {
            assert(all[idx] == d);
        }
        match d {
            None => {
                assert(!all_present(all));
                return Vec::new();
            },
            Some(x) => {
                builder.insert(x);
            },
        }
        proof {
            assert(rest@ =~= all.skip(idx + 1));
            assert(present_values(all.take(idx + 1)) =~= present_values(all.take(idx)).push(
                all[idx].unwrap(),
            ));
            idx = idx + 1;
        }
    }
    proof {
        assert(all.take(all.len() as int) =~= all);
        assert(all_present(all));
    }
    match builder.build() {
        Ok(input) => strategy.evaluate(input),
        Err(_) => Vec::new(),
    }
}

/// Whether every spawned engine task has reached its natural exit point:
/// the orchestrator's own join completes exactly then.
pub fn all_terminated(tasks: &Vec<EngineTask>) -> (r: bool)
    ensures
        r == forall|i: int| 0 <= i < tasks@.len() ==> (#[trigger] tasks@[i].phase()) is Terminated,
{
    let mut i: usize = 0;
    while i < tasks.len()
        invariant
            0 <= i <= tasks@.len(),
            forall|k: int| 0 <= k < i ==> (#[trigger] tasks@[k].phase()) is Terminated,
        decreases tasks@.len() - i,
    {
        if !tasks[i].is_terminated() {
            return false;
        }
        i += 1;
    }
    true
}

} // verus!

//! Executors and action fan-out. Every executor receives every dispatched
//! action exactly once per tick, in tick order; one executor's failure is
//! recorded and never short-circuits the others or later actions.

use vstd::prelude::*;

use crate::errors::ExecutionError;
use crate::output::PriceData;

verus! {

/// Consumer of one action. `execute` performs the executor's side effect
/// and records the action in the executor's received log; its success or
/// failure is the executor's own business and never propagates.
pub trait Executor<A>: Sized {
    /// Every action this executor has been invoked on, in order.
    spec fn received(&self) -> Seq<A>;

    fn name(&self) -> &'static str;

    fn execute(&mut self, action: A) -> (r: Result<(), ExecutionError>)
        ensures
            final(self).received() == old(self).received().push(action),
    ;
}

/// The shipped executor: it records every action it is handed, in order,
/// for the hosting program to report. It never fails.
pub struct EchoExecutor {
    pub log: Vec<PriceData>,
}

impl EchoExecutor {
    pub fn new() -> (r: Self)
        ensures
            r.log@ == Seq::<PriceData>::empty(),
    {
        let r = EchoExecutor { log: Vec::new() };
        proof {
            assert(r.log@ =~= Seq::<PriceData>::empty());
        }
        r
    }
}

impl Executor<PriceData> for EchoExecutor {
    open spec fn received(&self) -> Seq<PriceData> {
        self.log@
    }

    fn name(&self) -> &'static str {
        "echo_executor"
    }

    fn execute(&mut self, action: PriceData) -> (r: Result<(), ExecutionError>)
        ensures
            r is Ok,
    {
        self.log.push(action);
        Ok(())
    }
}

/// An executor whose side effect always fails. It still records every
/// action it is handed: failure isolation means a failing executor keeps
/// being invoked, and its failures never block anyone else.
pub struct FailingExecutor {
    pub log: Vec<PriceData>,
}

impl FailingExecutor {
    pub fn new() -> (r: Self)
        ensures
            r.log@ == Seq::<PriceData>::empty(),
    {
        let r = FailingExecutor { log: Vec::new() };
        proof {
            assert(r.log@ =~= Seq::<PriceData>::empty());
        }
        r
    }
}

impl Executor<PriceData> for FailingExecutor {
    open spec fn received(&self) -> Seq<PriceData> {
        self.log@
    }

    fn name(&self) -> &'static str {
        "failing_executor"
    }

    fn execute(&mut self, action: PriceData) -> (r: Result<(), ExecutionError>)
        ensures
            r is Err,
    {
        self.log.push(action);
        Err(ExecutionError::Rejected("side effect refused".to_owned()))
    }
}

/// The shipped executors as a closed sum, so one dispatch can fan out to
/// executors of different kinds.
pub enum PipelineExecutor {
    Echo(EchoExecutor),
    Failing(FailingExecutor),
}

impl Executor<PriceData> for PipelineExecutor {
    open spec fn received(&self) -> Seq<PriceData> {
        match self {
            PipelineExecutor::Echo(e) => e.received(),
            PipelineExecutor::Failing(e) => e.received(),
        }
    }

    fn name(&self) -> &'static str {
        match self {
            PipelineExecutor::Echo(e) => e.name(),
            PipelineExecutor::Failing(e) => e.name(),
        }
    }

    fn execute(&mut self, action: PriceData) -> (r: Result<(), ExecutionError>)
        ensures
            (*old(self)) is Echo ==> r is Ok && (*final(self)) is Echo,
            (*old(self)) is Failing ==> r is Err && (*final(self)) is Failing,
    {
        match self {
            PipelineExecutor::Echo(e) => e.execute(action),
            PipelineExecutor::Failing(e) => e.execute(action),
        }
    }
}

/// Whether one failure entry names an earlier invocation than another:
/// dispatch goes action by action, and within an action executor by
/// executor.
pub open spec fn dispatched_before(a: (usize, usize), b: (usize, usize)) -> bool {
    a.0 < b.0 || (a.0 == b.0 && a.1 < b.1)
}

/// Law: fan-out is failure-isolated and exactly-once. After dispatching a
/// tick's actions, every executor's received log has grown by exactly the
/// dispatched actions, in order — whatever any `execute` call returned.
///
/// The returned list names each failed `(action, executor)` invocation for
/// the per-executor failure count: every entry indexes a dispatched action
/// and a registered executor, and the entries stand in dispatch order, so
/// no invocation is named twice. Which invocations appear is each
/// executor's own business — the side effect decides at run time.
pub fn fan_out<A: Copy, E: Executor<A>>(actions: &Vec<A>, executors: &mut Vec<E>) -> (failures:
    Vec<(usize, usize)>)
    ensures
        final(executors)@.len() == old(executors)@.len(),
        forall|j: int|
            0 <= j < old(executors)@.len() ==> (#[trigger] final(executors)@[j].received())
                == old(executors)@[j].received() + actions@,
        forall|k: int|
            0 <= k < failures@.len() ==> (#[trigger] failures@[k]).0 < actions@.len()
                && failures@[k].1 < old(executors)@.len(),
        forall|k1: int, k2: int|
            0 <= k1 < k2 < failures@.len() ==> dispatched_before(failures@[k1], failures@[k2]),
{
    let ghost orig = executors@;
    let mut failures: Vec<(usize, usize)> = Vec::new();
    let mut i: usize = 0;
    while i < actions.len()
        invariant
            0 <= i <= actions@.len(),
            executors@.len() == orig.len(),
            forall|j: int|
                0 <= j < orig.len() ==> (#[trigger] executors@[j].received()) == orig[j].received()
                    + actions@.take(i as int),
            forall|k: int|
                0 <= k < failures@.len() ==> (#[trigger] failures@[k]).0 < i && failures@[k].1
                    < orig.len(),
            forall|k1: int, k2: int|
                0 <= k1 < k2 < failures@.len() ==> dispatched_before(
                    failures@[k1],
                    failures@[k2],
                ),
        decreases actions@.len() - i,
    {
        let action = actions[i];
        let mut j: usize = 0;
        while j < executors.len()
            invariant
                0 <= i < actions@.len(),
                0 <= j <= executors@.len(),
                executors@.len() == orig.len(),
                action == actions@[i as int],
                forall|k: int|
                    0 <= k < j ==> (#[trigger] executors@[k].received()) == orig[k].received()
                        + actions@.take(i as int + 1),
                forall|k: int|
                    j <= k < orig.len() ==> (#[trigger] executors@[k].received())
                        == orig[k].received() + actions@.take(i as int),
                forall|k: int|
                    0 <= k < failures@.len() ==> ((#[trigger] failures@[k]).0 < i || (
                    failures@[k].0 == i && failures@[k].1 < j)) && failures@[k].1 < orig.len(),
                forall|k1: int, k2: int|
                    0 <= k1 < k2 < failures@.len() ==> dispatched_before(
                        failures@[k1],
                        failures@[k2],
                    ),
            decreases executors@.len() - j,
        {
            let r = executors[j].execute(action);
            if r.is_err() {
                failures.push((i, j));
            }
            proof {
                assert(actions@.take(i as int + 1) =~= actions@.take(i as int).push(
                    actions@[i as int],
                ));
                assert(executors@[j as int].received() == orig[j as int].received() + actions@.take(
                    i as int + 1,
                ));
            }
            j += 1;
        }
        i += 1;
    }
    proof {
        assert(actions@.take(actions@.len() as int) =~= actions@);
    }
    failures
}

} // verus!

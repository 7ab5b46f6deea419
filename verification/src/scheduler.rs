//! The system scheduler: owns an ordered list of update systems and, each
//! tick, drives every one of them exactly once, in registration order.
//!
//! Failure policy, fixed here: a system whose update fails is caught, the
//! remaining systems of the tick still run, and the tick reports the first
//! failure as `SystemFailure`. No system is ever skipped.

use vstd::prelude::*;

use crate::error::EngineError;
use crate::system::System;

verus! {

/// What a tick answers once every system has run, given the outcomes the
/// systems reported in order: `Ok` when all succeeded, else `SystemFailure`
/// carrying the first failing system's message.
pub open spec fn spec_first_failure(outcomes: Seq<Result<(), String>>) -> Result<
    (),
    EngineError,
>
    decreases outcomes.len(),
{
    if outcomes.len() == 0 {
        Ok(())
    } else {
        match outcomes[0] {
            Err(message) => Err(EngineError::SystemFailure(message)),
            Ok(_) => spec_first_failure(outcomes.drop_first()),
        }
    }
}

/// Folds the outcomes one tick collected, in order, into the tick's answer:
/// exactly `spec_first_failure` of them.
#[verifier::loop_isolation(false)]
pub fn first_failure(outcomes: Vec<Result<(), String>>) -> (result: Result<(), EngineError>)
    ensures
        result == spec_first_failure(outcomes@),
{
    let ghost all = outcomes@;
    let mut rest = outcomes;
    while rest.len() > 0
        invariant
            spec_first_failure(rest@) == spec_first_failure(all),
        decreases rest.len(),
    {
        let ghost before = rest@;
        let head = rest.remove(0);
        proof {
            assert(rest@ =~= before.drop_first());
        }
        match head {
            Err(message) => {
                proof {
                    assert(spec_first_failure(before) == Err::<(), EngineError>(
                        EngineError::SystemFailure(message),
                    ));
                }
                return Err(EngineError::SystemFailure(message));
            },
            Ok(_) => {},
        }
    }
    Ok(())
}

/// Whatever the systems reported, a tick's answer has one of two shapes:
/// success, or the first failure as `SystemFailure`.
proof fn lemma_first_failure_shape(outcomes: Seq<Result<(), String>>)
    ensures
        spec_first_failure(outcomes) is Ok || spec_first_failure(outcomes) matches Err(
            EngineError::SystemFailure(_),
        ),
    decreases outcomes.len(),
{
    if outcomes.len() > 0 && outcomes[0] is Ok {
        lemma_first_failure_shape(outcomes.drop_first());
    }
}

/// Owns the registered systems in registration order and drives them each
/// tick. The ghost `trace` records every invocation the scheduler has ever
/// made, oldest first, as pairs of the invoked system's position and the
/// delta time handed to it.
pub struct Scheduler<S: System> {
    systems: Vec<S>,
    trace: Ghost<Seq<(int, u32)>>,
}

impl<S: System> View for Scheduler<S> {
    type V = Seq<S>;

    closed spec fn view(&self) -> Seq<S> {
        self.systems@
    }
}

impl<S: System> Scheduler<S> {
    /// Every invocation this scheduler has made, oldest first: the invoked
    /// system's position in registration order, and the delta time passed.
    pub closed spec fn spec_trace(&self) -> Seq<(int, u32)> {
        self.trace@
    }

    /// A scheduler with no systems and no invocations made.
    pub fn new() -> (scheduler: Scheduler<S>)
        ensures
            scheduler@ == Seq::<S>::empty(),
            scheduler.spec_trace() == Seq::<(int, u32)>::empty(),
    {
        Scheduler { systems: Vec::new(), trace: Ghost(Seq::empty()) }
    }

    /// How many systems are registered.
    pub fn len(&self) -> (n: usize)
        ensures
            n == self@.len(),
    {
        self.systems.len()
    }

    /// Appends `system` to the ordered list, taking ownership; registration
    /// order defines update order.
    pub fn register(&mut self, system: S)
        ensures
            final(self)@ == old(self)@.push(system),
            final(self).spec_trace() == old(self).spec_trace(),
    {
        self.systems.push(system);
    }

    /// Runs one tick: invokes `update(delta_time)` on every registered
    /// system, exactly once each, in registration order, synchronously —
    /// the trace grows by one invocation per system, position-ordered, and
    /// each system's history gains exactly this tick's delta time. A failing
    /// update does not stop the tick; the first failure message, if any,
    /// comes back as `SystemFailure`. A tick with no systems registered has
    /// nothing that could fail and succeeds.
    pub fn tick(&mut self, delta_time: u32) -> (result: Result<(), EngineError>)
        ensures
            final(self)@.len() == old(self)@.len(),
            forall|i: int|
                0 <= i < old(self)@.len() ==> (#[trigger] final(self)@[i]).history() == old(
                    self,
                )@[i].history().push(delta_time),
            final(self).spec_trace() == old(self).spec_trace() + Seq::new(
                old(self)@.len(),
                |i: int| (i, delta_time),
            ),
            result is Ok || result matches Err(EngineError::SystemFailure(_)),
            old(self)@.len() == 0 ==> result is Ok,
    {
        let ghost prev = self.systems@;
        let ghost prev_trace = self.trace@;
        let mut outcomes: Vec<Result<(), String>> = Vec::new();
        let n = self.systems.len();
        for i in 0..n
            invariant
                n == prev.len(),
                outcomes@.len() == i,
                self.systems@.len() == prev.len(),
                forall|j: int|
                    0 <= j < i ==> (#[trigger] self.systems@[j]).history() == prev[j].history(
                    ).push(delta_time),
                forall|j: int| i <= j < prev.len() ==> self.systems@[j] == prev[j],
                self.trace@ == prev_trace + Seq::new(i as nat, |j: int| (j, delta_time)),
        {
            let system = &mut self.systems[i];
            let outcome = system.update(delta_time);
            self.trace = Ghost(self.trace@.push((i as int, delta_time)));
            proof {
                assert(self.trace@ =~= prev_trace + Seq::new(
                    (i + 1) as nat,
                    |j: int| (j, delta_time),
                ));
            }
            outcomes.push(outcome);
        }
        proof {
            assert(self.trace@ =~= prev_trace + Seq::new(
                prev.len(),
                |j: int| (j, delta_time),
            ));
            lemma_first_failure_shape(outcomes@);
        }
        first_failure(outcomes)
    }
}

} // verus!

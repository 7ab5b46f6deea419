//! The engine: an entity store and a system scheduler, driven together.
//!
//! A caller builds entities, registers them with `add_entity`, registers
//! update systems with the scheduler, then repeatedly calls `update(dt)`,
//! which drives every system once, in registration order.

use vstd::prelude::*;

use crate::entity::Entity;
use crate::error::EngineError;
use crate::scheduler::Scheduler;
use crate::store::EntityStore;
use crate::system::System;

verus! {

/// The engine core: owns all entities and all registered systems.
pub struct GameEngine<S: System> {
    /// The entity registry; systems reach entity state through it.
    pub entities: EntityStore,
    /// The ordered update systems.
    pub systems: Scheduler<S>,
}

impl<S: System> GameEngine<S> {
    /// An engine with no entities and no systems; the first entity gets id 0.
    pub fn new() -> (engine: GameEngine<S>)
        ensures
            engine.entities@ == Map::<u32, Entity>::empty(),
            engine.entities.spec_next_id() == 0,
            engine.entities.wf(),
            engine.systems@ == Seq::<S>::empty(),
            engine.systems.spec_trace() == Seq::<(int, u32)>::empty(),
    {
        GameEngine { entities: EntityStore::new(), systems: Scheduler::new() }
    }

    /// Registers `entity` with the store and returns its fresh id; the
    /// registered systems are untouched.
    pub fn add_entity(&mut self, entity: Entity) -> (id: u32)
        requires
            old(self).entities.wf(),
            old(self).entities.spec_next_id() < u32::MAX,
        ensures
            final(self).entities.wf(),
            id == old(self).entities.spec_next_id(),
            !old(self).entities@.contains_key(id),
            final(self).entities@ == old(self).entities@.insert(id, entity),
            final(self).entities.spec_next_id() == id + 1,
            final(self).systems == old(self).systems,
    {
        self.entities.insert(entity)
    }

    /// Runs one tick of `delta_time`: every registered system updates exactly
    /// once, in registration order; entities change only as far as systems
    /// change them through the store, which here they do not touch, so the
    /// store is unchanged. The first failing system's message, if any, comes
    /// back as `SystemFailure`.
    pub fn update(&mut self, delta_time: u32) -> (result: Result<(), EngineError>)
        ensures
            final(self).entities == old(self).entities,
            final(self).systems@.len() == old(self).systems@.len(),
            forall|i: int|
                0 <= i < old(self).systems@.len()
                    ==> (#[trigger] final(self).systems@[i]).history() == old(
                    self,
                ).systems@[i].history().push(delta_time),
            final(self).systems.spec_trace() == old(self).systems.spec_trace() + Seq::new(
                old(self).systems@.len(),
                |i: int| (i, delta_time),
            ),
            result is Ok || result matches Err(EngineError::SystemFailure(_)),
            old(self).systems@.len() == 0 ==> result is Ok,
    {
        self.systems.tick(delta_time)
    }
}

} // verus!

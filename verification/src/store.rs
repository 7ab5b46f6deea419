//! The entity store: owns all entity data, assigns stable ids, supports
//! insertion, lookup and removal.
//!
//! Ids come from a monotonically increasing counter that is independent of the
//! current size of the store, so an id retired by a removal is never issued
//! again; `lemma_insert_sequence` and `lemma_removed_id_never_reissued` state
//! this over the store's model.

use std::collections::HashMap;
use vstd::prelude::*;

use crate::entity::Entity;
use crate::error::EngineError;

verus! {

broadcast use vstd::std_specs::hash::group_hash_axioms;

/// The store's invariant over its model: the contents are finite, and every
/// live id lies below the counter, so the counter's value is always fresh.
pub open spec fn store_wf(entities: Map<u32, Entity>, next_id: u32) -> bool {
    &&& entities.dom().finite()
    &&& forall|id: u32| #[trigger] entities.contains_key(id) ==> id < next_id
}

/// What a lookup of `id` in a store with contents `entities` answers.
pub open spec fn spec_lookup(entities: Map<u32, Entity>, id: u32) -> Result<Entity, EngineError> {
    if entities.contains_key(id) {
        Ok(entities[id])
    } else {
        Err(EngineError::NotFound)
    }
}

/// Maps each live id to its entity; the sole owner of all entity values.
pub struct EntityStore {
    entities: HashMap<u32, Entity>,
    next_id: u32,
}

impl View for EntityStore {
    type V = Map<u32, Entity>;

    closed spec fn view(&self) -> Map<u32, Entity> {
        self.entities@
    }
}

impl EntityStore {
    /// The id the next insertion will return.
    pub closed spec fn spec_next_id(&self) -> u32 {
        self.next_id
    }

    /// The store's invariant: see `store_wf`.
    pub open spec fn wf(&self) -> bool {
        store_wf(self@, self.spec_next_id())
    }

    /// An empty store; the first insertion returns id 0.
    pub fn new() -> (store: EntityStore)
        ensures
            store@ == Map::<u32, Entity>::empty(),
            store.spec_next_id() == 0,
            store.wf(),
    {
        EntityStore { entities: HashMap::new(), next_id: 0 }
    }

    /// Reads the counter: the id the next insertion will return. A caller
    /// that cannot establish `insert`'s id-space bound otherwise can test
    /// this value first.
    pub fn next_id(&self) -> (id: u32)
        ensures
            id == self.spec_next_id(),
    {
        self.next_id
    }

    /// How many entities are live.
    pub fn len(&self) -> (n: usize)
        ensures
            n == self@.len(),
    {
        self.entities.len()
    }

    /// Takes ownership of `entity`, files it under the next unused id, and
    /// returns that id. The id is fresh: no live entity already carries it.
    pub fn insert(&mut self, entity: Entity) -> (id: u32)
        requires
            old(self).wf(),
            old(self).spec_next_id() < u32::MAX,
        ensures
            final(self).wf(),
            id == old(self).spec_next_id(),
            !old(self)@.contains_key(id),
            final(self)@ == old(self)@.insert(id, entity),
            final(self).spec_next_id() == id + 1,
    {
        let id = self.next_id;
        self.next_id = self.next_id + 1;
        self.entities.insert(id, entity);
        id
    }

    /// Looks `id` up: a reference to its entity if it is live, `NotFound`
    /// otherwise. Reading has no effect on the store, so the answer is the
    /// same function of the store's contents on every call.
    pub fn get(&self, id: u32) -> (result: Result<&Entity, EngineError>)
        ensures
            match result {
                Ok(entity) => spec_lookup(self@, id) == Ok::<Entity, EngineError>(*entity),
                Err(e) => spec_lookup(self@, id) == Err::<Entity, EngineError>(e),
            },
    {
        match self.entities.get(&id) {
            Some(entity) => Ok(entity),
            None => Err(EngineError::NotFound),
        }
    }

    /// Removes `id` and hands its entity back if it is live, else `NotFound`;
    /// in either case the counter stands, so `id` is never issued again.
    pub fn remove(&mut self, id: u32) -> (result: Result<Entity, EngineError>)
        requires
            old(self).wf(),
        ensures
            final(self).wf(),
            final(self).spec_next_id() == old(self).spec_next_id(),
            match result {
                Ok(entity) => {
                    &&& old(self)@.contains_key(id)
                    &&& entity == old(self)@[id]
                    &&& final(self)@ == old(self)@.remove(id)
                },
                Err(e) => {
                    &&& e == EngineError::NotFound
                    &&& !old(self)@.contains_key(id)
                    &&& final(self)@ == old(self)@
                },
            },
    {
        match self.entities.remove(&id) {
            Some(entity) => Ok(entity),
            None => {
                proof {
                    assert(self.entities@ =~= old(self).entities@);
                }
                Err(EngineError::NotFound)
            },
        }
    }
}

/// The store's model of a run of insertions: files each entity of `batch` in
/// turn under the counter's value, stepping the counter each time. One step
/// of this function is exactly what `EntityStore::insert` ensures.
pub open spec fn insert_all(
    entities: Map<u32, Entity>,
    next_id: u32,
    batch: Seq<Entity>,
) -> (Map<u32, Entity>, u32)
    decreases batch.len(),
{
    if batch.len() == 0 {
        (entities, next_id)
    } else {
        insert_all(entities.insert(next_id, batch[0]), (next_id + 1) as u32, batch.drop_first())
    }
}

/// Two distinct positions in one run of insertions are issued distinct ids:
/// the id issued at position `i` is the starting counter plus `i`, and no two
/// such sums collide while the run stays within the id space.
pub proof fn lemma_issued_ids_distinct(next_id: u32, count: int, i: int, j: int)
    requires
        next_id + count <= u32::MAX,
        0 <= i < j < count,
    ensures
        (next_id + i) as u32 != (next_id + j) as u32,
{
}

/// Over any run of insertions, the ids issued are exactly the counter values
/// from the starting counter up to the final one, each resolves in the final
/// contents to the entity inserted under it, ids below the starting counter
/// keep their bindings, and the invariant is preserved.
pub proof fn lemma_insert_sequence(entities: Map<u32, Entity>, next_id: u32, batch: Seq<Entity>)
    requires
        store_wf(entities, next_id),
        next_id + batch.len() <= u32::MAX,
    ensures
        ({
            let (final_entities, final_next) = insert_all(entities, next_id, batch);
            &&& final_next == next_id + batch.len()
            &&& store_wf(final_entities, final_next)
            &&& forall|id: u32|
                #![trigger final_entities.contains_key(id)]
                next_id <= id < next_id + batch.len() ==> {
                    &&& final_entities.contains_key(id)
                    &&& final_entities[id] == batch[id - next_id]
                }
            &&& forall|id: u32|
                #![trigger final_entities.contains_key(id)]
                id < next_id ==> {
                    &&& final_entities.contains_key(id) == entities.contains_key(id)
                    &&& entities.contains_key(id) ==> final_entities[id] == entities[id]
                }
        }),
    decreases batch.len(),
{
    if batch.len() > 0 {
        let stepped = entities.insert(next_id, batch[0]);
        let stepped_next = (next_id + 1) as u32;
        assert(store_wf(stepped, stepped_next));
        lemma_insert_sequence(stepped, stepped_next, batch.drop_first());
        let (final_entities, final_next) = insert_all(entities, next_id, batch);
        assert forall|id: u32|
            #![trigger final_entities.contains_key(id)]
            next_id <= id < next_id + batch.len() implies {
            &&& final_entities.contains_key(id)
            &&& final_entities[id] == batch[id - next_id]
        } by {
            if id > next_id {
                assert(final_entities.contains_key(id));
                assert(batch.drop_first()[id - stepped_next] == batch[id - next_id]);
            } else {
                assert(stepped.contains_key(next_id));
                assert(final_entities.contains_key(next_id) == stepped.contains_key(next_id));
            }
        }
        assert forall|id: u32| #![trigger final_entities.contains_key(id)] id
            < next_id implies {
            &&& final_entities.contains_key(id) == entities.contains_key(id)
            &&& entities.contains_key(id) ==> final_entities[id] == entities[id]
        } by {
            assert(final_entities.contains_key(id) == stepped.contains_key(id));
            assert(stepped.contains_key(id) == entities.contains_key(id));
        }
    }
}

/// Any id issued after a removal differs from the retired id: the id issued
/// at position `i` of a later run is the counter plus `i`, and the counter
/// already exceeds every retired id.
pub proof fn lemma_issued_id_exceeds_retired(next_id: u32, id: u32, i: int)
    requires
        id < next_id,
        0 <= i,
        next_id + i < u32::MAX,
    ensures
        (next_id + i) as u32 != id,
{
}

/// An id retired by a removal is never issued again: after `remove(id)` the
/// id no longer resolves, and the final contents of any later run of
/// insertions still do not bind it — had some insertion reissued the id, the
/// binding would have persisted to the end of the run.
pub proof fn lemma_removed_id_never_reissued(
    entities: Map<u32, Entity>,
    next_id: u32,
    id: u32,
    batch: Seq<Entity>,
)
    requires
        store_wf(entities, next_id),
        id < next_id,
        next_id + batch.len() <= u32::MAX,
    ensures
        !entities.remove(id).contains_key(id),
        !insert_all(entities.remove(id), next_id, batch).0.contains_key(id),
{
    assert(store_wf(entities.remove(id), next_id));
    lemma_insert_sequence(entities.remove(id), next_id, batch);
    let (final_entities, final_next) = insert_all(entities.remove(id), next_id, batch);
    assert(final_entities.contains_key(id) == entities.remove(id).contains_key(id));
}

} // verus!

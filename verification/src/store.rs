//! The entity store: an arena of slots with generation-checked handles.
//!
//! A handle names a slot and the generation the slot had when the entity was
//! put there. Destroying an entity moves its slot to the next generation, so
//! every handle to it goes stale at once and stays stale: no handle is ever
//! given out twice. A slot that has used up its generations is retired.

use crate::entity::{Entity, EntityId, Role};
use vstd::prelude::*;

verus! {

/// The error of an operation on an entity that is not in the store (any
/// more): the handle is stale.
#[derive(Clone, Copy, Debug, PartialEq, Eq)]
pub struct StaleReferenceError {
    pub id: EntityId,
}

/// One place in the arena.
struct Slot {
    generation: u32,
    occupant: Option<Entity>,
}

/// All live entities, each under its handle.
pub struct EntityStore {
    slots: Vec<Slot>,
    issued: Ghost<Set<EntityId>>,
}

impl View for EntityStore {
    type V = Map<EntityId, Entity>;

    /// The live entities by handle.
    closed spec fn view(&self) -> Map<EntityId, Entity> {
        Map::new(
            |id: EntityId| self.live_at(id.index as int) == Some(id),
            |id: EntityId| self.slots[id.index as int].occupant.unwrap(),
        )
    }
}

impl EntityStore {
    /// The handle of the entity that lives in slot `i`, if one does.
    pub closed spec fn live_at(&self, i: int) -> Option<EntityId> {
        if 0 <= i < self.slots.len() && self.slots[i].occupant is Some {
            Some(EntityId { index: i as usize, generation: self.slots[i].generation })
        } else {
            None
        }
    }

    /// The number of slots, used or not.
    pub closed spec fn spec_slot_count(&self) -> usize {
        self.slots.len()
    }

    /// Every handle the store has ever given out.
    pub closed spec fn issued(&self) -> Set<EntityId> {
        self.issued@
    }

    /// The store's invariant: each slot is ahead of every handle that was
    /// given out for it.
    pub closed spec fn wf(&self) -> bool {
        &&& forall|id: EntityId| #[trigger]
            self.issued@.contains(id) ==> {
                &&& id.index < self.slots.len()
                &&& if self.slots[id.index as int].occupant is Some {
                    id.generation <= self.slots[id.index as int].generation
                } else {
                    ||| id.generation < self.slots[id.index as int].generation
                    ||| self.slots[id.index as int].generation == u32::MAX
                }
            }
        &&& forall|i: int|
            0 <= i < self.slots.len() && (#[trigger] self.slots[i]).occupant is Some
                ==> self.issued@.contains(
                EntityId { index: i as usize, generation: self.slots[i].generation },
            )
    }

    /// A live entity sits in one of the slots, and `live_at` finds it there.
    pub proof fn lemma_live_in_slot(&self, id: EntityId)
        requires
            self@.contains_key(id),
        ensures
            id.index < self.spec_slot_count(),
            self.live_at(id.index as int) == Some(id),
    {
    }

    /// What `live_at` finds is live.
    pub proof fn lemma_slot_is_live(&self, i: int)
        ensures
            self.live_at(i) matches Some(id) ==> id.index == i && self@.contains_key(id),
            self.live_at(i) is Some ==> 0 <= i < self.spec_slot_count(),
    {
    }

    /// Every live handle was given out by this store.
    pub proof fn lemma_live_was_issued(&self, id: EntityId)
        requires
            self.wf(),
            self@.contains_key(id),
        ensures
            self.issued().contains(id),
    {
        assert(self.slots[id.index as int].occupant is Some);
    }

    /// A store without slots.
    pub fn new() -> (store: EntityStore)
        ensures
            store.wf(),
            store@ == Map::<EntityId, Entity>::empty(),
            store.issued() == Set::<EntityId>::empty(),
            store.spec_slot_count() == 0,
    {
        let store = EntityStore { slots: Vec::new(), issued: Ghost(Set::empty()) };
        assert(store@ =~= Map::<EntityId, Entity>::empty());
        store
    }

    /// The number of slots. Every live handle has an index below it.
    #[verifier::when_used_as_spec(spec_slot_count)]
    pub fn slot_count(&self) -> (n: usize)
        ensures
            n == self.spec_slot_count(),
    {
        self.slots.len()
    }

    /// The handle of the entity in slot `i`, if the slot holds one.
    pub fn id_at(&self, i: usize) -> (found: Option<EntityId>)
        ensures
            found == self.live_at(i as int),
    {
        if i < self.slots.len() {
            match self.slots[i].occupant {
                Some(_) => Some(EntityId { index: i, generation: self.slots[i].generation }),
                None => None,
            }
        } else {
            None
        }
    }

    /// Whether `id` names a live entity.
    pub fn contains(&self, id: EntityId) -> (live: bool)
        ensures
            live == self@.contains_key(id),
    {
        if id.index < self.slots.len() {
            self.slots[id.index].generation == id.generation && self.slots[id.index].occupant.is_some()
        } else {
            false
        }
    }

    /// The components of the entity `id`, or `None` for a stale handle.
    pub fn get(&self, id: EntityId) -> (found: Option<Entity>)
        ensures
            found == if self@.contains_key(id) {
                Some(self@[id])
            } else {
                None
            },
    {
        if id.index < self.slots.len() && self.slots[id.index].generation == id.generation {
            self.slots[id.index].occupant
        } else {
            None
        }
    }

    /// Puts a new entity into the store and gives out its handle, one that was
    /// never given out before.
    pub fn spawn(&mut self, entity: Entity) -> (id: EntityId)
        requires
            old(self).wf(),
        ensures
            final(self).wf(),
            !old(self).issued().contains(id),
            !old(self)@.contains_key(id),
            final(self)@ == old(self)@.insert(id, entity),
            final(self).issued() == old(self).issued().insert(id),
            final(self).spec_slot_count() >= old(self).spec_slot_count(),
    {
        let mut i: usize = 0;
        while i < self.slots.len() && !(self.slots[i].occupant.is_none() && self.slots[i].generation
            < u32::MAX)
            invariant
                i <= self.slots.len(),
                *self == *old(self),
            decreases self.slots.len() - i,
        {
            i += 1;
        }
        let generation: u32 = if i < self.slots.len() {
            self.slots[i].generation
        } else {
            0
        };
        let id = EntityId { index: i, generation };
        proof {
            if old(self)@.contains_key(id) {
                old(self).lemma_live_was_issued(id);
            }
        }
        if i < self.slots.len() {
            self.slots.set(i, Slot { generation, occupant: Some(entity) });
        } else {
            self.slots.push(Slot { generation, occupant: Some(entity) });
        }
        self.issued = Ghost(self.issued@.insert(id));
        assert(self@ =~= old(self)@.insert(id, entity));
        id
    }

    /// Replaces the components of the entity `id`. A stale handle is an error
    /// and changes nothing.
    pub fn replace(&mut self, id: EntityId, entity: Entity) -> (done: Result<
        (),
        StaleReferenceError,
    >)
        requires
            old(self).wf(),
        ensures
            final(self).wf(),
            final(self).issued() == old(self).issued(),
            final(self).spec_slot_count() == old(self).spec_slot_count(),
            match done {
                Ok(_) => old(self)@.contains_key(id) && final(self)@ == old(self)@.insert(
                    id,
                    entity,
                ),
                Err(e) => !old(self)@.contains_key(id) && final(self)@ == old(self)@ && e.id
                    == id,
            },
    {
        if self.contains(id) {
            self.slots.set(id.index, Slot { generation: id.generation, occupant: Some(entity) });
            assert(self@ =~= old(self)@.insert(id, entity));
            Ok(())
        } else {
            Err(StaleReferenceError { id })
        }
    }

    /// Destroys the entity `id` and hands back its components. A stale handle
    /// is an error and changes nothing, so nothing is destroyed twice.
    pub fn despawn(&mut self, id: EntityId) -> (gone: Result<Entity, StaleReferenceError>)
        requires
            old(self).wf(),
        ensures
            final(self).wf(),
            final(self).issued() == old(self).issued(),
            final(self).spec_slot_count() == old(self).spec_slot_count(),
            match gone {
                Ok(entity) => {
                    &&& old(self)@.contains_key(id)
                    &&& entity == old(self)@[id]
                    &&& final(self)@ == old(self)@.remove(id)
                },
                Err(e) => !old(self)@.contains_key(id) && final(self)@ == old(self)@ && e.id
                    == id,
            },
    {
        match self.get(id) {
            Some(entity) => {
                let next: u32 = if id.generation < u32::MAX {
                    id.generation + 1
                } else {
                    id.generation
                };
                self.slots.set(id.index, Slot { generation: next, occupant: None });
                assert(self@ =~= old(self)@.remove(id));
                Ok(entity)
            },
            None => Err(StaleReferenceError { id }),
        }
    }

    /// Destroys every entity.
    pub fn clear(&mut self)
        requires
            old(self).wf(),
        ensures
            final(self).wf(),
            final(self)@ == Map::<EntityId, Entity>::empty(),
            final(self).issued() == old(self).issued(),
            final(self).spec_slot_count() == old(self).spec_slot_count(),
    {
        let mut i: usize = 0;
        while i < self.slots.len()
            invariant
                i <= self.slots.len(),
                self.wf(),
                self.issued() == old(self).issued(),
                self.spec_slot_count() == old(self).spec_slot_count(),
                forall|id: EntityId| #[trigger] self@.contains_key(id) ==> id.index >= i,
            decreases self.slots.len() - i,
        {
            match self.id_at(i) {
                Some(id) => {
                    let _ = self.despawn(id);
                },
                None => {},
            }
            i += 1;
        }
        assert(self@ =~= Map::<EntityId, Entity>::empty());
    }

    /// The handles of all live entities, or of those with the given role, in
    /// the order of their slots.
    pub fn ids(&self, role: Option<Role>) -> (found: Vec<EntityId>)
        ensures
            forall|id: EntityId|
                found@.contains(id) <==> self@.contains_key(id) && (role matches Some(r)
                    ==> self@[id].role == r),
            forall|j: int, k: int|
                0 <= j < k < found@.len() ==> (#[trigger] found@[j]).index < (
                #[trigger] found@[k]).index,
    {
        let mut found: Vec<EntityId> = Vec::new();
        let mut i: usize = 0;
        while i < self.slots.len()
            invariant
                i <= self.slots.len(),
                forall|j: int| 0 <= j < found@.len() ==> (#[trigger] found@[j]).index < i,
                forall|j: int|
                    0 <= j < found@.len() ==> self@.contains_key(#[trigger] found@[j]) && (
                    role matches Some(r) ==> self@[found@[j]].role == r),
                forall|id: EntityId|
                    self@.contains_key(id) && id.index < i && (role matches Some(r) ==> self@[id].role
                        == r) ==> found@.contains(id),
                forall|j: int, k: int|
                    0 <= j < k < found@.len() ==> (#[trigger] found@[j]).index < (
                    #[trigger] found@[k]).index,
            decreases self.slots.len() - i,
        {
            match self.slots[i].occupant {
                Some(entity) => {
                    let wanted: bool = match role {
                        Some(r) => entity.role == r,
                        None => true,
                    };
                    if wanted {
                        let id = EntityId { index: i, generation: self.slots[i].generation };
                        let ghost before = found@;
                        found.push(id);
                        assert(found@[before.len() as int] == id);
                        assert forall|other: EntityId|
                            self@.contains_key(other) && other.index < i + 1 && (role matches Some(
                                r,
                            ) ==> self@[other].role == r) implies found@.contains(other) by {
                            if other.index < i {
                                assert(before.contains(other));
                                let j = choose|j: int| 0 <= j < before.len() && before[j] == other;
                                assert(found@[j] == other);
                            } else {
                                assert(found@[before.len() as int] == other);
                            }
                        }
                    }
                },
                None => {},
            }
            i += 1;
        }
        found
    }
}

} // verus!

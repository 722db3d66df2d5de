use crate::entities::Entity;
use vstd::prelude::*;

verus! {

/// One slot of the registry: the generation of its latest occupant and whether that occupant
/// is still alive.
#[derive(Clone, Copy, Debug, PartialEq, Eq, Structural)]
pub struct Slot {
    pub generation: u32,
    pub alive: bool,
}

/// Whether a handle resolves in a registry whose slots are `slots`.
pub open spec fn resolves(slots: Seq<Slot>, e: Entity) -> bool {
    e.id < slots.len() && slots[e.id as int].alive && slots[e.id as int].generation == e.generation
}

/// Whether a slot can take a new occupant: its last one is gone and its generation can grow.
pub open spec fn reusable(s: Slot) -> bool {
    !s.alive && s.generation < u32::MAX
}

/// Whether a handle was ever given out for a slot of `slots`, alive or not: generations of a
/// slot only grow, so every handle given out for it has at most its current generation.
pub open spec fn issued_in(slots: Seq<Slot>, e: Entity) -> bool {
    e.id < slots.len() && e.generation <= slots[e.id as int].generation
}

/// The entity registry: hands out generational handles and tells whether a handle still
/// resolves to a live entity. A handle of a destroyed entity never resolves again, even once
/// its slot holds another entity.
pub struct Entities {
    slots: Vec<Slot>,
}

impl View for Entities {
    type V = Seq<Slot>;

    closed spec fn view(&self) -> Seq<Slot> {
        self.slots@
    }
}

impl Entities {
    /// Every slot index fits in a handle.
    pub open spec fn wf(&self) -> bool {
        self@.len() <= u32::MAX as int + 1
    }

    pub fn new() -> (r: Entities)
        ensures
            r@ == Seq::<Slot>::empty(),
            r.wf(),
    {
        Entities { slots: Vec::new() }
    }

    /// Whether `e` still refers to a live entity.
    pub fn is_alive(&self, e: Entity) -> (r: bool)
        ensures
            r == resolves(self@, e),
    {
        let id = e.id as usize;
        if id < self.slots.len() {
            let s = self.slots[id];
            s.alive && s.generation == e.generation
        } else {
            false
        }
    }

    /// The handle of the live entity in slot `id`, if there is one.
    pub fn live_at(&self, id: u32) -> (r: Option<Entity>)
        ensures
            r is Some <==> (id < self@.len() && self@[id as int].alive),
            r matches Some(e) ==> e.id == id && resolves(self@, e),
    {
        let i = id as usize;
        if i < self.slots.len() && self.slots[i].alive {
            Some(Entity { id, generation: self.slots[i].generation })
        } else {
            None
        }
    }

    /// Creates an entity: the first reusable slot takes it under the next generation, or else
    /// a new slot with generation 0. Fails only when no slot is reusable and every index that a
    /// handle can hold is taken.
    pub fn create(&mut self) -> (r: Option<Entity>)
        requires
            old(self).wf(),
        ensures
            final(self).wf(),
            r is None <==> (old(self)@.len() > u32::MAX && forall|i: int|
                0 <= i < old(self)@.len() ==> !reusable(#[trigger] old(self)@[i])),
            r is None ==> final(self)@ == old(self)@,
            r matches Some(e) ==> {
                &&& !resolves(old(self)@, e)
                &&& !issued_in(old(self)@, e)
                &&& resolves(final(self)@, e)
                &&& forall|o: Entity| o != e ==> resolves(final(self)@, o) == resolves(old(self)@, o)
            },
            final(self)@.len() >= old(self)@.len(),
            forall|i: int|
                0 <= i < old(self)@.len() ==> (#[trigger] final(self)@[i]).generation >= old(self)@[i].generation,
    {
        let mut i: usize = 0;
        while i < self.slots.len()
            invariant
                0 <= i <= self.slots@.len(),
                self@ == old(self)@,
                old(self).wf(),
                forall|j: int| 0 <= j < i ==> !reusable(#[trigger] self@[j]),
            decreases self.slots@.len() - i,
        {
            let s = self.slots[i];
            if !s.alive && s.generation < u32::MAX {
                let generation = s.generation + 1;
                self.slots.set(i, Slot { generation, alive: true });
                return Some(Entity { id: i as u32, generation });
            }
            i += 1;
        }
        let n = self.slots.len();
        if n <= u32::MAX as usize {
            self.slots.push(Slot { generation: 0, alive: true });
            Some(Entity { id: n as u32, generation: 0 })
        } else {
            None
        }
    }

    /// Destroys the entity `e` refers to. Returns whether it was alive; a stale handle changes
    /// nothing.
    pub fn delete(&mut self, e: Entity) -> (r: bool)
        requires
            old(self).wf(),
        ensures
            final(self).wf(),
            r == resolves(old(self)@, e),
            !resolves(final(self)@, e),
            forall|o: Entity| o != e ==> resolves(final(self)@, o) == resolves(old(self)@, o),
            forall|o: Entity| issued_in(final(self)@, o) == issued_in(old(self)@, o),
            final(self)@.len() == old(self)@.len(),
    {
        let id = e.id as usize;
        if id < self.slots.len() {
            let s = self.slots[id];
            if s.alive && s.generation == e.generation {
                self.slots.set(id, Slot { generation: s.generation, alive: false });
                return true;
            }
        }
        false
    }
}

} // verus!

use vstd::prelude::*;

verus! {

/// An opaque handle to a simulation entity: a slot index and the generation of the slot's
/// occupant. A handle stays valid until its entity is destroyed; the slot may later be
/// reused under a higher generation, which the old handle does not match.
#[derive(Clone, Copy, Debug, PartialEq, Eq, Structural)]
pub struct Entity {
    pub id: u32,
    pub generation: u32,
}

impl Entity {
    pub fn new(id: u32, generation: u32) -> (r: Entity)
        ensures
            r.id == id,
            r.generation == generation,
    {
        Entity { id, generation }
    }
}

/// The intent of a trader: waiting for a destination, or flying to a target entity.
#[derive(Clone, Copy, Debug, PartialEq, Eq, Structural)]
pub enum ShipBehaviour {
    Idle,
    FlyTo(Entity),
}

impl ShipBehaviour {
    /// The target of a flying trader, if any.
    pub fn target(&self) -> (r: Option<Entity>)
        ensures
            r == (match *self {
                ShipBehaviour::Idle => None,
                ShipBehaviour::FlyTo(t) => Some(t),
            }),
    {
        match *self {
            ShipBehaviour::Idle => None,
            ShipBehaviour::FlyTo(t) => Some(t),
        }
    }
}

/// Marks an entity as a station: a way-point that traders may be sent to.
#[derive(Clone, Copy, Debug, Default, PartialEq, Eq, Structural)]
pub struct Station;

/// Marks an entity as a trader: it is assigned destinations and steered towards them.
#[derive(Clone, Copy, Debug, Default, PartialEq, Eq, Structural)]
pub struct Trader;

/// Ties an entity (a label, for one) to the entity it belongs to.
#[derive(Clone, Copy, Debug, PartialEq, Eq, Structural)]
pub struct Parent(pub Entity);

/// Marks an interface element that is placed relative to its parent entity.
#[derive(Clone, Copy, Debug, Default, PartialEq, Eq, Structural)]
pub struct UiRelative;

} // verus!

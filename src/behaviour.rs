use crate::entities::{Entity, ShipBehaviour};
use rand::seq::IteratorRandom;
use vstd::prelude::*;

verus! {

/// Why an idle-assignment pass could not send an idle trader anywhere.
#[derive(Clone, Copy, Debug, PartialEq, Eq, Structural)]
pub enum SelectionError {
    /// A trader was idle while no station existed; it stays idle this tick.
    DegenerateSelection,
}

/// Relies on rand's `IteratorRandom::choose`, driven by `thread_rng`: it returns `None` exactly
/// when the iterator is empty, and otherwise one of the iterator's items.
#[verifier::external_body]
fn choose_station(stations: &Vec<Entity>) -> (r: Option<Entity>)
    ensures
        r is None <==> stations@.len() == 0,
        r matches Some(s) ==> stations@.contains(s),
{
    stations.iter().choose(&mut rand::thread_rng()).copied()
}

/// The intent of a trader after a station was drawn for it (or none could be).
pub open spec fn assigned(b: ShipBehaviour, choice: Option<Entity>) -> ShipBehaviour {
    match (b, choice) {
        (ShipBehaviour::Idle, Some(s)) => ShipBehaviour::FlyTo(s),
        _ => b,
    }
}

/// What one idle-assignment pass may leave in a trader's place: a flying trader keeps its
/// target; an idle one stays idle when there is no station, and otherwise flies to one of them.
pub open spec fn assignment_allows(before: ShipBehaviour, after: ShipBehaviour, stations: Seq<Entity>) -> bool {
    match before {
        ShipBehaviour::FlyTo(_) => after == before,
        ShipBehaviour::Idle => if stations.len() == 0 {
            after is Idle
        } else {
            after matches ShipBehaviour::FlyTo(s) && stations.contains(s)
        },
    }
}

/// With a single station the random draw has one outcome: every trader that was idle flies
/// to that station after the pass, and every other trader is unchanged.
pub proof fn lemma_single_station(before: Seq<ShipBehaviour>, after: Seq<ShipBehaviour>, station: Entity)
    requires
        after.len() == before.len(),
        forall|i: int| 0 <= i < before.len() ==> assignment_allows(#[trigger] before[i], after[i], seq![station]),
    ensures
        forall|i: int| 0 <= i < before.len() ==> (#[trigger] after[i]) == (if before[i] is Idle {
            ShipBehaviour::FlyTo(station)
        } else {
            before[i]
        }),
{
    assert forall|i: int| 0 <= i < before.len() implies (#[trigger] after[i]) == (if before[i] is Idle {
        ShipBehaviour::FlyTo(station)
    } else {
        before[i]
    }) by {
        assert(assignment_allows(before[i], after[i], seq![station]));
        if before[i] is Idle {
            let s = after[i]->FlyTo_0;
            assert(seq![station].contains(s));
            let k = choose|k: int| 0 <= k < 1 && seq![station][k] == s;
            assert(seq![station][k] == station);
        }
    }
}

/// The idle-assignment rule: every idle trader is sent to a station drawn uniformly at random.
#[derive(Clone, Copy, Debug, Default, PartialEq, Eq, Structural)]
pub struct Idle;

impl Idle {
    /// Applies the station drawn for one trader to its intent.
    pub fn assign(&self, behaviour: ShipBehaviour, choice: Option<Entity>) -> (r: ShipBehaviour)
        ensures
            r == assigned(behaviour, choice),
    {
        match (behaviour, choice) {
            (ShipBehaviour::Idle, Some(s)) => ShipBehaviour::FlyTo(s),
            _ => behaviour,
        }
    }

    /// Runs one pass over all traders' intents, drawing a station independently for each idle
    /// one. With no station at hand idle traders stay idle, and the pass reports it.
    pub fn run(&mut self, behaviours: &mut Vec<ShipBehaviour>, stations: &Vec<Entity>) -> (r: Result<(), SelectionError>)
        ensures
            final(behaviours)@.len() == old(behaviours)@.len(),
            forall|i: int|
                0 <= i < old(behaviours)@.len() ==> assignment_allows(
                    #[trigger] old(behaviours)@[i],
                    final(behaviours)@[i],
                    stations@,
                ),
            r is Err <==> (stations@.len() == 0 && exists|i: int|
                0 <= i < old(behaviours)@.len() && (#[trigger] old(behaviours)@[i]) is Idle),
    {
        let ghost before = behaviours@;
        let mut degenerate = false;
        let mut i: usize = 0;
        while i < behaviours.len()
            invariant
                behaviours@.len() == before.len(),
                0 <= i <= before.len(),
                forall|j: int| 0 <= j < i ==> assignment_allows(#[trigger] before[j], behaviours@[j], stations@),
                forall|j: int| i <= j < before.len() ==> #[trigger] behaviours@[j] == before[j],
                degenerate <==> (stations@.len() == 0 && exists|j: int| 0 <= j < i && (#[trigger] before[j]) is Idle),
            decreases before.len() - i,
        {
            let b = behaviours[i];
            if let ShipBehaviour::Idle = b {
                let choice = choose_station(stations);
                if choice.is_none() {
                    degenerate = true;
                }
                let next = self.assign(b, choice);
                behaviours.set(i, next);
            }
            i += 1;
        }
        if degenerate {
            Err(SelectionError::DegenerateSelection)
        } else {
            Ok(())
        }
    }
}


/// What the host learned of a flying trader's target this tick.
#[derive(Clone, Copy, Debug, PartialEq, Eq, Structural)]
pub enum TargetStatus {
    /// The target handle no longer resolves to a live entity with a position.
    Vanished,
    /// The target resolves, at a squared distance not below the arrival threshold.
    Distant,
    /// The target resolves, at a squared distance below the arrival threshold.
    Reached,
}

/// What travel control does for one trader in one tick.
#[derive(Clone, Copy, Debug, PartialEq, Eq, Structural)]
pub enum Control {
    /// Nothing changes: the trader is idle, or its target vanished.
    Hold,
    /// The trader arrived: it turns idle and fires no thruster this tick.
    Arrive,
    /// The trader keeps flying and fires its thrusters as the rotation law commands.
    Steer,
}

/// The travel-control decision for a trader's intent and what was learned of its target.
pub open spec fn control_of(b: ShipBehaviour, status: TargetStatus) -> Control {
    match b {
        ShipBehaviour::Idle => Control::Hold,
        ShipBehaviour::FlyTo(_) => match status {
            TargetStatus::Vanished => Control::Hold,
            TargetStatus::Distant => Control::Steer,
            TargetStatus::Reached => Control::Arrive,
        },
    }
}

/// A trader's intent after one tick of travel control.
pub open spec fn travelled(b: ShipBehaviour, status: TargetStatus) -> ShipBehaviour {
    if control_of(b, status) is Arrive {
        ShipBehaviour::Idle
    } else {
        b
    }
}

/// The two rotational thrusters of a trader, each off (0) or at full power (1).
#[derive(Clone, Copy, Debug, PartialEq, Eq, Structural)]
pub struct Thrusters {
    pub left: u8,
    pub right: u8,
}

impl Thrusters {
    /// Splits a rotation power of -1, 0 or 1 into the two thrusters: a positive power fires the
    /// left one, a negative power the right one. Forward thrust is `left + right` times the
    /// linear acceleration; angular acceleration is `left - right` times the angular one.
    pub fn from_power(power: i8) -> (r: Thrusters)
        requires
            -1 <= power <= 1,
        ensures
            r.left == (if power > 0 { power as int } else { 0 }),
            r.right == (if power < 0 { -power } else { 0 }),
            r.left * r.right == 0,
            r.left - r.right == power,
    {
        if power > 0 {
            Thrusters { left: 1, right: 0 }
        } else if power < 0 {
            Thrusters { left: 0, right: 1 }
        } else {
            Thrusters { left: 0, right: 0 }
        }
    }

    /// How many thrusters fire, the factor of the forward thrust.
    pub fn forward(&self) -> (r: u8)
        requires
            self.left <= 1,
            self.right <= 1,
        ensures
            r == self.left + self.right,
    {
        self.left + self.right
    }

    /// The sign of the angular acceleration: 1 for left, -1 for right, 0 for none.
    pub fn turn(&self) -> (r: i8)
        requires
            self.left <= 1,
            self.right <= 1,
        ensures
            r == self.left - self.right,
    {
        self.left as i8 - self.right as i8
    }
}

/// The travel-control system: steers flying traders and detects their arrival.
#[derive(Clone, Copy, Debug, Default, PartialEq, Eq, Structural)]
pub struct FlyTo;

impl FlyTo {
    /// Decides what to do for one trader this tick and updates its intent: an idle trader and
    /// one whose target vanished are left alone, one that reached its target turns idle, and
    /// any other flying trader is steered.
    pub fn run(&mut self, behaviour: &mut ShipBehaviour, status: TargetStatus) -> (r: Control)
        ensures
            r == control_of(*old(behaviour), status),
            *final(behaviour) == travelled(*old(behaviour), status),
    {
        match *behaviour {
            ShipBehaviour::Idle => Control::Hold,
            ShipBehaviour::FlyTo(_) => match status {
                TargetStatus::Vanished => Control::Hold,
                TargetStatus::Distant => Control::Steer,
                TargetStatus::Reached => {
                    *behaviour = ShipBehaviour::Idle;
                    Control::Arrive
                },
            },
        }
    }
}

/// Arrival is final for the tick: once travel control has turned a trader idle, running it
/// again, whatever is then learned of a target, leaves the trader idle and fires nothing.
pub proof fn lemma_arrival_idempotent(b: ShipBehaviour, status: TargetStatus, again: TargetStatus)
    requires
        control_of(b, status) is Arrive,
    ensures
        travelled(b, status) is Idle,
        travelled(travelled(b, status), again) == travelled(b, status),
        control_of(travelled(b, status), again) is Hold,
{
}

/// A target that vanished costs a flying trader nothing but the tick: its intent, target
/// included, is kept and no thruster fires.
pub proof fn lemma_vanished_target_kept(target: Entity)
    ensures
        travelled(ShipBehaviour::FlyTo(target), TargetStatus::Vanished) == ShipBehaviour::FlyTo(target),
        control_of(ShipBehaviour::FlyTo(target), TargetStatus::Vanished) is Hold,
{
}

} // verus!

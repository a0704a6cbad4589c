//! What a tower does each tick: shoot the first hostile creep in its room,
//! and repair the first of its owner's structures that has lost more than
//! 800 hit points.
use vstd::prelude::*;
use crate::actions::{is_worn, worn, Durability};

verus! {

/// A tower's orders for the tick.
#[derive(Clone, Copy, Debug, PartialEq, Eq, Structural)]
pub struct TowerPlan {
    /// Attack the first hostile creep of the room.
    pub attack_first_hostile: bool,
    /// Repair the structure at this index of the room's own structures.
    pub repair: Option<usize>,
}

/// The hit points a structure may lose before a tower repairs it.
pub open spec fn tower_repair_margin() -> int {
    800
}

/// A tower's orders: attack when the room holds a hostile creep; repair the
/// first own structure that has lost more than 800 hit points, if any.
pub fn run_tower(hostile_count: usize, structures: &Vec<Durability>) -> (plan: TowerPlan)
    ensures
        plan.attack_first_hostile == (hostile_count > 0),
        plan.repair matches Some(i) ==> {
            &&& i < structures.len()
            &&& worn(structures@[i as int], tower_repair_margin())
            &&& forall|j: int| 0 <= j < i ==> !worn(#[trigger] structures@[j], tower_repair_margin())
        },
        plan.repair is None ==> forall|j: int| 0 <= j < structures.len() ==> !worn(#[trigger] structures@[j], tower_repair_margin()),
{
    let attack_first_hostile = hostile_count > 0;
    let mut i: usize = 0;
    while i < structures.len()
        invariant
            i <= structures.len(),
            attack_first_hostile == (hostile_count > 0),
            forall|j: int| 0 <= j < i ==> !worn(#[trigger] structures@[j], tower_repair_margin()),
        decreases structures.len() - i,
    {
        if is_worn(structures[i], 800) {
            return TowerPlan { attack_first_hostile, repair: Some(i) };
        }
        i += 1;
    }
    TowerPlan { attack_first_hostile, repair: None }
}

/// What a tower does, for every input, stated of any plan that meets
/// `run_tower`'s contract: it attacks exactly when a hostile creep is in
/// its room, and repairs the first of its owner's structures whose hit
/// points are more than 800 below their maximum, and nothing when none is.
pub proof fn lemma_tower_orders(hostile_count: usize, structures: Seq<Durability>, plan: TowerPlan)
    requires
        plan.attack_first_hostile == (hostile_count > 0),
        plan.repair matches Some(i) ==> {
            &&& i < structures.len()
            &&& worn(structures[i as int], tower_repair_margin())
            &&& forall|j: int| 0 <= j < i ==> !worn(#[trigger] structures[j], tower_repair_margin())
        },
        plan.repair is None ==> forall|j: int| 0 <= j < structures.len() ==> !worn(#[trigger] structures[j], tower_repair_margin()),
    ensures
        plan.attack_first_hostile <==> hostile_count > 0,
        forall|i: int|
            0 <= i < structures.len() && (#[trigger] structures[i]).hits + 800 < structures[i].hits_max && (forall|j: int|
                0 <= j < i ==> !((#[trigger] structures[j]).hits + 800 < structures[j].hits_max)) ==> plan.repair == Some(
                i as usize,
            ),
        (forall|j: int| 0 <= j < structures.len() ==> !((#[trigger] structures[j]).hits + 800 < structures[j].hits_max))
            ==> plan.repair is None,
{
    assert forall|i: int|
        0 <= i < structures.len() && (#[trigger] structures[i]).hits + 800 < structures[i].hits_max && (forall|j: int|
            0 <= j < i ==> !((#[trigger] structures[j]).hits + 800 < structures[j].hits_max)) implies plan.repair == Some(
            i as usize,
        ) by {
        assert(worn(structures[i], tower_repair_margin()));
        if let Some(k) = plan.repair {
            if (k as int) < i {
                assert(worn(structures[k as int], tower_repair_margin()));
            } else if (k as int) > i {
                assert(!worn(structures[i], tower_repair_margin()));
            }
        }
    }
}

} // verus!

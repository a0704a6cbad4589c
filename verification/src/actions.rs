//! The decisions around a single creep action: what to do after the game
//! answers, how much energy to hand over, and which structure to serve.
use vstd::prelude::*;
use crate::positions::{is_near, within_one};

verus! {

/// The game's answer to an action.
#[derive(Clone, Copy, Debug, PartialEq, Eq, Structural)]
pub enum ReturnCode {
    Success,
    NotOwner,
    NoPath,
    NameExists,
    Busy,
    NotFound,
    NotEnough,
    InvalidTarget,
    Full,
    NotInRange,
    InvalidArgs,
    Tired,
    NoBodypart,
    RclNotEnough,
    GclNotEnough,
}

/// What a creep does after an action was answered.
#[derive(Clone, Copy, Debug, PartialEq, Eq, Structural)]
pub enum FollowUp {
    /// The action went through; nothing more to do.
    Nothing,
    /// The target was out of reach: move toward it.
    MoveCloser,
    /// The target of a transfer is full: forget it as the fill target.
    ForgetFillTarget,
    /// Anything else: report it as a warning.
    Report,
}

/// After upgrading a controller, building or reserving: move closer when out
/// of range, report any other failure.
pub fn after_work(code: ReturnCode) -> (next: FollowUp)
    ensures
        next == (match code {
            ReturnCode::NotInRange => FollowUp::MoveCloser,
            ReturnCode::Success => FollowUp::Nothing,
            _ => FollowUp::Report,
        }),
{
    match code {
        ReturnCode::NotInRange => FollowUp::MoveCloser,
        ReturnCode::Success => FollowUp::Nothing,
        _ => FollowUp::Report,
    }
}

/// After a transfer of energy: move closer when out of range, forget the
/// fill target when it is full, report any other failure.
pub fn after_transfer(code: ReturnCode) -> (next: FollowUp)
    ensures
        next == (match code {
            ReturnCode::NotInRange => FollowUp::MoveCloser,
            ReturnCode::Full => FollowUp::ForgetFillTarget,
            ReturnCode::Success => FollowUp::Nothing,
            _ => FollowUp::Report,
        }),
{
    match code {
        ReturnCode::NotInRange => FollowUp::MoveCloser,
        ReturnCode::Full => FollowUp::ForgetFillTarget,
        ReturnCode::Success => FollowUp::Nothing,
        _ => FollowUp::Report,
    }
}

/// The energy handed over when filling a structure: all the creep carries,
/// or as much as the structure still takes, whichever is less (nothing when
/// the structure takes nothing).
pub fn fill_amount(creep_energy: u32, free_capacity: i32) -> (amount: u32)
    ensures
        free_capacity <= 0 ==> amount == 0,
        free_capacity > 0 ==> amount == (if creep_energy <= free_capacity { creep_energy as int } else { free_capacity as int }),
{
    if free_capacity <= 0 {
        0
    } else if creep_energy <= free_capacity as u32 {
        creep_energy
    } else {
        free_capacity as u32
    }
}

/// The hit points of a structure that can be damaged.
#[derive(Clone, Copy, Debug, PartialEq, Eq, Structural)]
pub struct Durability {
    pub hits: u32,
    pub hits_max: u32,
}

/// Whether a structure has lost more than `margin` hit points.
pub open spec fn worn(d: Durability, margin: int) -> bool {
    d.hits + margin < d.hits_max
}

/// The hit points that a creep's repair waits for before it mends a road
/// or other structure under its feet.
pub open spec fn road_repair_margin() -> int {
    300
}

/// Whether a structure has lost more than `margin` hit points.
pub fn is_worn(d: Durability, margin: u32) -> (w: bool)
    ensures
        w == worn(d, margin as int),
{
    (d.hits as u64) + (margin as u64) < d.hits_max as u64
}

/// Of the structures under a creep (each with its hit points, or `None`
/// where it cannot be damaged), the first that has lost more than 300 hit
/// points: the one the creep repairs. `None` when there is none.
pub fn repair_local_road(structures: &Vec<Option<Durability>>) -> (target: Option<usize>)
    ensures
        target matches Some(i) ==> {
            &&& i < structures.len()
            &&& structures@[i as int] matches Some(d) && worn(d, road_repair_margin())
            &&& forall|j: int| 0 <= j < i ==> !(#[trigger] structures@[j] matches Some(d) && worn(d, road_repair_margin()))
        },
        target is None ==> forall|j: int| 0 <= j < structures.len() ==> !(#[trigger] structures@[j] matches Some(d) && worn(d, road_repair_margin())),
{
    let mut i: usize = 0;
    while i < structures.len()
        invariant
            i <= structures.len(),
            forall|j: int| 0 <= j < i ==> !(#[trigger] structures@[j] matches Some(d) && worn(d, road_repair_margin())),
        decreases structures.len() - i,
    {
        match structures[i] {
            Some(d) => {
                if is_worn(d, 300) {
                    return Some(i);
                }
            },
            None => {},
        }
        i += 1;
    }
    None
}

/// The kinds of structure that the creeps fill with energy.
#[derive(Clone, Copy, Debug, PartialEq, Eq, Structural)]
pub enum StoreKind {
    Tower,
    Extension,
    Spawn,
    Storage,
    Other,
}

/// A structure as the fillers see it: its kind and the energy it still takes.
#[derive(Clone, Copy, Debug, PartialEq, Eq, Structural)]
pub struct StoreInfo {
    pub kind: StoreKind,
    pub free_energy: i32,
}

/// Whether a structure next to a creep is one it tops up: a tower or an
/// extension that takes energy.
pub open spec fn adjacent_fillable(s: StoreInfo) -> bool {
    (s.kind == StoreKind::Tower || s.kind == StoreKind::Extension) && s.free_energy > 0
}

/// Of the structures next to a creep, the last tower or extension that
/// still takes energy: the one the creep fills. `None` when there is none.
pub fn fill_adjacent(structures: &Vec<StoreInfo>) -> (target: Option<usize>)
    ensures
        target matches Some(i) ==> {
            &&& i < structures.len()
            &&& adjacent_fillable(structures@[i as int])
            &&& forall|j: int| i < j < structures.len() ==> !adjacent_fillable(#[trigger] structures@[j])
        },
        target is None ==> forall|j: int| 0 <= j < structures.len() ==> !adjacent_fillable(#[trigger] structures@[j]),
{
    let mut found: Option<usize> = None;
    let mut i: usize = 0;
    while i < structures.len()
        invariant
            i <= structures.len(),
            found matches Some(k) ==> {
                &&& k < i
                &&& adjacent_fillable(structures@[k as int])
                &&& forall|j: int| k < j < i ==> !adjacent_fillable(#[trigger] structures@[j])
            },
            found is None ==> forall|j: int| 0 <= j < i ==> !adjacent_fillable(#[trigger] structures@[j]),
        decreases structures.len() - i,
    {
        let s = structures[i];
        let is_kind = match s.kind {
            StoreKind::Tower => true,
            StoreKind::Extension => true,
            _ => false,
        };
        if is_kind && s.free_energy > 0 {
            found = Some(i);
        }
        i += 1;
    }
    found
}

/// What a harvester does at its source.
#[derive(Clone, Copy, Debug, PartialEq, Eq, Structural)]
pub enum HarvestStep {
    /// It stands next to the source: harvest.
    Harvest,
    /// It is away from the source: move to it.
    Approach,
    /// The source cannot be seen: forget it.
    ForgetSource,
}

/// A harvester harvests a source it stands next to, walks to one it does not,
/// and forgets a source it cannot see (`None`). Positions are packed.
pub fn harvest(creep_position: u32, source_position: Option<u32>) -> (step: HarvestStep)
    ensures
        source_position is None ==> step == HarvestStep::ForgetSource,
        source_position matches Some(p) ==> step == (if within_one(creep_position, p) {
            HarvestStep::Harvest
        } else {
            HarvestStep::Approach
        }),
{
    match source_position {
        None => HarvestStep::ForgetSource,
        Some(p) => {
            if is_near(creep_position, p) {
                HarvestStep::Harvest
            } else {
                HarvestStep::Approach
            }
        },
    }
}

/// Which structure under a creep is repaired, for every input, stated of
/// any answer that meets `repair_local_road`'s contract: the first one whose
/// hit points are more than 300 below their maximum, and none when no such
/// structure is there.
pub proof fn lemma_repair_local_road_target(structures: Seq<Option<Durability>>, target: Option<usize>)
    requires
        target matches Some(i) ==> {
            &&& i < structures.len()
            &&& structures[i as int] matches Some(d) && worn(d, road_repair_margin())
            &&& forall|j: int| 0 <= j < i ==> !(#[trigger] structures[j] matches Some(d) && worn(d, road_repair_margin()))
        },
        target is None ==> forall|j: int| 0 <= j < structures.len() ==> !(#[trigger] structures[j] matches Some(d) && worn(d, road_repair_margin())),
    ensures
        forall|i: int|
            0 <= i < structures.len() && (#[trigger] structures[i] matches Some(d) && d.hits + 300 < d.hits_max) && (forall|j: int|
                0 <= j < i ==> !(#[trigger] structures[j] matches Some(d) && d.hits + 300 < d.hits_max)) ==> target == Some(i as usize),
        (forall|j: int| 0 <= j < structures.len() ==> !(#[trigger] structures[j] matches Some(d) && d.hits + 300 < d.hits_max))
            ==> target is None,
{
    assert forall|i: int|
        0 <= i < structures.len() && (#[trigger] structures[i] matches Some(d) && d.hits + 300 < d.hits_max) && (forall|j: int|
            0 <= j < i ==> !(#[trigger] structures[j] matches Some(d) && d.hits + 300 < d.hits_max)) implies target == Some(i as usize) by {
        if let Some(k) = target {
            if (k as int) < i {
                assert(structures[k as int] matches Some(d) && worn(d, road_repair_margin()));
            } else if (k as int) > i {
                assert(!(structures[i] matches Some(d) && worn(d, road_repair_margin())));
            }
        }
    }
}

/// Which structure next to a creep is filled, for every input, stated of
/// any answer that meets `fill_adjacent`'s contract: the last tower or
/// extension that still takes energy, and none when there is none; spawns,
/// storages and other structures are never filled this way.
pub proof fn lemma_fill_adjacent_target(structures: Seq<StoreInfo>, target: Option<usize>)
    requires
        target matches Some(i) ==> {
            &&& i < structures.len()
            &&& adjacent_fillable(structures[i as int])
            &&& forall|j: int| i < j < structures.len() ==> !adjacent_fillable(#[trigger] structures[j])
        },
        target is None ==> forall|j: int| 0 <= j < structures.len() ==> !adjacent_fillable(#[trigger] structures[j]),
    ensures
        target matches Some(i) ==> (structures[i as int].kind == StoreKind::Tower || structures[i as int].kind == StoreKind::Extension)
            && structures[i as int].free_energy > 0,
        forall|i: int|
            0 <= i < structures.len() && ((#[trigger] structures[i]).kind == StoreKind::Tower || structures[i].kind
                == StoreKind::Extension) && structures[i].free_energy > 0 && (forall|j: int|
                i < j < structures.len() ==> !(((#[trigger] structures[j]).kind == StoreKind::Tower || structures[j].kind
                    == StoreKind::Extension) && structures[j].free_energy > 0)) ==> target == Some(i as usize),
        (forall|j: int|
            0 <= j < structures.len() ==> !(((#[trigger] structures[j]).kind == StoreKind::Tower || structures[j].kind
                == StoreKind::Extension) && structures[j].free_energy > 0)) ==> target is None,
{
    assert forall|i: int|
        0 <= i < structures.len() && ((#[trigger] structures[i]).kind == StoreKind::Tower || structures[i].kind
            == StoreKind::Extension) && structures[i].free_energy > 0 && (forall|j: int|
            i < j < structures.len() ==> !(((#[trigger] structures[j]).kind == StoreKind::Tower || structures[j].kind
                == StoreKind::Extension) && structures[j].free_energy > 0)) implies target == Some(i as usize) by {
        assert(adjacent_fillable(structures[i]));
        if let Some(k) = target {
            if (k as int) > i {
                assert(adjacent_fillable(structures[k as int]));
            } else if (k as int) < i {
                assert(!adjacent_fillable(structures[i]));
            }
        }
    }
}

} // verus!

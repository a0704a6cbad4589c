//! Creeps that fetch energy from the home room's storage and deliver it:
//! fillers take it to towers, extensions and spawns; upgraders to the
//! controller. Each keeps one flag in its memory, `withdrawing`.
use vstd::prelude::*;
use crate::actions::{StoreInfo, StoreKind};

verus! {

/// Where a carrier stands in its cycle this tick.
#[derive(Clone, Copy, Debug, PartialEq, Eq, Structural)]
pub enum CarrierPhase {
    /// It was withdrawing and is full: clear the `withdrawing` flag.
    StopWithdrawing,
    /// It is withdrawing and has room: withdraw energy from storage.
    Withdraw,
    /// It was delivering and is empty: set the `withdrawing` flag.
    StartWithdrawing,
    /// It is delivering and carries energy: deliver it.
    Deliver,
}

/// The phase of a carrier from its flag, its free capacity and its energy.
pub open spec fn carrier_phase_of(withdrawing: bool, free_capacity: i32, energy: u32) -> CarrierPhase {
    if withdrawing {
        if free_capacity == 0 {
            CarrierPhase::StopWithdrawing
        } else {
            CarrierPhase::Withdraw
        }
    } else if energy == 0 {
        CarrierPhase::StartWithdrawing
    } else {
        CarrierPhase::Deliver
    }
}

/// A carrier stops withdrawing only when full and starts only when empty;
/// otherwise it keeps doing what its flag says.
pub proof fn lemma_carrier_cycle(withdrawing: bool, free_capacity: i32, energy: u32)
    ensures
        carrier_phase_of(withdrawing, free_capacity, energy) == CarrierPhase::StopWithdrawing ==> withdrawing
            && free_capacity == 0,
        carrier_phase_of(withdrawing, free_capacity, energy) == CarrierPhase::Withdraw ==> withdrawing
            && free_capacity != 0,
        carrier_phase_of(withdrawing, free_capacity, energy) == CarrierPhase::StartWithdrawing ==> !withdrawing
            && energy == 0,
        carrier_phase_of(withdrawing, free_capacity, energy) == CarrierPhase::Deliver ==> !withdrawing && energy
            > 0,
{
}

/// The phase of a carrier from its flag, its free capacity and its energy.
pub fn carrier_phase(withdrawing: bool, free_capacity: i32, energy: u32) -> (phase: CarrierPhase)
    ensures
        phase == carrier_phase_of(withdrawing, free_capacity, energy),
{
    if withdrawing {
        if free_capacity == 0 {
            CarrierPhase::StopWithdrawing
        } else {
            CarrierPhase::Withdraw
        }
    } else if energy == 0 {
        CarrierPhase::StartWithdrawing
    } else {
        CarrierPhase::Deliver
    }
}

/// What a filler does this tick.
#[derive(Clone, Copy, Debug, PartialEq, Eq, Structural)]
pub enum FillerStep {
    /// It is still being spawned: nothing.
    Wait,
    /// A step of the withdraw cycle other than delivering.
    Cycle(CarrierPhase),
    /// Deliver to the structure at this index of the home room's list.
    Fill(usize),
    /// It carries energy but no structure takes any: nothing.
    Idle,
}

/// A tower that takes more than 100 more energy.
pub open spec fn tower_to_fill(s: StoreInfo) -> bool {
    s.kind == StoreKind::Tower && s.free_energy > 100
}

/// An extension or a spawn that takes energy.
pub open spec fn extension_to_fill(s: StoreInfo) -> bool {
    (s.kind == StoreKind::Extension || s.kind == StoreKind::Spawn) && s.free_energy > 0
}

/// The first structure of `structures` that a filler serves: the first
/// tower that takes more than 100 energy, else the first extension or
/// spawn that takes any.
pub open spec fn filler_target_ok(structures: Seq<StoreInfo>, i: int) -> bool {
    &&& 0 <= i < structures.len()
    &&& (tower_to_fill(structures[i]) && forall|j: int| 0 <= j < i ==> !tower_to_fill(#[trigger] structures[j]))
        || (extension_to_fill(structures[i]) && (forall|j: int| 0 <= j < structures.len() ==> !tower_to_fill(#[trigger] structures[j]))
        && forall|j: int| 0 <= j < i ==> !extension_to_fill(#[trigger] structures[j]))
}

/// The first structure that satisfies the kind and energy test given.
fn first_with(structures: &Vec<StoreInfo>, towers: bool) -> (found: Option<usize>)
    ensures
        found matches Some(i) ==> {
            &&& i < structures.len()
            &&& (if towers { tower_to_fill(structures@[i as int]) } else { extension_to_fill(structures@[i as int]) })
            &&& forall|j: int| 0 <= j < i ==> !(if towers { tower_to_fill(#[trigger] structures@[j]) } else { extension_to_fill(structures@[j]) })
        },
        found is None ==> forall|j: int| 0 <= j < structures.len() ==> !(if towers { tower_to_fill(#[trigger] structures@[j]) } else { extension_to_fill(structures@[j]) }),
{
    let mut i: usize = 0;
    while i < structures.len()
        invariant
            i <= structures.len(),
            forall|j: int| 0 <= j < i ==> !(if towers { tower_to_fill(#[trigger] structures@[j]) } else { extension_to_fill(structures@[j]) }),
        decreases structures.len() - i,
    {
        let s = structures[i];
        let hit = if towers {
            match s.kind {
                StoreKind::Tower => s.free_energy > 100,
                _ => false,
            }
        } else {
            match s.kind {
                StoreKind::Extension => s.free_energy > 0,
                StoreKind::Spawn => s.free_energy > 0,
                _ => false,
            }
        };
        if hit {
            return Some(i);
        }
        i += 1;
    }
    None
}

/// A filler's tick. While spawning it waits. While withdrawing it fills up
/// from storage and stops once full. While delivering it starts withdrawing
/// once empty, else it fills the first tower of the home room that takes
/// more than 100 energy, else the first extension or spawn that takes any.
pub fn run_filler(spawning: bool, withdrawing: bool, free_capacity: i32, energy: u32, structures: &Vec<StoreInfo>) -> (step: FillerStep)
    ensures
        spawning ==> step == FillerStep::Wait,
        !spawning && carrier_phase_of(withdrawing, free_capacity, energy) != CarrierPhase::Deliver ==> step
            == FillerStep::Cycle(carrier_phase_of(withdrawing, free_capacity, energy)),
        !spawning && carrier_phase_of(withdrawing, free_capacity, energy) == CarrierPhase::Deliver ==> {
            &&& step matches FillerStep::Fill(i) ==> filler_target_ok(structures@, i as int)
            &&& step is Idle <==> forall|j: int| 0 <= j < structures.len() ==> !tower_to_fill(#[trigger] structures@[j])
                && !extension_to_fill(structures@[j])
            &&& step is Fill || step is Idle
        },
{
    if spawning {
        return FillerStep::Wait;
    }
    let phase = carrier_phase(withdrawing, free_capacity, energy);
    match phase {
        CarrierPhase::Deliver => {
            match first_with(structures, true) {
                Some(i) => FillerStep::Fill(i),
                None => match first_with(structures, false) {
                    Some(i) => FillerStep::Fill(i),
                    None => FillerStep::Idle,
                },
            }
        },
        _ => FillerStep::Cycle(phase),
    }
}

/// What an upgrader does this tick.
#[derive(Clone, Copy, Debug, PartialEq, Eq, Structural)]
pub enum UpgraderStep {
    /// It is still being spawned: nothing.
    Wait,
    /// A step of the withdraw cycle other than delivering.
    Cycle(CarrierPhase),
    /// Upgrade the home room's controller.
    Upgrade,
}

/// An upgrader's tick: the withdraw cycle of a carrier, delivering by
/// upgrading the home room's controller.
pub fn run_upgrader(spawning: bool, withdrawing: bool, free_capacity: i32, energy: u32) -> (step: UpgraderStep)
    ensures
        spawning ==> step == UpgraderStep::Wait,
        !spawning && carrier_phase_of(withdrawing, free_capacity, energy) == CarrierPhase::Deliver ==> step == UpgraderStep::Upgrade,
        !spawning && carrier_phase_of(withdrawing, free_capacity, energy) != CarrierPhase::Deliver ==> step
            == UpgraderStep::Cycle(carrier_phase_of(withdrawing, free_capacity, energy)),
{
    if spawning {
        return UpgraderStep::Wait;
    }
    match carrier_phase(withdrawing, free_capacity, energy) {
        CarrierPhase::Deliver => UpgraderStep::Upgrade,
        other => UpgraderStep::Cycle(other),
    }
}

/// What a filler does, for every input, stated of any step that meets
/// `run_filler`'s contract. A spawning filler waits. A withdrawing filler
/// stops once full and withdraws otherwise; a delivering one starts
/// withdrawing once empty. A delivering filler that carries energy fills
/// the first tower of the home room with more than 100 energy free; with
/// no such tower, the first extension or spawn with any energy free; and
/// idles only when neither exists.
pub proof fn lemma_filler_delivery_order(
    spawning: bool,
    withdrawing: bool,
    free_capacity: i32,
    energy: u32,
    structures: Seq<StoreInfo>,
    step: FillerStep,
)
    requires
        spawning ==> step == FillerStep::Wait,
        !spawning && carrier_phase_of(withdrawing, free_capacity, energy) != CarrierPhase::Deliver ==> step
            == FillerStep::Cycle(carrier_phase_of(withdrawing, free_capacity, energy)),
        !spawning && carrier_phase_of(withdrawing, free_capacity, energy) == CarrierPhase::Deliver ==> {
            &&& step matches FillerStep::Fill(i) ==> filler_target_ok(structures, i as int)
            &&& step is Idle <==> forall|j: int| 0 <= j < structures.len() ==> !tower_to_fill(#[trigger] structures[j])
                && !extension_to_fill(structures[j])
            &&& step is Fill || step is Idle
        },
    ensures
        spawning ==> step == FillerStep::Wait,
        !spawning && withdrawing && free_capacity == 0 ==> step == FillerStep::Cycle(CarrierPhase::StopWithdrawing),
        !spawning && withdrawing && free_capacity != 0 ==> step == FillerStep::Cycle(CarrierPhase::Withdraw),
        !spawning && !withdrawing && energy == 0 ==> step == FillerStep::Cycle(CarrierPhase::StartWithdrawing),
        forall|i: int|
            !spawning && !withdrawing && energy > 0 && 0 <= i < structures.len() && (#[trigger] structures[i]).kind
                == StoreKind::Tower && structures[i].free_energy > 100 && (forall|j: int|
                0 <= j < i ==> !((#[trigger] structures[j]).kind == StoreKind::Tower && structures[j].free_energy > 100))
                ==> step == FillerStep::Fill(i as usize),
        forall|i: int|
            !spawning && !withdrawing && energy > 0 && 0 <= i < structures.len() && ((#[trigger] structures[i]).kind
                == StoreKind::Extension || structures[i].kind == StoreKind::Spawn) && structures[i].free_energy > 0
                && (forall|j: int|
                0 <= j < structures.len() ==> !((#[trigger] structures[j]).kind == StoreKind::Tower && structures[j].free_energy
                    > 100)) && (forall|j: int|
                0 <= j < i ==> !(((#[trigger] structures[j]).kind == StoreKind::Extension || structures[j].kind
                    == StoreKind::Spawn) && structures[j].free_energy > 0)) ==> step == FillerStep::Fill(i as usize),
        !spawning && !withdrawing && energy > 0 && (forall|j: int|
            0 <= j < structures.len() ==> !((#[trigger] structures[j]).kind == StoreKind::Tower && structures[j].free_energy
                > 100) && !((structures[j].kind == StoreKind::Extension || structures[j].kind == StoreKind::Spawn)
                && structures[j].free_energy > 0)) ==> step == FillerStep::Idle,
{
}

/// What an upgrader does, for every input, stated of any step that meets
/// `run_upgrader`'s contract: it waits while spawning, stops withdrawing
/// once full, withdraws while it has room, starts withdrawing once empty,
/// and upgrades the controller whenever it delivers with energy.
pub proof fn lemma_upgrader_cycle(spawning: bool, withdrawing: bool, free_capacity: i32, energy: u32, step: UpgraderStep)
    requires
        spawning ==> step == UpgraderStep::Wait,
        !spawning && carrier_phase_of(withdrawing, free_capacity, energy) == CarrierPhase::Deliver ==> step == UpgraderStep::Upgrade,
        !spawning && carrier_phase_of(withdrawing, free_capacity, energy) != CarrierPhase::Deliver ==> step
            == UpgraderStep::Cycle(carrier_phase_of(withdrawing, free_capacity, energy)),
    ensures
        spawning ==> step == UpgraderStep::Wait,
        !spawning && withdrawing && free_capacity == 0 ==> step == UpgraderStep::Cycle(CarrierPhase::StopWithdrawing),
        !spawning && withdrawing && free_capacity != 0 ==> step == UpgraderStep::Cycle(CarrierPhase::Withdraw),
        !spawning && !withdrawing && energy == 0 ==> step == UpgraderStep::Cycle(CarrierPhase::StartWithdrawing),
        !spawning && !withdrawing && energy > 0 ==> step == UpgraderStep::Upgrade,
{
}

} // verus!

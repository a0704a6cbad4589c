//! Reservers keep the colony's remote rooms reserved: each has a target
//! room in its memory, taken from the job board when it has none.
use vstd::prelude::*;
use crate::jobs::AvailableJobs;

verus! {

/// What a reserver does with its target room.
#[derive(Clone, Copy, Debug, PartialEq, Eq, Structural)]
pub enum ReserverStep {
    /// The room is visible: reserve its controller.
    ReserveController,
    /// The room cannot be seen: walk to the exit toward it.
    Travel,
}

/// A reserver's tick: the room it works for, whether that room is new to
/// its memory, and what it does.
#[derive(Debug, PartialEq, Eq)]
pub struct ReserverPlan {
    pub target: String,
    /// The target was taken from the board and is to be remembered.
    pub remember: bool,
    pub step: ReserverStep,
}

/// A reserver's tick. Its target is the room in its memory or, when it has
/// none, the first room of the board that wants a reserver (a reserver
/// without a target needs a board with such a room). It reserves the
/// target's controller when `room_visible` says the game sees the room,
/// and travels toward the room otherwise.
pub fn run_reserver<F: Fn(&String) -> bool>(current: &Option<String>, jobs: &AvailableJobs, room_visible: F) -> (plan: ReserverPlan)
    requires
        current is Some || jobs@.reserve.len() > 0,
        forall|room: &String| room_visible.requires((room,)),
    ensures
        current matches Some(t) ==> plan.target == t && !plan.remember,
        current is None ==> plan.target == jobs@.reserve[0] && plan.remember,
        plan.step == ReserverStep::ReserveController ==> room_visible.ensures((&plan.target,), true),
        plan.step == ReserverStep::Travel ==> room_visible.ensures((&plan.target,), false),
{
    let (target, remember) = match current {
        Some(room) => (room.clone(), false),
        None => (jobs.reserve_jobs[0].clone(), true),
    };
    let step = if room_visible(&target) {
        ReserverStep::ReserveController
    } else {
        ReserverStep::Travel
    };
    ReserverPlan { target, remember, step }
}

} // verus!

//! Positions in screeps' packed form: from the highest byte down, the
//! room's x and y coordinates (each offset by 128), then the x and y of the
//! tile within the room.
use vstd::prelude::*;

verus! {

/// The number of the room a packed position lies in.
pub open spec fn room_of(position: u32) -> int {
    position as int / 65536
}

/// The x coordinate of a packed position within its room.
pub open spec fn x_of(position: u32) -> int {
    (position as int / 256) % 256
}

/// The y coordinate of a packed position within its room.
pub open spec fn y_of(position: u32) -> int {
    position as int % 256
}

/// Whether two positions lie in the same room at most one tile apart in
/// each direction.
pub open spec fn within_one(a: u32, b: u32) -> bool {
    &&& room_of(a) == room_of(b)
    &&& -1 <= x_of(a) - x_of(b) <= 1
    &&& -1 <= y_of(a) - y_of(b) <= 1
}

/// Calls screeps' `Position::is_near_to` on two positions rebuilt from their
/// packed form. Its source compares the rooms (`packed >> 16`) and the
/// distances of the in-room coordinates (`packed >> 8 & 0xFF` and
/// `packed & 0xFF`), which the contract restates.
#[verifier::external_body]
fn position_is_near_to(a: u32, b: u32) -> (near: bool)
    ensures
        near == within_one(a, b),
{
    screeps::Position::from_packed(a as i32).is_near_to(&screeps::Position::from_packed(b as i32))
}

/// Whether a creep at `creep` can reach `target` without moving.
pub fn is_near(creep: u32, target: u32) -> (near: bool)
    ensures
        near == within_one(creep, target),
{
    position_is_near_to(creep, target)
}

/// The number of the room a packed position lies in: the key by which the
/// job board files a room's jobs.
pub fn room_number(position: u32) -> (room: u32)
    ensures
        room == room_of(position),
{
    position / 65536
}

/// Nearness of packed positions: a position is near itself; nearness goes
/// both ways; near positions lie in the same room (the same bits above the
/// lowest two bytes); and positions whose in-room x or y coordinates (the
/// second-lowest and lowest byte) differ by more than one are never near.
pub proof fn lemma_within_one_shape(a: u32, b: u32)
    ensures
        within_one(a, a),
        within_one(a, b) == within_one(b, a),
        within_one(a, b) ==> a / 65536 == b / 65536,
        (a / 256) % 256 > (b / 256) % 256 + 1 ==> !within_one(a, b),
        a % 256 > b % 256 + 1 ==> !within_one(a, b),
{
}

} // verus!

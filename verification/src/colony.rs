//! The colony's standing orders: which rooms it lives in, works and
//! reserves, how many creeps of each role it wants, and when the memory is
//! tidied.
use vstd::prelude::*;
use crate::spawner::RoleGoals;
use crate::text::texts_view;

verus! {

/// The rooms of the colony.
pub struct ColonyRooms {
    /// The room with the spawn, storage and controller the creeps serve.
    pub home_room: String,
    /// The rooms whose sources are harvested.
    pub worked_rooms: Vec<String>,
    /// The rooms whose controllers are reserved.
    pub reserved_rooms: Vec<String>,
}

/// The colony's home room.
pub open spec fn home_room_name() -> Seq<char> {
    "W44S28"@
}

/// The rooms whose sources are harvested: the home room and its neighbours
/// to the east and the south.
pub open spec fn worked_room_names() -> Seq<Seq<char>> {
    seq!["W44S28"@, "W43S28"@, "W44S29"@]
}

/// The rooms whose controllers are reserved.
pub open spec fn reserved_room_names() -> Seq<Seq<char>> {
    seq!["W43S28"@, "W44S29"@]
}

/// The rooms of the colony.
pub fn colony_rooms() -> (rooms: ColonyRooms)
    ensures
        rooms.home_room@ == home_room_name(),
        texts_view(rooms.worked_rooms@) == worked_room_names(),
        texts_view(rooms.reserved_rooms@) == reserved_room_names(),
{
    let mut worked_rooms: Vec<String> = Vec::new();
    worked_rooms.push("W44S28".to_string());
    worked_rooms.push("W43S28".to_string());
    worked_rooms.push("W44S29".to_string());
    let mut reserved_rooms: Vec<String> = Vec::new();
    reserved_rooms.push("W43S28".to_string());
    reserved_rooms.push("W44S29".to_string());
    let rooms = ColonyRooms { home_room: "W44S28".to_string(), worked_rooms, reserved_rooms };
    assert(texts_view(rooms.worked_rooms@) =~= worked_room_names());
    assert(texts_view(rooms.reserved_rooms@) =~= reserved_room_names());
    rooms
}

/// The settings the game loop writes to memory at the start of each tick.
pub struct LoopSettings {
    pub rooms: ColonyRooms,
    /// The colony's harvester target, shared among the known sources.
    pub harvesters: i32,
    pub fillers: i32,
    pub reservers: i32,
    pub upgraders: i32,
}

/// The settings of each tick: the colony's rooms, 15 harvesters, 2 fillers,
/// 2 reservers and 1 upgrader.
pub fn loop_settings() -> (settings: LoopSettings)
    ensures
        settings.rooms.home_room@ == home_room_name(),
        texts_view(settings.rooms.worked_rooms@) == worked_room_names(),
        texts_view(settings.rooms.reserved_rooms@) == reserved_room_names(),
        settings.harvesters == 15,
        settings.fillers == 2,
        settings.reservers == 2,
        settings.upgraders == 1,
{
    LoopSettings { rooms: colony_rooms(), harvesters: 15, fillers: 2, reservers: 2, upgraders: 1 }
}

/// The colony's goals: its rooms, and the creeps the home room's spawn
/// keeps alive: 13 harvesters and 2 each of fillers, reservers, upgraders
/// and settlers.
pub fn set_goals() -> (goals: (ColonyRooms, RoleGoals))
    ensures
        goals.0.home_room@ == home_room_name(),
        texts_view(goals.0.worked_rooms@) == worked_room_names(),
        texts_view(goals.0.reserved_rooms@) == reserved_room_names(),
        goals.1 == (RoleGoals { harvesters: 13, fillers: 2, reservers: 2, upgraders: 2, settlers: 2 }),
{
    (colony_rooms(), RoleGoals { harvesters: 13, fillers: 2, reservers: 2, upgraders: 2, settlers: 2 })
}

/// Whether the memory of dead creeps is cleaned up this tick: once every 32
/// ticks, at the ticks whose remainder by 32 is 3.
pub fn memory_cleanup_due(time: u32) -> (due: bool)
    ensures
        due == (time % 32 == 3),
{
    time % 32 == 3
}

} // verus!

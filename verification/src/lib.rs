//! The decisions of a Screeps colony, verified: which jobs exist each tick
//! and who takes them, what each role of creep does, what spawns build, and
//! how towers and the memory are tended. The game itself is reached through
//! the `screeps` bindings by the code around this library.
pub mod actions;
pub mod carrier;
pub mod colony;
pub mod gatherer;
pub mod ids;
pub mod jobs;
pub mod lists;
pub mod memory;
pub mod names;
pub mod positions;
pub mod reserver;
pub mod roles;
pub mod spawner;
pub mod staffing;
pub mod text;
pub mod tower;

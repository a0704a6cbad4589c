use rusty_screeps::colony::{colony_rooms, loop_settings, memory_cleanup_due, set_goals};
use rusty_screeps::memory::cleanup_memory;
use rusty_screeps::names::{creep_name, decimal_text};
use rusty_screeps::roles::{creep_role_to_run, role_from_name, role_text, Role};
use rusty_screeps::spawner::{
    body_options, choose_body, count_roles, next_name_suffix, run_spawn, spawn_succeeded, Part, RoleCounts, RoleGoals,
};
use rusty_screeps::actions::ReturnCode;

fn texts(items: &[&str]) -> Vec<String> {
    items.iter().map(|s| s.to_string()).collect()
}

#[test]
fn colony_settings() {
    let rooms = colony_rooms();
    assert_eq!(rooms.home_room, "W44S28");
    assert_eq!(rooms.worked_rooms, texts(&["W44S28", "W43S28", "W44S29"]));
    assert_eq!(rooms.reserved_rooms, texts(&["W43S28", "W44S29"]));
    let settings = loop_settings();
    assert_eq!((settings.harvesters, settings.fillers, settings.reservers, settings.upgraders), (15, 2, 2, 1));
    let (rooms, goals) = set_goals();
    assert_eq!(rooms.home_room, "W44S28");
    assert_eq!(goals, RoleGoals { harvesters: 13, fillers: 2, reservers: 2, upgraders: 2, settlers: 2 });
}

#[test]
fn memory_cleanup_runs_every_32_ticks() {
    assert!(memory_cleanup_due(3));
    assert!(memory_cleanup_due(35));
    assert!(!memory_cleanup_due(32));
    assert!(!memory_cleanup_due(4));
}

#[test]
fn dead_creeps_lose_their_memory() {
    let memory = texts(&["a", "b", "c", "d"]);
    let alive = texts(&["b", "d", "e"]);
    assert_eq!(cleanup_memory(&memory, &alive), texts(&["a", "c"]));
    assert_eq!(cleanup_memory(&memory, &memory), Vec::<String>::new());
}

#[test]
fn role_names() {
    for role in [Role::Harvester, Role::Filler, Role::Reserver, Role::Upgrader, Role::Settler] {
        assert_eq!(role_from_name(&role_text(role)), Some(role));
    }
    assert_eq!(role_text(Role::Upgrader), "upgrader");
    assert_eq!(role_from_name(&"miner".to_string()), None);
    assert_eq!(creep_role_to_run(&Some("harvester".to_string())), Some(Role::Harvester));
    assert_eq!(creep_role_to_run(&Some("settler".to_string())), None);
    assert_eq!(creep_role_to_run(&None), None);
}

#[test]
fn counting_roles() {
    let types = texts(&["harvester", "filler", "harvester", "settler", "tourist", "upgrader"]);
    assert_eq!(
        count_roles(&types),
        RoleCounts { harvesters: 2, fillers: 1, reservers: 0, upgraders: 1, settlers: 1 }
    );
}

#[test]
fn spawn_priority() {
    let goals = RoleGoals { harvesters: 13, fillers: 2, reservers: 2, upgraders: 2, settlers: 2 };
    let mut counts = RoleCounts { harvesters: 0, fillers: 0, reservers: 0, upgraders: 0, settlers: 0 };
    assert_eq!(run_spawn(counts, goals), Some(Role::Filler));
    counts.fillers = 2;
    assert_eq!(run_spawn(counts, goals), Some(Role::Settler));
    counts.settlers = 3;
    assert_eq!(run_spawn(counts, goals), Some(Role::Harvester));
    counts.harvesters = 13;
    assert_eq!(run_spawn(counts, goals), Some(Role::Reserver));
    counts.reservers = 2;
    assert_eq!(run_spawn(counts, goals), Some(Role::Upgrader));
    counts.upgraders = 2;
    assert_eq!(run_spawn(counts, goals), None);
    // a negative goal that is never consulted does no harm
    let odd = RoleGoals { settlers: -1, ..goals };
    counts.fillers = 0;
    assert_eq!(run_spawn(counts, odd), Some(Role::Filler));
}

#[test]
fn bodies_largest_first() {
    assert_eq!(body_options(Role::Settler), vec![vec![Part::Move, Part::Move, Part::Carry, Part::Work]]);
    assert_eq!(body_options(Role::Reserver), vec![vec![Part::Move, Part::Move, Part::Claim, Part::Claim]]);
    let harvesters = body_options(Role::Harvester);
    assert_eq!(harvesters.len(), 3);
    assert_eq!(
        harvesters[0],
        vec![Part::Move, Part::Move, Part::Move, Part::Move, Part::Move, Part::Carry, Part::Carry, Part::Carry, Part::Carry, Part::Carry, Part::Carry, Part::Work, Part::Work, Part::Work, Part::Work]
    );
    assert_eq!(harvesters[1], vec![Part::Move, Part::Move, Part::Move, Part::Carry, Part::Carry, Part::Work, Part::Work, Part::Work]);
    assert_eq!(harvesters[2], vec![Part::Move, Part::Move, Part::Carry, Part::Work]);
    let fillers = body_options(Role::Filler);
    assert_eq!(fillers[0], vec![Part::Move, Part::Move, Part::Move, Part::Carry, Part::Carry, Part::Carry, Part::Carry, Part::Carry, Part::Carry]);
    assert_eq!(fillers[1], vec![Part::Move, Part::Move, Part::Carry, Part::Carry, Part::Carry, Part::Carry]);
    assert_eq!(fillers[2], vec![Part::Move, Part::Carry, Part::Carry]);
    let upgraders = body_options(Role::Upgrader);
    assert_eq!(upgraders[0].len(), 18);
    assert_eq!(upgraders[1], vec![Part::Move, Part::Move, Part::Carry, Part::Carry, Part::Work, Part::Work]);
    assert_eq!(upgraders[2], vec![Part::Move, Part::Carry, Part::Work]);
}

#[test]
fn choosing_a_body() {
    assert_eq!(choose_body(&vec![false, true, true]), Some(1));
    assert_eq!(choose_body(&vec![true, false]), Some(0));
    assert_eq!(choose_body(&vec![false, false, false]), None);
}

#[test]
fn creep_names() {
    assert_eq!(decimal_text(0), "0");
    assert_eq!(decimal_text(907), "907");
    assert_eq!(decimal_text(u32::MAX), "4294967295");
    assert_eq!(creep_name(12345, 0), "12345-0");
    assert_eq!(creep_name(12345, 10), "12345-10");
    assert_ne!(creep_name(1, 23), creep_name(12, 3));
    assert_eq!(next_name_suffix(ReturnCode::NameExists, 4), Some(5));
    assert_eq!(next_name_suffix(ReturnCode::Success, 4), None);
    assert_eq!(next_name_suffix(ReturnCode::NotEnough, 0), None);
}

#[test]
fn name_search_ends_after_the_taken_names() {
    let taken = vec![creep_name(5, 0), creep_name(5, 1), creep_name(5, 2)];
    let mut suffix = 0u32;
    let mut tries = 0;
    loop {
        tries += 1;
        let code = if taken.contains(&creep_name(5, suffix)) { ReturnCode::NameExists } else { ReturnCode::Success };
        match next_name_suffix(code, suffix) {
            Some(next) => suffix = next,
            None => break,
        }
    }
    assert_eq!(suffix, 3);
    assert!(tries <= taken.len() + 1);
}

#[test]
fn only_success_counts_as_spawned() {
    assert!(spawn_succeeded(ReturnCode::Success));
    assert!(!spawn_succeeded(ReturnCode::NotEnough));
    assert!(!spawn_succeeded(ReturnCode::Busy));
    assert!(!spawn_succeeded(ReturnCode::NameExists));
}

use rusty_screeps::positions::{is_near, room_number};
use rusty_screeps::actions::{
    after_transfer, after_work, fill_adjacent, fill_amount, harvest, is_worn, repair_local_road, Durability,
    FollowUp, HarvestStep, ReturnCode, StoreInfo, StoreKind,
};

#[test]
fn after_work_moves_closer_or_reports() {
    assert_eq!(after_work(ReturnCode::NotInRange), FollowUp::MoveCloser);
    assert_eq!(after_work(ReturnCode::Success), FollowUp::Nothing);
    assert_eq!(after_work(ReturnCode::Full), FollowUp::Report);
    assert_eq!(after_work(ReturnCode::NotEnough), FollowUp::Report);
}

#[test]
fn after_transfer_forgets_a_full_target() {
    assert_eq!(after_transfer(ReturnCode::NotInRange), FollowUp::MoveCloser);
    assert_eq!(after_transfer(ReturnCode::Full), FollowUp::ForgetFillTarget);
    assert_eq!(after_transfer(ReturnCode::Success), FollowUp::Nothing);
    assert_eq!(after_transfer(ReturnCode::InvalidTarget), FollowUp::Report);
}

#[test]
fn fill_amount_is_the_smaller_of_carried_and_free() {
    assert_eq!(fill_amount(50, 200), 50);
    assert_eq!(fill_amount(300, 200), 200);
    assert_eq!(fill_amount(200, 200), 200);
    assert_eq!(fill_amount(50, 0), 0);
    assert_eq!(fill_amount(50, -5), 0);
    assert_eq!(fill_amount(u32::MAX, i32::MAX), i32::MAX as u32);
}

#[test]
fn worn_means_more_than_the_margin_lost() {
    assert!(is_worn(Durability { hits: 100, hits_max: 401 }, 300));
    assert!(!is_worn(Durability { hits: 100, hits_max: 400 }, 300));
    assert!(!is_worn(Durability { hits: u32::MAX, hits_max: u32::MAX }, 300));
}

#[test]
fn repair_local_road_picks_the_first_worn_structure() {
    let under_foot = vec![
        None,
        Some(Durability { hits: 4800, hits_max: 5000 }),
        Some(Durability { hits: 1000, hits_max: 5000 }),
        Some(Durability { hits: 0, hits_max: 5000 }),
    ];
    assert_eq!(repair_local_road(&under_foot), Some(2));
    assert_eq!(repair_local_road(&vec![None, Some(Durability { hits: 5000, hits_max: 5000 })]), None);
    assert_eq!(repair_local_road(&vec![]), None);
}

#[test]
fn fill_adjacent_takes_the_last_tower_or_extension() {
    let s = |kind, free_energy| StoreInfo { kind, free_energy };
    let around = vec![
        s(StoreKind::Tower, 10),
        s(StoreKind::Extension, 50),
        s(StoreKind::Spawn, 300),
        s(StoreKind::Extension, 0),
        s(StoreKind::Storage, 1000),
    ];
    assert_eq!(fill_adjacent(&around), Some(1));
    assert_eq!(fill_adjacent(&vec![s(StoreKind::Spawn, 300), s(StoreKind::Tower, 0)]), None);
}

fn at(room: u32, x: u32, y: u32) -> u32 {
    (room << 16) | (x << 8) | y
}

#[test]
fn harvest_steps() {
    let room = 0x549C;
    assert_eq!(harvest(at(room, 10, 10), None), HarvestStep::ForgetSource);
    assert_eq!(harvest(at(room, 10, 10), Some(at(room, 11, 9))), HarvestStep::Harvest);
    assert_eq!(harvest(at(room, 10, 10), Some(at(room, 10, 10))), HarvestStep::Harvest);
    assert_eq!(harvest(at(room, 10, 10), Some(at(room, 12, 10))), HarvestStep::Approach);
    assert_eq!(harvest(at(room, 10, 10), Some(at(0x559C, 10, 10))), HarvestStep::Approach);
}

#[test]
fn positions() {
    assert!(is_near(at(0x8080, 0, 0), at(0x8080, 1, 1)));
    assert!(!is_near(at(0x8080, 0, 0), at(0x8080, 0, 2)));
    assert!(!is_near(at(0x8080, 49, 5), at(0x8081, 49, 5)));
    assert_eq!(room_number(at(0x549C, 12, 30)), 0x549C);
}

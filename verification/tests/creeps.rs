use rusty_screeps::actions::{Durability, StoreInfo, StoreKind};
use rusty_screeps::carrier::{carrier_phase, run_filler, run_upgrader, CarrierPhase, FillerStep, UpgraderStep};
use rusty_screeps::gatherer::{
    first_fillable_index, gather_tick, run_harvester, run_settler, settler_spend_energy, spend_energy,
    GathererAct, GathererState, GathererTick, HomeRoom, SourceChange, SpendChoice, can_spend_energy,
};
use rusty_screeps::jobs::AvailableJobs;
use rusty_screeps::reserver::{run_reserver, ReserverPlan, ReserverStep};
use rusty_screeps::tower::{run_tower, TowerPlan};

fn s(kind: StoreKind, free_energy: i32) -> StoreInfo {
    StoreInfo { kind, free_energy }
}

#[test]
fn carrier_cycle() {
    assert_eq!(carrier_phase(true, 0, 50), CarrierPhase::StopWithdrawing);
    assert_eq!(carrier_phase(true, 20, 30), CarrierPhase::Withdraw);
    assert_eq!(carrier_phase(false, 50, 0), CarrierPhase::StartWithdrawing);
    assert_eq!(carrier_phase(false, 0, 50), CarrierPhase::Deliver);
}

#[test]
fn filler_serves_towers_before_extensions() {
    let room = vec![
        s(StoreKind::Extension, 50),
        s(StoreKind::Tower, 100),
        s(StoreKind::Spawn, 20),
        s(StoreKind::Tower, 101),
    ];
    assert_eq!(run_filler(false, false, 0, 100, &room), FillerStep::Fill(3));
    let no_towers = vec![s(StoreKind::Tower, 100), s(StoreKind::Storage, 5), s(StoreKind::Spawn, 20)];
    assert_eq!(run_filler(false, false, 0, 100, &no_towers), FillerStep::Fill(2));
    let full = vec![s(StoreKind::Tower, 0), s(StoreKind::Extension, 0)];
    assert_eq!(run_filler(false, false, 0, 100, &full), FillerStep::Idle);
    assert_eq!(run_filler(true, false, 0, 100, &room), FillerStep::Wait);
    assert_eq!(run_filler(false, true, 0, 100, &room), FillerStep::Cycle(CarrierPhase::StopWithdrawing));
    assert_eq!(run_filler(false, true, 10, 100, &room), FillerStep::Cycle(CarrierPhase::Withdraw));
    assert_eq!(run_filler(false, false, 10, 0, &room), FillerStep::Cycle(CarrierPhase::StartWithdrawing));
}

#[test]
fn upgrader_steps() {
    assert_eq!(run_upgrader(true, false, 0, 10), UpgraderStep::Wait);
    assert_eq!(run_upgrader(false, false, 0, 10), UpgraderStep::Upgrade);
    assert_eq!(run_upgrader(false, false, 50, 0), UpgraderStep::Cycle(CarrierPhase::StartWithdrawing));
    assert_eq!(run_upgrader(false, true, 0, 50), UpgraderStep::Cycle(CarrierPhase::StopWithdrawing));
}

fn creep(harvesting: bool, has_source: bool, free_capacity: i32, energy: u32, room: u32) -> GathererState {
    GathererState { spawning: false, harvesting, has_source, free_capacity, energy, room }
}

#[test]
fn harvester_takes_a_job_of_its_room_first() {
    let mut jobs = AvailableJobs::new();
    jobs.add_harvest_job(1, "a".to_string());
    jobs.add_harvest_job(2, "b".to_string());
    let tick = run_harvester(&mut jobs, creep(true, false, 50, 0, 2));
    assert_eq!(
        tick,
        GathererTick { harvesting: true, source: SourceChange::Assign("b".to_string()), act: GathererAct::Harvest }
    );
    // its room is now empty: it takes a job of another room
    let tick = run_harvester(&mut jobs, creep(true, false, 50, 0, 2));
    assert_eq!(tick.source, SourceChange::Assign("a".to_string()));
    // no job anywhere: an empty creep rests, a loaded one spends
    let tick = run_harvester(&mut jobs, creep(true, false, 50, 0, 2));
    assert_eq!(tick, GathererTick { harvesting: true, source: SourceChange::Keep, act: GathererAct::Rest });
    let tick = run_harvester(&mut jobs, creep(true, false, 50, 10, 2));
    assert_eq!(tick, GathererTick { harvesting: true, source: SourceChange::Keep, act: GathererAct::Spend });
}

#[test]
fn settler_only_takes_jobs_of_its_room() {
    let mut jobs = AvailableJobs::new();
    jobs.add_harvest_job(1, "a".to_string());
    let tick = run_settler(&mut jobs, creep(true, false, 50, 5, 2));
    assert_eq!(tick, GathererTick { harvesting: true, source: SourceChange::Keep, act: GathererAct::Spend });
    assert_eq!(jobs.jobs_by_room[&1].harvest_jobs, vec!["a".to_string()]);
    let tick = run_settler(&mut jobs, creep(true, false, 50, 5, 1));
    assert_eq!(tick.source, SourceChange::Assign("a".to_string()));
}

#[test]
fn gatherer_without_job_search() {
    let mut jobs = AvailableJobs::new();
    // full: stop harvesting, forget the source, spend
    let tick = gather_tick(&mut jobs, creep(true, true, 0, 50, 1), true);
    assert_eq!(tick, GathererTick { harvesting: false, source: SourceChange::Clear, act: GathererAct::Spend });
    // full and somehow empty: harvest again
    let tick = gather_tick(&mut jobs, creep(true, true, 0, 0, 1), true);
    assert_eq!(tick, GathererTick { harvesting: true, source: SourceChange::Clear, act: GathererAct::Rest });
    // harvesting with a source
    let tick = gather_tick(&mut jobs, creep(true, true, 10, 40, 1), true);
    assert_eq!(tick, GathererTick { harvesting: true, source: SourceChange::Keep, act: GathererAct::Harvest });
    // delivering and empty: start harvesting
    let tick = gather_tick(&mut jobs, creep(false, false, 50, 0, 1), true);
    assert_eq!(tick, GathererTick { harvesting: true, source: SourceChange::Keep, act: GathererAct::Rest });
    // delivering with energy
    let tick = gather_tick(&mut jobs, creep(false, true, 0, 50, 1), true);
    assert_eq!(tick, GathererTick { harvesting: false, source: SourceChange::Keep, act: GathererAct::Spend });
    // spawning: nothing
    let spawning = GathererState { spawning: true, ..creep(true, false, 50, 0, 1) };
    let tick = gather_tick(&mut jobs, spawning, true);
    assert_eq!(tick, GathererTick { harvesting: true, source: SourceChange::Keep, act: GathererAct::Rest });
}

#[test]
fn first_fillable_index_finds_the_first_of_a_kind() {
    let room = vec![s(StoreKind::Tower, 0), s(StoreKind::Extension, 5), s(StoreKind::Tower, 1)];
    assert_eq!(first_fillable_index(&room, StoreKind::Tower), Some(2));
    assert_eq!(first_fillable_index(&room, StoreKind::Extension), Some(1));
    assert_eq!(first_fillable_index(&room, StoreKind::Spawn), None);
}

fn home(structures: &[StoreInfo], storage_energy: Option<u32>) -> Option<HomeRoom> {
    Some(HomeRoom { structures: structures.to_vec(), storage_energy })
}

#[test]
fn harvester_spending_order() {
    let mut jobs = AvailableJobs::new();
    let nothing: Vec<Option<Durability>> = vec![];
    let worn_road = vec![Some(Durability { hits: 100, hits_max: 5000 })];
    let room = vec![s(StoreKind::Extension, 10), s(StoreKind::Tower, 10)];
    let none: Vec<StoreInfo> = vec![];
    assert_eq!(spend_energy(&worn_road, &home(&room, Some(0)), 4, &jobs, 1), SpendChoice::Repair(0));
    assert_eq!(spend_energy(&nothing, &home(&room, Some(0)), 4, &jobs, 1), SpendChoice::FillStructure(1));
    assert_eq!(spend_energy(&nothing, &home(&room[..1], Some(0)), 5, &jobs, 1), SpendChoice::FillStructure(0));
    // large harvesters leave towers and extensions to others
    assert_eq!(spend_energy(&nothing, &home(&room, Some(1999)), 6, &jobs, 1), SpendChoice::FillStorage);
    assert_eq!(spend_energy(&nothing, &home(&none, Some(2000)), 6, &jobs, 1), SpendChoice::FillStorage);
    assert_eq!(spend_energy(&nothing, &home(&none, Some(2000)), 4, &jobs, 1), SpendChoice::FillStorage);
    assert_eq!(spend_energy(&nothing, &home(&none, Some(25000)), 4, &jobs, 1), SpendChoice::Upgrade);
    assert_eq!(spend_energy(&nothing, &home(&none, Some(949999)), 6, &jobs, 1), SpendChoice::FillStorage);
    assert_eq!(spend_energy(&nothing, &home(&none, Some(950000)), 6, &jobs, 1), SpendChoice::Upgrade);
    jobs.add_harvest_job(1, "src".to_string());
    jobs.jobs_by_room.get_mut(&1).unwrap().construction_jobs.push("site".to_string());
    assert_eq!(spend_energy(&nothing, &home(&none, Some(2000)), 6, &jobs, 1), SpendChoice::Build("site".to_string()));
    assert_eq!(spend_energy(&nothing, &home(&none, Some(1999)), 6, &jobs, 1), SpendChoice::FillStorage);
    assert_eq!(spend_energy(&nothing, &home(&none, Some(2000)), 6, &jobs, 2), SpendChoice::FillStorage);
    // a small harvester fills a tower of a home room without storage
    assert_eq!(spend_energy(&nothing, &home(&room, None), 3, &jobs, 1), SpendChoice::FillStructure(1));
    // a repair needs no home room
    assert_eq!(spend_energy(&worn_road, &None, 8, &jobs, 1), SpendChoice::Repair(0));
}

#[test]
fn harvester_spending_needs() {
    let nothing: Vec<Option<Durability>> = vec![];
    let worn_road = vec![Some(Durability { hits: 100, hits_max: 5000 })];
    let room = vec![s(StoreKind::Tower, 10)];
    assert!(can_spend_energy(&worn_road, &None, 8));
    assert!(!can_spend_energy(&nothing, &None, 3));
    assert!(can_spend_energy(&nothing, &home(&room, None), 3));
    assert!(!can_spend_energy(&nothing, &home(&room, None), 6));
    assert!(!can_spend_energy(&nothing, &home(&[], None), 3));
    assert!(can_spend_energy(&nothing, &home(&[], Some(5)), 6));
}

#[test]
fn settler_spending_order() {
    let mut jobs = AvailableJobs::new();
    let nothing: Vec<Option<Durability>> = vec![];
    let room = vec![s(StoreKind::Extension, 10), s(StoreKind::Tower, 10)];
    let none: Vec<StoreInfo> = vec![];
    assert_eq!(settler_spend_energy(&nothing, &room, Some(0), &jobs, 1), SpendChoice::FillStructure(1));
    assert_eq!(settler_spend_energy(&nothing, &room[..1].to_vec(), None, &jobs, 1), SpendChoice::FillStructure(0));
    assert_eq!(settler_spend_energy(&nothing, &none, Some(1999), &jobs, 1), SpendChoice::FillStorage);
    assert_eq!(settler_spend_energy(&nothing, &none, None, &jobs, 1), SpendChoice::Upgrade);
    assert_eq!(settler_spend_energy(&nothing, &none, Some(2000), &jobs, 1), SpendChoice::Upgrade);
    jobs.add_harvest_job(1, "src".to_string());
    jobs.jobs_by_room.get_mut(&1).unwrap().construction_jobs.push("site".to_string());
    assert_eq!(settler_spend_energy(&nothing, &none, None, &jobs, 1), SpendChoice::Build("site".to_string()));
    let worn = vec![None, Some(Durability { hits: 1, hits_max: 302 })];
    assert_eq!(settler_spend_energy(&worn, &room, None, &jobs, 1), SpendChoice::Repair(1));
}

#[test]
fn tower_attacks_and_repairs() {
    let structures = vec![
        Durability { hits: 1000, hits_max: 1800 },
        Durability { hits: 1000, hits_max: 1801 },
        Durability { hits: 0, hits_max: 5000 },
    ];
    assert_eq!(run_tower(2, &structures), TowerPlan { attack_first_hostile: true, repair: Some(1) });
    assert_eq!(run_tower(0, &structures[..1].to_vec()), TowerPlan { attack_first_hostile: false, repair: None });
}

#[test]
fn reserver_target_and_step() {
    let mut jobs = AvailableJobs::new();
    jobs.reserve_jobs.push("W43S28".to_string());
    jobs.reserve_jobs.push("W44S29".to_string());
    let visible = |room: &String| room == "W43S28";
    assert_eq!(
        run_reserver(&None, &jobs, visible),
        ReserverPlan { target: "W43S28".to_string(), remember: true, step: ReserverStep::ReserveController }
    );
    assert_eq!(
        run_reserver(&Some("W1N1".to_string()), &jobs, visible),
        ReserverPlan { target: "W1N1".to_string(), remember: false, step: ReserverStep::Travel }
    );
    let empty = AvailableJobs::new();
    assert_eq!(
        run_reserver(&Some("W43S28".to_string()), &empty, visible),
        ReserverPlan { target: "W43S28".to_string(), remember: false, step: ReserverStep::ReserveController }
    );
}

#[test]
fn harvesters_of_one_tick_never_share_a_job() {
    let mut jobs = AvailableJobs::new();
    jobs.add_harvest_job(1, "a".to_string());
    jobs.add_harvest_job(1, "b".to_string());
    jobs.add_harvest_job(2, "c".to_string());
    let mut assigned = vec![];
    for room in [1u32, 2, 1, 2, 3] {
        let tick = run_harvester(&mut jobs, creep(true, false, 50, 0, room));
        if let SourceChange::Assign(job) = tick.source {
            assigned.push(job);
        }
    }
    assert_eq!(assigned, vec!["b".to_string(), "c".to_string(), "a".to_string()]);
}

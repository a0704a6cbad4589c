use rusty_screeps::ids::{parse_source_ids, source_id, source_text};
use rusty_screeps::jobs::{build_job_set, harvest_sites, AvailableJobs, HarvestSite};
use rusty_screeps::staffing::harvest_job_sources;

fn texts(items: &[&str]) -> Vec<String> {
    items.iter().map(|s| s.to_string()).collect()
}

#[test]
fn new_board_is_empty() {
    let mut jobs = AvailableJobs::new();
    assert!(jobs.reserve_jobs.is_empty());
    assert!(jobs.jobs_by_room.is_empty());
    assert_eq!(jobs.pop_reserve_job(), None);
    assert_eq!(jobs.pop_harvest_job_for_room(7), None);
    assert_eq!(jobs.pop_harvest_job_any(), None);
}

#[test]
fn pop_reserve_job_takes_the_last() {
    let mut jobs = AvailableJobs::new();
    jobs.reserve_jobs.push("W43S28".to_string());
    jobs.reserve_jobs.push("W44S29".to_string());
    assert_eq!(jobs.pop_reserve_job(), Some("W44S29".to_string()));
    assert_eq!(jobs.pop_reserve_job(), Some("W43S28".to_string()));
    assert_eq!(jobs.pop_reserve_job(), None);
}

#[test]
fn pop_after_add_gives_back_the_job() {
    let mut jobs = AvailableJobs::new();
    jobs.add_harvest_job(1, "aa".to_string());
    jobs.add_harvest_job(2, "bb".to_string());
    jobs.add_harvest_job(1, "cc".to_string());
    assert_eq!(jobs.pop_harvest_job_for_room(1), Some("cc".to_string()));
    assert_eq!(jobs.jobs_by_room[&1].harvest_jobs, texts(&["aa"]));
    assert_eq!(jobs.jobs_by_room[&2].harvest_jobs, texts(&["bb"]));
    assert_eq!(jobs.pop_harvest_job_for_room(1), Some("aa".to_string()));
    assert_eq!(jobs.pop_harvest_job_for_room(1), None);
    // the room stays known, with no jobs
    assert!(jobs.jobs_by_room.contains_key(&1));
    assert_eq!(jobs.pop_harvest_job_for_room(3), None);
    assert_eq!(jobs.pop_harvest_job_for_room(2), Some("bb".to_string()));
}

#[test]
fn pop_any_finds_the_only_room_with_jobs() {
    let mut jobs = AvailableJobs::new();
    jobs.add_harvest_job(1, "aa".to_string());
    jobs.add_harvest_job(2, "bb".to_string());
    assert_eq!(jobs.pop_harvest_job_for_room(1), Some("aa".to_string()));
    assert_eq!(jobs.pop_harvest_job_any(), Some("bb".to_string()));
    assert_eq!(jobs.pop_harvest_job_any(), None);
}

#[test]
fn pop_any_takes_every_job_once() {
    let mut jobs = AvailableJobs::new();
    for (room, job) in [(1, "a"), (2, "b"), (3, "c"), (1, "d"), (2, "e")] {
        jobs.add_harvest_job(room, job.to_string());
    }
    let mut taken = Vec::new();
    while let Some(job) = jobs.pop_harvest_job_any() {
        taken.push(job);
    }
    taken.sort();
    assert_eq!(taken, texts(&["a", "b", "c", "d", "e"]));
}

#[test]
fn has_harvest_job_and_first_construction_job() {
    let mut jobs = AvailableJobs::new();
    assert!(!jobs.has_harvest_job_in(5));
    jobs.add_harvest_job(5, "s".to_string());
    assert!(jobs.has_harvest_job_in(5));
    assert_eq!(jobs.first_construction_job(5), None);
    jobs.jobs_by_room.get_mut(&5).unwrap().construction_jobs = texts(&["site1", "site2"]);
    assert_eq!(jobs.first_construction_job(5), Some("site1".to_string()));
    assert_eq!(jobs.first_construction_job(6), None);
}

#[test]
fn reserve_jobs_are_unclaimed_reserved_rooms_once_each() {
    let mut jobs = AvailableJobs::new();
    let reserved = texts(&["W43S28", "W44S29", "W43S28", "W45S28"]);
    let targets = vec![Some("W44S29".to_string()), None, Some("W99N1".to_string())];
    jobs.find_reserve_jobs(&reserved, &targets);
    assert_eq!(jobs.reserve_jobs, texts(&["W43S28", "W45S28"]));
}

#[test]
fn every_reserved_room_claimed_gives_no_jobs() {
    let mut jobs = AvailableJobs::new();
    let reserved = texts(&["W43S28"]);
    let targets = vec![Some("W43S28".to_string()), Some("W43S28".to_string())];
    jobs.find_reserve_jobs(&reserved, &targets);
    assert!(jobs.reserve_jobs.is_empty());
}

#[test]
fn build_job_set_collects_both_kinds() {
    let reserved = texts(&["W43S28", "W44S29"]);
    let targets = vec![Some("W43S28".to_string())];
    let sites = vec![
        HarvestSite { room: 10, source: "s1".to_string() },
        HarvestSite { room: 11, source: "s2".to_string() },
        HarvestSite { room: 10, source: "s3".to_string() },
    ];
    let jobs = build_job_set(&reserved, &targets, &sites);
    assert_eq!(jobs.reserve_jobs, texts(&["W44S29"]));
    assert_eq!(jobs.jobs_by_room[&10].harvest_jobs, texts(&["s1", "s3"]));
    assert_eq!(jobs.jobs_by_room[&11].harvest_jobs, texts(&["s2"]));
    assert_eq!(jobs.jobs_by_room.len(), 2);
}

#[test]
fn harvest_plan_shares_the_target_equally() {
    // three known sources, 15 harvesters wanted: 5 per source
    let worked = vec![1u128, 2, 3];
    let assigned = vec![1u128, 1, 1, 1, 1, 2, 2, 2, 2];
    assert_eq!(harvest_job_sources(&worked, &assigned, 15), vec![2, 3]);
}

#[test]
fn harvest_plan_counts_sources_known_only_from_creeps() {
    // source 9 is outside the worked rooms: four known sources, quota 13 / 4 = 3
    let worked = vec![1u128, 2, 3];
    let assigned = vec![9u128, 1, 1, 1, 2];
    assert_eq!(harvest_job_sources(&worked, &assigned, 13), vec![2, 3, 9]);
}

#[test]
fn harvest_plan_without_sources_is_empty() {
    let none: Vec<u128> = vec![];
    assert_eq!(harvest_job_sources(&none, &none, 15), Vec::<u128>::new());
    assert_eq!(harvest_job_sources(&none, &none, -3), Vec::<u128>::new());
}

#[test]
fn harvest_plan_deduplicates_worked_sources() {
    let worked = vec![4u128, 4, 5];
    let assigned: Vec<u128> = vec![];
    assert_eq!(harvest_job_sources(&worked, &assigned, 2), vec![4, 5]);
}

#[test]
fn harvest_plan_with_negative_target_rounds_toward_zero() {
    // -1 / 2 rounds to 0: no source has fewer than 0 creeps
    let worked = vec![1u128, 2];
    let assigned: Vec<u128> = vec![];
    assert_eq!(harvest_job_sources(&worked, &assigned, -1), Vec::<u128>::new());
    assert_eq!(harvest_job_sources(&worked, &assigned, 3), vec![1, 2]);
}

#[test]
fn source_ids_parse_as_hex() {
    assert_eq!(
        source_id(&"5bbcaf939099fc012e63ac39".to_string()),
        Some(0x5bbcaf939099fc012e63ac39u128)
    );
    assert_eq!(source_id(&"not an id".to_string()), None);
    assert_eq!(source_id(&"+1F".to_string()), Some(31));
    assert_eq!(source_id(&"".to_string()), None);
    assert_eq!(source_id(&"+".to_string()), None);
    assert_eq!(source_id(&"-1".to_string()), None);
    assert_eq!(source_id(&"ffffffffffffffffffffffff".to_string()), Some((1u128 << 96) - 1));
    assert_eq!(source_id(&"1000000000000000000000000".to_string()), None);
    assert_eq!(
        parse_source_ids(&texts(&["1f", "a0"])),
        Some(vec![0x1fu128, 0xa0])
    );
    assert_eq!(parse_source_ids(&texts(&["1f", "zz"])), None);
    assert_eq!(parse_source_ids(&Vec::new()), Some(vec![]));
}

#[test]
fn source_text_writes_lowercase_hex() {
    assert_eq!(source_text(0x1f), "1f");
    assert_eq!(source_text(0), "0");
    assert_eq!(source_text(0x5bbcaf939099fc012e63ac39), "5bbcaf939099fc012e63ac39");
    assert_eq!(source_text((1u128 << 96) - 1), "ffffffffffffffffffffffff");
    // the text reads back as the id
    assert_eq!(source_id(&source_text(0xa0)), Some(0xa0));
}

#[test]
fn harvest_sites_file_each_planned_source_under_its_room() {
    let plan = vec![0x1fu128, 0xa0, 0x2];
    let rooms = vec![10u32, 11, 10];
    let sites = harvest_sites(&plan, &rooms);
    let filed: Vec<(u32, String)> = sites.iter().map(|site| (site.room, site.source.clone())).collect();
    assert_eq!(filed, vec![(10, "1f".to_string()), (11, "a0".to_string()), (10, "2".to_string())]);
    assert!(harvest_sites(&vec![], &vec![]).is_empty());
}

#[test]
fn planned_board_hands_each_job_out_once() {
    // a plan without repeated sources gives a board without repeated jobs
    let worked = vec![4u128, 4, 5, 6];
    let assigned: Vec<u128> = vec![];
    let plan = harvest_job_sources(&worked, &assigned, 6);
    assert_eq!(plan, vec![4, 5, 6]);
    let sites = harvest_sites(&plan, &vec![1, 2, 1]);
    let mut jobs = build_job_set(&vec![], &vec![], &sites);
    assert_eq!(jobs.jobs_by_room[&1].harvest_jobs, texts(&["4", "6"]));
    assert_eq!(jobs.jobs_by_room[&2].harvest_jobs, texts(&["5"]));
    let mut taken = vec![];
    for room in [1u32, 1, 1, 2, 2] {
        if let Some(job) = jobs.pop_harvest_job_for_room(room) {
            taken.push(job);
        }
    }
    assert_eq!(taken, texts(&["6", "4", "5"]));
    assert_eq!(jobs.pop_harvest_job_any(), None);
}

//! Creeps that harvest energy themselves and then spend it: harvesters and
//! settlers. Each keeps a `harvesting` flag and the id of its source in its
//! memory; a creep without a source takes a harvest job from the board.
use vstd::prelude::*;
use crate::actions::{repair_local_road, worn, road_repair_margin, Durability, StoreInfo, StoreKind};
use crate::jobs::{
    jobs_distinct, lemma_taken_job_leaves_board, lemma_taking_adds_nothing, on_board, AvailableJobs, JobsView,
};

verus! {

/// What a gathering creep's memory and body say this tick.
#[derive(Clone, Copy, Debug, PartialEq, Eq, Structural)]
pub struct GathererState {
    pub spawning: bool,
    pub harvesting: bool,
    pub has_source: bool,
    pub free_capacity: i32,
    pub energy: u32,
    /// The number of the room the creep stands in.
    pub room: u32,
}

/// What becomes of the source in a creep's memory.
#[derive(Debug, PartialEq, Eq)]
pub enum SourceChange {
    Keep,
    Clear,
    /// Remember this source (the id text of a harvest job).
    Assign(String),
}

/// What a gathering creep does once its memory is settled.
#[derive(Clone, Copy, Debug, PartialEq, Eq, Structural)]
pub enum GathererAct {
    /// Nothing more this tick.
    Rest,
    /// Harvest its source.
    Harvest,
    /// Spend the energy it carries.
    Spend,
}

/// A gathering creep's tick: its new `harvesting` flag, what becomes of its
/// source, and what it does.
#[derive(Debug, PartialEq, Eq)]
pub struct GathererTick {
    pub harvesting: bool,
    pub source: SourceChange,
    pub act: GathererAct,
}

/// Whether a creep is harvesting without a source and so looks for a job.
pub open spec fn looks_for_job(c: GathererState) -> bool {
    !c.spawning && c.harvesting && c.free_capacity != 0 && !c.has_source
}

/// What a creep without a source to harvest does: it starts harvesting when
/// empty, else spends what it carries.
pub open spec fn idle_tick(harvesting: bool, energy: u32, source: SourceChange) -> GathererTick {
    if energy == 0 {
        GathererTick { harvesting: true, source: source, act: GathererAct::Rest }
    } else {
        GathererTick { harvesting: harvesting, source: source, act: GathererAct::Spend }
    }
}

/// The tick of a creep that does not look for a job.
pub open spec fn plain_tick(c: GathererState) -> GathererTick {
    if c.spawning {
        GathererTick { harvesting: c.harvesting, source: SourceChange::Keep, act: GathererAct::Rest }
    } else if c.harvesting && c.free_capacity == 0 {
        idle_tick(false, c.energy, SourceChange::Clear)
    } else if c.harvesting && c.has_source {
        GathererTick { harvesting: true, source: SourceChange::Keep, act: GathererAct::Harvest }
    } else {
        idle_tick(c.harvesting, c.energy, SourceChange::Keep)
    }
}

/// What a gathering creep's tick gives, and does to the job board.
pub open spec fn gather_outcome(
    before: JobsView,
    after: JobsView,
    c: GathererState,
    search_everywhere: bool,
    tick: GathererTick,
) -> bool {
    &&& !looks_for_job(c) ==> tick == plain_tick(c) && after == before
    &&& looks_for_job(c) ==> match tick.source {
        SourceChange::Assign(job) => {
            &&& tick.harvesting
            &&& tick.act == GathererAct::Harvest
            &&& if before.harvest_queue(c.room).len() > 0 {
                &&& job == before.harvest_queue(c.room).last()
                &&& after == before.without_last_harvest_job(c.room)
            } else {
                &&& search_everywhere
                &&& exists|room: u32|
                    {
                        &&& #[trigger] before.harvest_queue(room).len() > 0
                        &&& job == before.harvest_queue(room).last()
                        &&& after == before.without_last_harvest_job(room)
                    }
            }
        },
        SourceChange::Keep => {
            &&& before.harvest_queue(c.room).len() == 0
            &&& search_everywhere ==> forall|room: u32| #[trigger] before.harvest_queue(room).len() == 0
            &&& after == before
            &&& tick == idle_tick(true, c.energy, SourceChange::Keep)
        },
        SourceChange::Clear => false,
    }
}

/// A gathering creep's tick. A spawning creep does nothing. A harvesting
/// creep that is full stops harvesting and forgets its source. A harvesting
/// creep without a source takes the last harvest job of its room, or, when
/// `search_everywhere` holds and its room has none, of some other room;
/// with a job it remembers the job's source and harvests. A creep that is
/// harvesting with a source harvests. Any other creep starts harvesting
/// when empty and spends its energy otherwise.
pub fn gather_tick(jobs: &mut AvailableJobs, c: GathererState, search_everywhere: bool) -> (tick: GathererTick)
    ensures
        gather_outcome(old(jobs)@, final(jobs)@, c, search_everywhere, tick),
{
    if c.spawning {
        return GathererTick { harvesting: c.harvesting, source: SourceChange::Keep, act: GathererAct::Rest };
    }
    let mut harvesting = c.harvesting;
    let mut has_source = c.has_source;
    let mut source = SourceChange::Keep;
    if harvesting {
        if c.free_capacity == 0 {
            harvesting = false;
            has_source = false;
            source = SourceChange::Clear;
        } else if !has_source {
            let mut job = jobs.pop_harvest_job_for_room(c.room);
            if job.is_none() && search_everywhere {
                job = jobs.pop_harvest_job_any();
            }
            match job {
                Some(j) => {
                    source = SourceChange::Assign(j);
                    has_source = true;
                    harvesting = true;
                },
                None => {},
            }
        }
    }
    if harvesting && has_source {
        GathererTick { harvesting, source, act: GathererAct::Harvest }
    } else if c.energy == 0 {
        GathererTick { harvesting: true, source, act: GathererAct::Rest }
    } else {
        GathererTick { harvesting, source, act: GathererAct::Spend }
    }
}

/// A harvester's tick: a gathering creep that, when its own room has no
/// harvest job, takes one from any room.
pub fn run_harvester(jobs: &mut AvailableJobs, c: GathererState) -> (tick: GathererTick)
    ensures
        gather_outcome(old(jobs)@, final(jobs)@, c, true, tick),
{
    gather_tick(jobs, c, true)
}

/// A settler's tick: a gathering creep that only takes harvest jobs of the
/// room it stands in.
pub fn run_settler(jobs: &mut AvailableJobs, c: GathererState) -> (tick: GathererTick)
    ensures
        gather_outcome(old(jobs)@, final(jobs)@, c, false, tick),
{
    gather_tick(jobs, c, false)
}

/// What a gathering creep's tick gives, for every creep and board. A
/// spawning creep rests and changes nothing. A harvesting creep that is
/// full stops harvesting and forgets its source. A harvesting creep with a
/// source and room left harvests it, whatever it carries. A harvesting
/// creep without a source takes the last harvest job of its own room and
/// harvests; failing that, a harvester (`search_everywhere`) takes the last
/// job of some other room, and a creep that finds no job keeps harvesting
/// without a source. A creep that does not harvest this tick rests and
/// starts harvesting when it carries nothing, and spends what it carries
/// otherwise. Only a creep that takes a job changes the board, by removing
/// exactly that job.
pub proof fn lemma_gather_tick_behaviour(
    before: JobsView,
    after: JobsView,
    c: GathererState,
    search_everywhere: bool,
    tick: GathererTick,
)
    requires
        gather_outcome(before, after, c, search_everywhere, tick),
    ensures
        c.spawning ==> tick == (GathererTick { harvesting: c.harvesting, source: SourceChange::Keep, act: GathererAct::Rest })
            && after == before,
        !c.spawning && c.harvesting && c.free_capacity == 0 ==> {
            &&& tick.source == SourceChange::Clear
            &&& after == before
            &&& c.energy == 0 ==> tick.harvesting && tick.act == GathererAct::Rest
            &&& c.energy != 0 ==> !tick.harvesting && tick.act == GathererAct::Spend
        },
        !c.spawning && c.harvesting && c.free_capacity != 0 && c.has_source ==> tick == (GathererTick {
            harvesting: true,
            source: SourceChange::Keep,
            act: GathererAct::Harvest,
        }) && after == before,
        !c.spawning && !c.harvesting ==> {
            &&& tick.source == SourceChange::Keep
            &&& after == before
            &&& c.energy == 0 ==> tick.harvesting && tick.act == GathererAct::Rest
            &&& c.energy != 0 ==> !tick.harvesting && tick.act == GathererAct::Spend
        },
        !c.spawning && c.harvesting && c.free_capacity != 0 && !c.has_source ==> {
            &&& before.harvest_queue(c.room).len() > 0 ==> tick == (GathererTick {
                harvesting: true,
                source: SourceChange::Assign(before.harvest_queue(c.room).last()),
                act: GathererAct::Harvest,
            }) && after == before.without_last_harvest_job(c.room)
            &&& before.harvest_queue(c.room).len() == 0 && search_everywhere && (exists|r: u32|
                #[trigger] before.harvest_queue(r).len() > 0) ==> {
                &&& tick.harvesting
                &&& tick.act == GathererAct::Harvest
                &&& exists|r: u32|
                    #[trigger] before.harvest_queue(r).len() > 0 && tick.source == SourceChange::Assign(
                        before.harvest_queue(r).last(),
                    ) && after == before.without_last_harvest_job(r)
            }
            &&& before.harvest_queue(c.room).len() == 0 && (!search_everywhere || forall|r: u32|
                #[trigger] before.harvest_queue(r).len() == 0) ==> {
                &&& after == before
                &&& tick.harvesting
                &&& tick.source == SourceChange::Keep
                &&& tick.act == (if c.energy == 0 { GathererAct::Rest } else { GathererAct::Spend })
            }
        },
{
    if !c.spawning && c.harvesting && c.free_capacity != 0 && !c.has_source && before.harvest_queue(c.room).len() == 0
        && search_everywhere {
        if exists|r: u32| #[trigger] before.harvest_queue(r).len() > 0 {
            let r = choose|r: u32| #[trigger] before.harvest_queue(r).len() > 0;
            assert(before.harvest_queue(r).len() > 0);
        }
    }
}

/// One gathering tick on a board without repeated jobs: the board keeps
/// holding no job twice, gains no job, and a job handed out is no longer on
/// it.
proof fn lemma_gather_step(before: JobsView, after: JobsView, c: GathererState, search_everywhere: bool, tick: GathererTick)
    requires
        jobs_distinct(before),
        gather_outcome(before, after, c, search_everywhere, tick),
    ensures
        jobs_distinct(after),
        forall|job: String| #[trigger] on_board(after, job) ==> on_board(before, job),
        tick.source matches SourceChange::Assign(job) ==> on_board(before, job) && !on_board(after, job),
{
    if looks_for_job(c) {
        if let SourceChange::Assign(job) = tick.source {
            let room = if before.harvest_queue(c.room).len() > 0 {
                c.room
            } else {
                choose|room: u32|
                    {
                        &&& #[trigger] before.harvest_queue(room).len() > 0
                        &&& job == before.harvest_queue(room).last()
                        &&& after == before.without_last_harvest_job(room)
                    }
            };
            lemma_taken_job_leaves_board(before, room);
            assert forall|j: String| #[trigger] on_board(after, j) implies on_board(before, j) by {
                lemma_taking_adds_nothing(before, room, j);
            }
            let n = before.harvest_queue(room).len() - 1;
            assert(before.harvest_queue(room)[n] == job);
        }
    }
}

/// Along a run of ticks that share one board, every board holds no job
/// twice and holds no job that an earlier board lacked.
proof fn lemma_boards_along_ticks(
    boards: Seq<JobsView>,
    creeps: Seq<GathererState>,
    search_everywhere: Seq<bool>,
    ticks: Seq<GathererTick>,
    i: int,
)
    requires
        creeps.len() == ticks.len(),
        search_everywhere.len() == ticks.len(),
        boards.len() == ticks.len() + 1,
        jobs_distinct(boards[0]),
        forall|t: int|
            0 <= t < ticks.len() ==> gather_outcome(boards[t], boards[t + 1], creeps[t], search_everywhere[t], #[trigger] ticks[t]),
        0 <= i <= ticks.len(),
    ensures
        jobs_distinct(boards[i]),
        forall|k: int, job: String| 0 <= k <= i && on_board(boards[i], job) ==> #[trigger] on_board(boards[k], job),
    decreases i,
{
    if i > 0 {
        lemma_boards_along_ticks(boards, creeps, search_everywhere, ticks, i - 1);
        lemma_gather_step(boards[i - 1], boards[i], creeps[i - 1], search_everywhere[i - 1], ticks[i - 1]);
    }
}

/// Harvesters and settlers that take jobs one after another from one board
/// on which no job occurs twice never get the same job: in one tick of the
/// game no harvest job goes to two creeps, and every job handed out was on
/// the board. `boards[t]` is the board before creep `t`'s tick and
/// `boards[t + 1]` the board after it.
pub proof fn lemma_one_board_never_assigns_a_job_twice(
    boards: Seq<JobsView>,
    creeps: Seq<GathererState>,
    search_everywhere: Seq<bool>,
    ticks: Seq<GathererTick>,
)
    requires
        creeps.len() == ticks.len(),
        search_everywhere.len() == ticks.len(),
        boards.len() == ticks.len() + 1,
        jobs_distinct(boards[0]),
        forall|t: int|
            0 <= t < ticks.len() ==> gather_outcome(boards[t], boards[t + 1], creeps[t], search_everywhere[t], #[trigger] ticks[t]),
    ensures
        forall|a: int, b: int|
            0 <= a < b < ticks.len() && (#[trigger] ticks[a]).source is Assign && (#[trigger] ticks[b]).source is Assign
                ==> ticks[a].source != ticks[b].source,
        forall|t: int| 0 <= t < ticks.len() ==> ((#[trigger] ticks[t]).source matches SourceChange::Assign(job) ==> on_board(boards[0], job)),
{
    assert forall|t: int| 0 <= t < ticks.len() implies ((#[trigger] ticks[t]).source matches SourceChange::Assign(job) ==> on_board(boards[0], job)) by {
        lemma_boards_along_ticks(boards, creeps, search_everywhere, ticks, t);
        lemma_gather_step(boards[t], boards[t + 1], creeps[t], search_everywhere[t], ticks[t]);
    }
    assert forall|a: int, b: int|
        0 <= a < b < ticks.len() && (#[trigger] ticks[a]).source is Assign && (#[trigger] ticks[b]).source is Assign
            implies ticks[a].source != ticks[b].source by {
        lemma_boards_along_ticks(boards, creeps, search_everywhere, ticks, a);
        lemma_gather_step(boards[a], boards[a + 1], creeps[a], search_everywhere[a], ticks[a]);
        lemma_boards_along_ticks(boards, creeps, search_everywhere, ticks, b);
        lemma_gather_step(boards[b], boards[b + 1], creeps[b], search_everywhere[b], ticks[b]);
        let job = ticks[b].source->Assign_0;
        if ticks[a].source == ticks[b].source {
            assert(on_board(boards[b], job));
            assert(on_board(boards[a + 1], job));
        }
    }
}

/// How a gathering creep spends the energy it carries.
#[derive(Debug, PartialEq, Eq)]
pub enum SpendChoice {
    /// Repair the structure at this index of those under its feet.
    Repair(usize),
    /// Fill the structure at this index of the room's list.
    FillStructure(usize),
    /// Fill the room's storage.
    FillStorage,
    /// Build this construction site (the id text of a construction job).
    Build(String),
    /// Upgrade the room's controller.
    Upgrade,
}

/// A structure of kind `kind` that takes energy.
pub open spec fn fillable(s: StoreInfo, kind: StoreKind) -> bool {
    s.kind == kind && s.free_energy > 0
}

/// The index of the first structure of kind `kind` that takes energy.
pub open spec fn first_fillable(structures: Seq<StoreInfo>, kind: StoreKind) -> Option<int>
    decreases structures.len(),
{
    if structures.len() == 0 {
        None
    } else {
        match first_fillable(structures.drop_last(), kind) {
            Some(i) => Some(i),
            None => if fillable(structures.last(), kind) {
                Some(structures.len() - 1)
            } else {
                None
            },
        }
    }
}

/// The index of the first structure under a creep's feet that it repairs.
pub open spec fn first_worn(under_foot: Seq<Option<Durability>>) -> Option<int>
    decreases under_foot.len(),
{
    if under_foot.len() == 0 {
        None
    } else {
        match first_worn(under_foot.drop_last()) {
            Some(i) => Some(i),
            None => if under_foot.last() matches Some(d) && worn(d, road_repair_margin()) {
                Some(under_foot.len() - 1)
            } else {
                None
            },
        }
    }
}

/// Once a prefix holds a structure of the kind that takes energy, the
/// whole sequence has its first one at the same place.
proof fn lemma_first_fillable_prefix(structures: Seq<StoreInfo>, n: int, kind: StoreKind)
    requires
        0 <= n <= structures.len(),
        first_fillable(structures.take(n), kind) is Some,
    ensures
        first_fillable(structures, kind) == first_fillable(structures.take(n), kind),
    decreases structures.len() - n,
{
    if n < structures.len() {
        assert(structures.take(n + 1).drop_last() =~= structures.take(n));
        lemma_first_fillable_prefix(structures, n + 1, kind);
    } else {
        assert(structures.take(n) =~= structures);
    }
}

/// The index of the first structure of kind `kind` that takes energy.
pub fn first_fillable_index(structures: &Vec<StoreInfo>, kind: StoreKind) -> (found: Option<usize>)
    ensures
        found matches Some(i) ==> first_fillable(structures@, kind) == Some(i as int),
        found is None ==> first_fillable(structures@, kind) is None,
{
    let mut i: usize = 0;
    while i < structures.len()
        invariant
            i <= structures.len(),
            first_fillable(structures@.take(i as int), kind) is None,
        decreases structures.len() - i,
    {
        assert(structures@.take(i + 1).drop_last() =~= structures@.take(i as int));
        if structures[i].kind == kind && structures[i].free_energy > 0 {
            proof {
                lemma_first_fillable_prefix(structures@, i + 1, kind);
            }
            return Some(i);
        }
        i += 1;
    }
    assert(structures@.take(structures.len() as int) =~= structures@);
    None
}

/// The structure that `repair_local_road` picks is the first worn one.
pub proof fn lemma_first_worn_matches(under_foot: Seq<Option<Durability>>, found: Option<usize>)
    requires
        found matches Some(i) ==> {
            &&& i < under_foot.len()
            &&& under_foot[i as int] matches Some(d) && worn(d, road_repair_margin())
            &&& forall|j: int| 0 <= j < i ==> !(#[trigger] under_foot[j] matches Some(d) && worn(d, road_repair_margin()))
        },
        found is None ==> forall|j: int| 0 <= j < under_foot.len() ==> !(#[trigger] under_foot[j] matches Some(d) && worn(d, road_repair_margin())),
    ensures
        found matches Some(i) ==> first_worn(under_foot) == Some(i as int),
        found is None ==> first_worn(under_foot) is None,
    decreases under_foot.len(),
{
    if under_foot.len() > 0 {
        let earlier = under_foot.drop_last();
        match found {
            Some(i) => {
                if i < earlier.len() {
                    lemma_first_worn_matches(earlier, found);
                } else {
                    assert forall|j: int| 0 <= j < earlier.len() implies !(#[trigger] earlier[j] matches Some(d) && worn(d, road_repair_margin())) by {
                        assert(earlier[j] == under_foot[j]);
                    }
                    lemma_first_worn_matches(earlier, None);
                }
            },
            None => {
                assert forall|j: int| 0 <= j < earlier.len() implies !(#[trigger] earlier[j] matches Some(d) && worn(d, road_repair_margin())) by {
                    assert(earlier[j] == under_foot[j]);
                }
                lemma_first_worn_matches(earlier, None);
                assert(under_foot.last() == under_foot[under_foot.len() - 1]);
            },
        }
    }
}

/// The energy in the home room's storage below which harvesters keep it
/// stocked before anything but small creeps' towers and extensions.
pub open spec fn storage_floor() -> int {
    2000
}

/// What a harvester needs to know of the colony's home room: its structures
/// and, if it has a storage, the energy stored there.
pub struct HomeRoom {
    pub structures: Vec<StoreInfo>,
    pub storage_energy: Option<u32>,
}

/// The structures of the home room, none when it cannot be found.
pub open spec fn home_structures(home: Option<HomeRoom>) -> Seq<StoreInfo> {
    match home {
        Some(h) => h.structures@,
        None => Seq::empty(),
    }
}

/// The energy in the home room's storage, `None` when the room or its
/// storage cannot be found.
pub open spec fn home_storage(home: Option<HomeRoom>) -> Option<u32> {
    match home {
        Some(h) => h.storage_energy,
        None => None,
    }
}

/// Whether a harvester can spend its energy: it repairs, or the home room
/// is found and either has a storage or holds a tower or extension that a
/// small harvester fills. Otherwise the home room or its storage is needed
/// and missing.
pub open spec fn harvester_can_spend(under_foot: Seq<Option<Durability>>, home: Option<HomeRoom>, body_len: int) -> bool {
    ||| first_worn(under_foot) is Some
    ||| home matches Some(h) && (h.storage_energy is Some || (body_len <= 5 && (first_fillable(h.structures@, StoreKind::Tower) is Some
        || first_fillable(h.structures@, StoreKind::Extension) is Some)))
}

/// How a harvester spends its energy: it repairs a worn structure under its
/// feet; a small harvester (five parts or fewer) fills the home room's
/// first tower, then first extension, that takes energy; then the home
/// storage is filled while it holds less than 2000; then the first
/// construction job of the creep's room is built; then the storage is
/// filled while it holds less than 25000, or, by large harvesters, less
/// than 950000; else the home controller is upgraded.
pub open spec fn harvester_spend(
    under_foot: Seq<Option<Durability>>,
    structures: Seq<StoreInfo>,
    body_len: int,
    storage_energy: Option<u32>,
    construction: Seq<String>,
) -> SpendChoice {
    let small = body_len <= 5;
    let stored = storage_energy->0 as int;
    if first_worn(under_foot) is Some {
        SpendChoice::Repair(first_worn(under_foot)->0 as usize)
    } else if small && first_fillable(structures, StoreKind::Tower) is Some {
        SpendChoice::FillStructure(first_fillable(structures, StoreKind::Tower)->0 as usize)
    } else if small && first_fillable(structures, StoreKind::Extension) is Some {
        SpendChoice::FillStructure(first_fillable(structures, StoreKind::Extension)->0 as usize)
    } else if stored < storage_floor() {
        SpendChoice::FillStorage
    } else if construction.len() > 0 {
        SpendChoice::Build(construction[0])
    } else if stored < 25000 {
        SpendChoice::FillStorage
    } else if stored < 950000 && !small {
        SpendChoice::FillStorage
    } else {
        SpendChoice::Upgrade
    }
}

/// Whether a harvester can spend its energy (see `harvester_can_spend`).
pub fn can_spend_energy(under_foot: &Vec<Option<Durability>>, home: &Option<HomeRoom>, body_len: usize) -> (can: bool)
    ensures
        can == harvester_can_spend(under_foot@, *home, body_len as int),
{
    let repair = repair_local_road(under_foot);
    proof {
        lemma_first_worn_matches(under_foot@, repair);
    }
    if repair.is_some() {
        return true;
    }
    match home {
        Some(h) => {
            if h.storage_energy.is_some() {
                return true;
            }
            body_len <= 5 && (first_fillable_index(&h.structures, StoreKind::Tower).is_some()
                || first_fillable_index(&h.structures, StoreKind::Extension).is_some())
        },
        None => false,
    }
}

/// How a harvester spends its energy (see `harvester_spend`): `under_foot`
/// are the structures where it stands, `home` the home room (`None` when it
/// cannot be found), `room` the room it stands in.
pub fn spend_energy(
    under_foot: &Vec<Option<Durability>>,
    home: &Option<HomeRoom>,
    body_len: usize,
    jobs: &AvailableJobs,
    room: u32,
) -> (choice: SpendChoice)
    requires
        harvester_can_spend(under_foot@, *home, body_len as int),
    ensures
        choice == harvester_spend(
            under_foot@,
            home_structures(*home),
            body_len as int,
            home_storage(*home),
            jobs@.construction_queue(room),
        ),
{
    let repair = repair_local_road(under_foot);
    proof {
        lemma_first_worn_matches(under_foot@, repair);
    }
    if let Some(i) = repair {
        return SpendChoice::Repair(i);
    }
    let h = match home {
        Some(h) => h,
        None => {
            proof {
                assert(false);
            }
            return SpendChoice::Upgrade;
        },
    };
    let small = body_len <= 5;
    let tower = first_fillable_index(&h.structures, StoreKind::Tower);
    let extension = first_fillable_index(&h.structures, StoreKind::Extension);
    if small && tower.is_some() {
        return SpendChoice::FillStructure(tower.unwrap());
    } else if small && extension.is_some() {
        return SpendChoice::FillStructure(extension.unwrap());
    }
    let storage_energy = match h.storage_energy {
        Some(e) => e,
        None => {
            proof {
                assert(false);
            }
            return SpendChoice::Upgrade;
        },
    };
    let site = jobs.first_construction_job(room);
    if storage_energy < 2000 {
        SpendChoice::FillStorage
    } else if site.is_some() {
        SpendChoice::Build(site.unwrap())
    } else if storage_energy < 25000 {
        SpendChoice::FillStorage
    } else if storage_energy < 950000 && !small {
        SpendChoice::FillStorage
    } else {
        SpendChoice::Upgrade
    }
}

/// How a settler spends its energy: it repairs a worn structure under its
/// feet; then it fills the first tower, then first extension, of its room
/// that takes energy; then the room's storage while it holds less than 2000
/// (a room without storage counts as holding 1000000); then it builds the
/// room's first construction job; else it upgrades the room's controller.
pub open spec fn settler_spend(
    under_foot: Seq<Option<Durability>>,
    structures: Seq<StoreInfo>,
    storage_energy: Option<u32>,
    construction: Seq<String>,
) -> SpendChoice {
    let stored: int = match storage_energy {
        Some(e) => e as int,
        None => 1000000,
    };
    if first_worn(under_foot) is Some {
        SpendChoice::Repair(first_worn(under_foot)->0 as usize)
    } else if first_fillable(structures, StoreKind::Tower) is Some {
        SpendChoice::FillStructure(first_fillable(structures, StoreKind::Tower)->0 as usize)
    } else if first_fillable(structures, StoreKind::Extension) is Some {
        SpendChoice::FillStructure(first_fillable(structures, StoreKind::Extension)->0 as usize)
    } else if stored < storage_floor() {
        SpendChoice::FillStorage
    } else if construction.len() > 0 {
        SpendChoice::Build(construction[0])
    } else {
        SpendChoice::Upgrade
    }
}

/// How a settler spends its energy (see `settler_spend`): `under_foot` are
/// the structures where it stands, `structures` and `storage_energy` those
/// of the room it stands in, `room` that room.
pub fn settler_spend_energy(
    under_foot: &Vec<Option<Durability>>,
    structures: &Vec<StoreInfo>,
    storage_energy: Option<u32>,
    jobs: &AvailableJobs,
    room: u32,
) -> (choice: SpendChoice)
    ensures
        choice == settler_spend(under_foot@, structures@, storage_energy, jobs@.construction_queue(room)),
{
    let repair = repair_local_road(under_foot);
    proof {
        lemma_first_worn_matches(under_foot@, repair);
    }
    if let Some(i) = repair {
        return SpendChoice::Repair(i);
    }
    let stored: u32 = match storage_energy {
        Some(e) => e,
        None => 1000000,
    };
    let tower = first_fillable_index(structures, StoreKind::Tower);
    let extension = first_fillable_index(structures, StoreKind::Extension);
    let site = jobs.first_construction_job(room);
    if tower.is_some() {
        SpendChoice::FillStructure(tower.unwrap())
    } else if extension.is_some() {
        SpendChoice::FillStructure(extension.unwrap())
    } else if stored < 2000 {
        SpendChoice::FillStorage
    } else if site.is_some() {
        SpendChoice::Build(site.unwrap())
    } else {
        SpendChoice::Upgrade
    }
}

/// `first_worn` is the first structure under foot that has lost more than
/// 300 hit points.
proof fn lemma_first_worn_is_first(under_foot: Seq<Option<Durability>>)
    ensures
        first_worn(under_foot) matches Some(i) ==> {
            &&& 0 <= i < under_foot.len()
            &&& under_foot[i] matches Some(d) && d.hits + 300 < d.hits_max
            &&& forall|j: int| 0 <= j < i ==> !(#[trigger] under_foot[j] matches Some(d) && d.hits + 300 < d.hits_max)
        },
        first_worn(under_foot) is None ==> forall|j: int|
            0 <= j < under_foot.len() ==> !(#[trigger] under_foot[j] matches Some(d) && d.hits + 300 < d.hits_max),
    decreases under_foot.len(),
{
    if under_foot.len() > 0 {
        let earlier = under_foot.drop_last();
        let n = under_foot.len() - 1;
        lemma_first_worn_is_first(earlier);
        assert(under_foot.last() == under_foot[n]);
        match first_worn(earlier) {
            Some(i) => {
                assert(earlier[i] == under_foot[i]);
                assert forall|j: int| 0 <= j < i implies !(#[trigger] under_foot[j] matches Some(d) && d.hits + 300
                    < d.hits_max) by {
                    assert(earlier[j] == under_foot[j]);
                }
            },
            None => {
                assert forall|j: int| 0 <= j < n implies !(#[trigger] under_foot[j] matches Some(d) && d.hits + 300
                    < d.hits_max) by {
                    assert(earlier[j] == under_foot[j]);
                }
            },
        }
    }
}

/// `first_fillable` is the first structure of the kind that takes energy.
proof fn lemma_first_fillable_is_first(structures: Seq<StoreInfo>, kind: StoreKind)
    ensures
        first_fillable(structures, kind) matches Some(i) ==> {
            &&& 0 <= i < structures.len()
            &&& structures[i].kind == kind && structures[i].free_energy > 0
            &&& forall|j: int| 0 <= j < i ==> !((#[trigger] structures[j]).kind == kind && structures[j].free_energy > 0)
        },
        first_fillable(structures, kind) is None ==> forall|j: int|
            0 <= j < structures.len() ==> !((#[trigger] structures[j]).kind == kind && structures[j].free_energy > 0),
    decreases structures.len(),
{
    if structures.len() > 0 {
        let earlier = structures.drop_last();
        let n = structures.len() - 1;
        lemma_first_fillable_is_first(earlier, kind);
        assert(structures.last() == structures[n]);
        match first_fillable(earlier, kind) {
            Some(i) => {
                assert(earlier[i] == structures[i]);
                assert forall|j: int| 0 <= j < i implies !((#[trigger] structures[j]).kind == kind
                    && structures[j].free_energy > 0) by {
                    assert(earlier[j] == structures[j]);
                }
            },
            None => {
                assert forall|j: int| 0 <= j < n implies !((#[trigger] structures[j]).kind == kind
                    && structures[j].free_energy > 0) by {
                    assert(earlier[j] == structures[j]);
                }
            },
        }
    }
}

/// How a harvester spends its energy, for every input: it repairs the first
/// structure under its feet that has lost more than 300 hit points; with
/// nothing to repair, a harvester of five parts or fewer fills the first
/// tower, else the first extension, of the home room that takes energy;
/// otherwise, with the home storage holding `e`: below 2000 it fills the
/// storage; from 2000 on it builds the first construction job of its room
/// whenever there is one, whatever its size; without one it fills the
/// storage below 25000, and a larger harvester also below 950000; else it
/// upgrades the controller.
pub proof fn lemma_harvester_spending_order(
    under_foot: Seq<Option<Durability>>,
    structures: Seq<StoreInfo>,
    body_len: int,
    storage_energy: Option<u32>,
    construction: Seq<String>,
    choice: SpendChoice,
)
    requires
        choice == harvester_spend(under_foot, structures, body_len, storage_energy, construction),
    ensures
        forall|i: int|
            0 <= i < under_foot.len() && (#[trigger] under_foot[i] matches Some(d) && d.hits + 300 < d.hits_max) && (forall|j: int|
                0 <= j < i ==> !(#[trigger] under_foot[j] matches Some(d) && d.hits + 300 < d.hits_max))
                ==> choice == SpendChoice::Repair(i as usize),
        (forall|j: int| 0 <= j < under_foot.len() ==> !(#[trigger] under_foot[j] matches Some(d) && d.hits + 300 < d.hits_max))
            ==> {
            &&& forall|i: int|
                body_len <= 5 && 0 <= i < structures.len() && (#[trigger] structures[i]).kind == StoreKind::Tower && structures[i].free_energy > 0
                    && (forall|j: int| 0 <= j < i ==> !((#[trigger] structures[j]).kind == StoreKind::Tower && structures[j].free_energy > 0))
                    ==> choice == SpendChoice::FillStructure(i as usize)
            &&& forall|i: int|
                body_len <= 5 && 0 <= i < structures.len() && (#[trigger] structures[i]).kind == StoreKind::Extension && structures[i].free_energy > 0
                    && (forall|j: int| 0 <= j < structures.len() ==> !((#[trigger] structures[j]).kind == StoreKind::Tower && structures[j].free_energy > 0))
                    && (forall|j: int| 0 <= j < i ==> !((#[trigger] structures[j]).kind == StoreKind::Extension && structures[j].free_energy > 0))
                    ==> choice == SpendChoice::FillStructure(i as usize)
            &&& (body_len > 5 || forall|j: int| 0 <= j < structures.len() ==> !(((#[trigger] structures[j]).kind == StoreKind::Tower
                || structures[j].kind == StoreKind::Extension) && structures[j].free_energy > 0)) ==> forall|e: u32|
                storage_energy == Some(e) ==> {
                    &&& e < 2000 ==> choice == SpendChoice::FillStorage
                    &&& e >= 2000 && construction.len() > 0 ==> choice == SpendChoice::Build(construction[0])
                    &&& e >= 2000 && construction.len() == 0 && e < 25000 ==> choice == SpendChoice::FillStorage
                    &&& 25000 <= e < 950000 && construction.len() == 0 ==> choice == (if body_len > 5 {
                        SpendChoice::FillStorage
                    } else {
                        SpendChoice::Upgrade
                    })
                    &&& e >= 950000 && construction.len() == 0 ==> choice == SpendChoice::Upgrade
                }
        },
{
    lemma_first_worn_is_first(under_foot);
    lemma_first_fillable_is_first(structures, StoreKind::Tower);
    lemma_first_fillable_is_first(structures, StoreKind::Extension);
}

/// How a settler spends its energy, for every input: it repairs the first
/// structure under its feet that has lost more than 300 hit points; with
/// nothing to repair it fills the first tower, else the first extension, of
/// its room that takes energy; otherwise, while the room's storage holds
/// less than 2000 it fills the storage, whether or not anything is to be
/// built; with no storage, or one holding 2000 or more, it builds the first
/// construction job of its room, and upgrades the controller when there is
/// none.
pub proof fn lemma_settler_spending_order(
    under_foot: Seq<Option<Durability>>,
    structures: Seq<StoreInfo>,
    storage_energy: Option<u32>,
    construction: Seq<String>,
    choice: SpendChoice,
)
    requires
        choice == settler_spend(under_foot, structures, storage_energy, construction),
    ensures
        forall|i: int|
            0 <= i < under_foot.len() && (#[trigger] under_foot[i] matches Some(d) && d.hits + 300 < d.hits_max) && (forall|j: int|
                0 <= j < i ==> !(#[trigger] under_foot[j] matches Some(d) && d.hits + 300 < d.hits_max))
                ==> choice == SpendChoice::Repair(i as usize),
        (forall|j: int| 0 <= j < under_foot.len() ==> !(#[trigger] under_foot[j] matches Some(d) && d.hits + 300 < d.hits_max))
            ==> {
            &&& forall|i: int|
                0 <= i < structures.len() && (#[trigger] structures[i]).kind == StoreKind::Tower && structures[i].free_energy > 0
                    && (forall|j: int| 0 <= j < i ==> !((#[trigger] structures[j]).kind == StoreKind::Tower && structures[j].free_energy > 0))
                    ==> choice == SpendChoice::FillStructure(i as usize)
            &&& forall|i: int|
                0 <= i < structures.len() && (#[trigger] structures[i]).kind == StoreKind::Extension && structures[i].free_energy > 0
                    && (forall|j: int| 0 <= j < structures.len() ==> !((#[trigger] structures[j]).kind == StoreKind::Tower && structures[j].free_energy > 0))
                    && (forall|j: int| 0 <= j < i ==> !((#[trigger] structures[j]).kind == StoreKind::Extension && structures[j].free_energy > 0))
                    ==> choice == SpendChoice::FillStructure(i as usize)
            &&& (forall|j: int| 0 <= j < structures.len() ==> !(((#[trigger] structures[j]).kind == StoreKind::Tower
                || structures[j].kind == StoreKind::Extension) && structures[j].free_energy > 0)) ==> {
                &&& (storage_energy matches Some(e) && e < 2000) ==> choice == SpendChoice::FillStorage
                &&& !(storage_energy matches Some(e) && e < 2000) && construction.len() > 0 ==> choice == SpendChoice::Build(construction[0])
                &&& !(storage_energy matches Some(e) && e < 2000) && construction.len() == 0 ==> choice == SpendChoice::Upgrade
            }
        },
{
    lemma_first_worn_is_first(under_foot);
    lemma_first_fillable_is_first(structures, StoreKind::Tower);
    lemma_first_fillable_is_first(structures, StoreKind::Extension);
}

} // verus!

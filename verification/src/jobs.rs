//! The colony's job board: one search finds every job that needs doing, and
//! creeps then take jobs from it, preferably from the room they stand in.
use std::collections::HashMap;
use vstd::prelude::*;
use vstd::std_specs::iter::IteratorSpec;
use crate::ids::{lemma_object_id_text_round_trip, lower_hex, max_object_id, parsed_object_id, source_text};
use crate::lists::lemma_push_contains;
use crate::text::{texts_view, optional_texts_view, text_among, present_among};

verus! {

broadcast use vstd::std_specs::hash::group_hash_axioms;

/// The jobs of one room. A harvest job names the source (by its object id
/// text) that needs another harvester; a construction job names a site.
pub struct RoomJobs {
    pub harvest_jobs: Vec<String>,
    pub construction_jobs: Vec<String>,
}

/// What a room's job lists hold.
pub struct RoomJobsView {
    pub harvest: Seq<String>,
    pub construction: Seq<String>,
}

impl View for RoomJobs {
    type V = RoomJobsView;

    open spec fn view(&self) -> RoomJobsView {
        RoomJobsView { harvest: self.harvest_jobs@, construction: self.construction_jobs@ }
    }
}

/// Every job found this tick: rooms that want a reserver, and the jobs of
/// each room, keyed by the room's number.
pub struct AvailableJobs {
    pub reserve_jobs: Vec<String>,
    pub jobs_by_room: HashMap<u32, RoomJobs>,
}

/// What the job board holds.
pub struct JobsView {
    pub reserve: Seq<String>,
    pub rooms: Map<u32, RoomJobsView>,
}

impl View for AvailableJobs {
    type V = JobsView;

    open spec fn view(&self) -> JobsView {
        JobsView {
            reserve: self.reserve_jobs@,
            rooms: self.jobs_by_room@.map_values(|r: RoomJobs| r@),
        }
    }
}

impl JobsView {
    /// The harvest jobs of a room; a room the board does not know has none.
    pub open spec fn harvest_queue(self, room: u32) -> Seq<String> {
        if self.rooms.contains_key(room) {
            self.rooms[room].harvest
        } else {
            Seq::empty()
        }
    }

    /// The construction jobs of a room; a room the board does not know has none.
    pub open spec fn construction_queue(self, room: u32) -> Seq<String> {
        if self.rooms.contains_key(room) {
            self.rooms[room].construction
        } else {
            Seq::empty()
        }
    }

    /// The board after the last harvest job of `room` was taken.
    pub open spec fn without_last_harvest_job(self, room: u32) -> JobsView {
        JobsView {
            reserve: self.reserve,
            rooms: self.rooms.insert(
                room,
                RoomJobsView {
                    harvest: self.rooms[room].harvest.drop_last(),
                    construction: self.rooms[room].construction,
                },
            ),
        }
    }

    /// The board after `job` was added to the harvest jobs of `room`.
    pub open spec fn with_harvest_job(self, room: u32, job: String) -> JobsView {
        JobsView {
            reserve: self.reserve,
            rooms: self.rooms.insert(
                room,
                RoomJobsView {
                    harvest: self.harvest_queue(room).push(job),
                    construction: self.construction_queue(room),
                },
            ),
        }
    }
}

/// A source that needs another harvester, with the number of its room and
/// the text of its id.
pub struct HarvestSite {
    pub room: u32,
    pub source: String,
}

impl JobsView {
    /// The board after a harvest job was added for each site, in order.
    pub open spec fn with_harvest_jobs(self, sites: Seq<HarvestSite>) -> JobsView
        decreases sites.len(),
    {
        if sites.len() == 0 {
            self
        } else {
            self.with_harvest_jobs(sites.drop_last()).with_harvest_job(
                sites.last().room,
                sites.last().source,
            )
        }
    }
}

/// The rooms of `rooms` that no creep has as its reservation target, each
/// once, in the order of their first mention.
pub open spec fn unclaimed_rooms(rooms: Seq<Seq<char>>, targets: Seq<Option<Seq<char>>>) -> Seq<Seq<char>>
    decreases rooms.len(),
{
    if rooms.len() == 0 {
        Seq::empty()
    } else {
        let earlier = rooms.drop_last();
        let room = rooms.last();
        let found = unclaimed_rooms(earlier, targets);
        if targets.contains(Some(room)) || earlier.contains(room) {
            found
        } else {
            found.push(room)
        }
    }
}

/// A room is offered for reservation exactly when it is among the reserved
/// rooms and no creep has it as its target; no room is offered twice.
pub proof fn lemma_unclaimed_rooms_exact(rooms: Seq<Seq<char>>, targets: Seq<Option<Seq<char>>>)
    ensures
        forall|room: Seq<char>|
            #[trigger] unclaimed_rooms(rooms, targets).contains(room) <==> (rooms.contains(room)
                && !targets.contains(Some(room))),
        unclaimed_rooms(rooms, targets).no_duplicates(),
    decreases rooms.len(),
{
    if rooms.len() > 0 {
        let earlier = rooms.drop_last();
        let last = rooms.last();
        lemma_unclaimed_rooms_exact(earlier, targets);
        let found = unclaimed_rooms(earlier, targets);
        assert(rooms =~= earlier.push(last));
        lemma_push_contains(earlier, last);
        lemma_push_contains(found, last);
    }
}

impl AvailableJobs {
    /// An empty job board.
    pub fn new() -> (jobs: AvailableJobs)
        ensures
            jobs@.reserve == Seq::<String>::empty(),
            jobs@.rooms == Map::<u32, RoomJobsView>::empty(),
    {
        let jobs = AvailableJobs { reserve_jobs: Vec::new(), jobs_by_room: HashMap::new() };
        assert(jobs@.rooms =~= Map::<u32, RoomJobsView>::empty());
        jobs
    }

    /// Takes the last room that wants a reserver, if any.
    pub fn pop_reserve_job(&mut self) -> (job: Option<String>)
        ensures
            old(self)@.reserve.len() == 0 ==> job is None && final(self)@ == old(self)@,
            old(self)@.reserve.len() > 0 ==> {
                &&& job == Some(old(self)@.reserve.last())
                &&& final(self)@ == (JobsView { reserve: old(self)@.reserve.drop_last(), ..old(self)@ })
            },
    {
        self.reserve_jobs.pop()
    }

    /// Takes the last harvest job of a room, if the room has one.
    pub fn pop_harvest_job_for_room(&mut self, room_name: u32) -> (job: Option<String>)
        ensures
            old(self)@.harvest_queue(room_name).len() == 0 ==> job is None && final(self)@ == old(self)@,
            old(self)@.harvest_queue(room_name).len() > 0 ==> {
                &&& job == Some(old(self)@.harvest_queue(room_name).last())
                &&& final(self)@ == old(self)@.without_last_harvest_job(room_name)
            },
    {
        let ghost before = self@;
        match self.jobs_by_room.remove(&room_name) {
            Some(mut room_jobs) => {
                let job = room_jobs.harvest_jobs.pop();
                self.jobs_by_room.insert(room_name, room_jobs);
                proof {
                    if before.harvest_queue(room_name).len() == 0 {
                        assert(self@.rooms =~= before.rooms);
                    } else {
                        assert(self@.rooms =~= before.without_last_harvest_job(room_name).rooms);
                    }
                }
                job
            },
            None => {
                assert(self@.rooms =~= before.rooms);
                None
            },
        }
    }

    /// Takes the last harvest job of some room that has one; which room is
    /// left to the order in which the board's map walks its rooms.
    pub fn pop_harvest_job_any(&mut self) -> (job: Option<String>)
        ensures
            job is None <==> (forall|room: u32| old(self)@.harvest_queue(room).len() == 0),
            job is None ==> final(self)@ == old(self)@,
            job matches Some(j) ==> exists|room: u32| {
                &&& old(self)@.harvest_queue(room).len() > 0
                &&& j == old(self)@.harvest_queue(room).last()
                &&& final(self)@ == old(self)@.without_last_harvest_job(room)
            },
    {
        let ghost before = self@;
        let mut room_names: Vec<u32> = Vec::new();
        for rn in it: self.jobs_by_room.keys()
            invariant
                room_names@ == it.seq().take(it.index()).unref(),
                it.seq() == self.jobs_by_room.keys().remaining(),
        {
            room_names.push(*rn);
        }
        proof {
            let keys = self.jobs_by_room.keys().remaining();
            assert(keys.take(keys.len() as int) =~= keys);
            assert(room_names@ == keys.unref());
        }
        let mut i: usize = 0;
        while i < room_names.len()
            invariant
                i <= room_names.len(),
                self@ == before,
                old(self)@ == before,
                room_names@.to_set() == self.jobs_by_room@.dom(),
                forall|j: int| 0 <= j < i ==> before.harvest_queue(#[trigger] room_names@[j]).len() == 0,
            decreases room_names.len() - i,
        {
            let room_name = room_names[i];
            if self.has_harvest_job_in(room_name) {
                let job = self.pop_harvest_job_for_room(room_name);
                proof {
                    assert(before.harvest_queue(room_name).len() > 0);
                    assert(job == Some(before.harvest_queue(room_name).last()));
                    assert(self@ == before.without_last_harvest_job(room_name));
                }
                return job;
            }
            i += 1;
        }
        proof {
            assert forall|room: u32| before.harvest_queue(room).len() == 0 by {
                if before.rooms.contains_key(room) {
                    assert(room_names@.to_set().contains(room));
                    let j = room_names@.index_of(room);
                    assert(room_names@[j] == room);
                }
            }
        }
        None
    }

    /// Whether a room has a harvest job.
    pub fn has_harvest_job_in(&self, room_name: u32) -> (found: bool)
        ensures
            found == (self@.harvest_queue(room_name).len() > 0),
    {
        match self.jobs_by_room.get(&room_name) {
            Some(room_jobs) => room_jobs.harvest_jobs.len() > 0,
            None => false,
        }
    }

    /// Adds a reservation job for each reserved room that no creep has as
    /// its reservation target (each such room once).
    pub fn find_reserve_jobs(&mut self, reserved_rooms: &Vec<String>, creep_targets: &Vec<Option<String>>)
        ensures
            texts_view(final(self)@.reserve) == texts_view(old(self)@.reserve) + unclaimed_rooms(
                texts_view(reserved_rooms@),
                optional_texts_view(creep_targets@),
            ),
            final(self)@.rooms == old(self)@.rooms,
    {
        let ghost start = texts_view(self.reserve_jobs@);
        let ghost rooms = texts_view(reserved_rooms@);
        let ghost targets = optional_texts_view(creep_targets@);
        let mut i: usize = 0;
        while i < reserved_rooms.len()
            invariant
                i <= reserved_rooms.len(),
                rooms == texts_view(reserved_rooms@),
                targets == optional_texts_view(creep_targets@),
                texts_view(self.reserve_jobs@) == start + unclaimed_rooms(rooms.take(i as int), targets),
                self@.rooms == old(self)@.rooms,
                start == texts_view(old(self)@.reserve),
            decreases reserved_rooms.len() - i,
        {
            let room = &reserved_rooms[i];
            let claimed = present_among(creep_targets, room);
            let seen = text_among(reserved_rooms, i, room);
            proof {
                assert(rooms.take(i + 1).drop_last() =~= rooms.take(i as int));
                assert(rooms.take(i + 1).last() == room@);
            }
            if !claimed && !seen {
                let ghost before = self.reserve_jobs@;
                self.reserve_jobs.push(room.clone());
                assert(texts_view(self.reserve_jobs@) =~= texts_view(before).push(room@));
            }
            i += 1;
        }
        assert(rooms.take(reserved_rooms.len() as int) =~= rooms);
    }

    /// The first construction job of a room, if it has one.
    pub fn first_construction_job(&self, room_name: u32) -> (job: Option<String>)
        ensures
            self@.construction_queue(room_name).len() == 0 ==> job is None,
            self@.construction_queue(room_name).len() > 0 ==> job == Some(self@.construction_queue(room_name)[0]),
    {
        match self.jobs_by_room.get(&room_name) {
            Some(room_jobs) => {
                if room_jobs.construction_jobs.len() > 0 {
                    Some(room_jobs.construction_jobs[0].clone())
                } else {
                    None
                }
            },
            None => None,
        }
    }

    /// Adds a harvest job for each site, in order.
    pub fn add_harvest_jobs(&mut self, sites: &Vec<HarvestSite>)
        ensures
            final(self)@ == old(self)@.with_harvest_jobs(sites@),
    {
        let mut i: usize = 0;
        while i < sites.len()
            invariant
                i <= sites.len(),
                self@ == old(self)@.with_harvest_jobs(sites@.take(i as int)),
            decreases sites.len() - i,
        {
            assert(sites@.take(i + 1).drop_last() =~= sites@.take(i as int));
            self.add_harvest_job(sites[i].room, sites[i].source.clone());
            i += 1;
        }
        assert(sites@.take(sites.len() as int) =~= sites@);
    }

    /// Adds a harvest job to the end of a room's list, making the room known
    /// to the board if it was not.
    pub fn add_harvest_job(&mut self, room_name: u32, job: String)
        ensures
            final(self)@ == old(self)@.with_harvest_job(room_name, job),
    {
        let ghost before = self@;
        match self.jobs_by_room.remove(&room_name) {
            Some(mut room_jobs) => {
                room_jobs.harvest_jobs.push(job);
                self.jobs_by_room.insert(room_name, room_jobs);
            },
            None => {
                let mut harvest_jobs = Vec::new();
                harvest_jobs.push(job);
                self.jobs_by_room.insert(
                    room_name,
                    RoomJobs { harvest_jobs, construction_jobs: Vec::new() },
                );
            },
        }
        assert(self@.rooms =~= before.with_harvest_job(room_name, job).rooms);
    }
}

/// Taking a room's last harvest job right after adding one gives back the
/// job just added and leaves every room's harvest and construction jobs,
/// and the reservation jobs, as they were before the addition.
pub proof fn lemma_pop_undoes_add(v: JobsView, room: u32, job: String)
    ensures
        v.with_harvest_job(room, job).harvest_queue(room).len() > 0,
        v.with_harvest_job(room, job).harvest_queue(room).last() == job,
        v.with_harvest_job(room, job).without_last_harvest_job(room).reserve == v.reserve,
        forall|r: u32| #[trigger] v.with_harvest_job(room, job).without_last_harvest_job(room).harvest_queue(r) == v.harvest_queue(r),
        forall|r: u32| #[trigger] v.with_harvest_job(room, job).without_last_harvest_job(room).construction_queue(r) == v.construction_queue(r),
{
    let w = v.with_harvest_job(room, job).without_last_harvest_job(room);
    assert(v.harvest_queue(room).push(job).drop_last() =~= v.harvest_queue(room));
    assert forall|r: u32| #[trigger] w.harvest_queue(r) == v.harvest_queue(r) by {
        if r == room {
            assert(w.harvest_queue(r) =~= v.harvest_queue(room));
        }
    }
}

/// Taking a harvest job from one room leaves every other room's jobs alone.
pub proof fn lemma_pop_keeps_other_rooms(v: JobsView, room: u32, other: u32)
    requires
        v.rooms.contains_key(room),
        other != room,
    ensures
        v.without_last_harvest_job(room).harvest_queue(other) == v.harvest_queue(other),
        v.without_last_harvest_job(room).construction_queue(other) == v.construction_queue(other),
        v.without_last_harvest_job(room).harvest_queue(room) == v.harvest_queue(room).drop_last(),
{
}

/// Whether a job lies on the board, among some room's harvest jobs.
pub open spec fn on_board(v: JobsView, job: String) -> bool {
    exists|room: u32, i: int| 0 <= i < v.harvest_queue(room).len() && #[trigger] v.harvest_queue(room)[i] == job
}

/// Whether no harvest job occurs twice on the board.
pub open spec fn jobs_distinct(v: JobsView) -> bool {
    forall|r1: u32, i1: int, r2: u32, i2: int|
        0 <= i1 < v.harvest_queue(r1).len() && 0 <= i2 < v.harvest_queue(r2).len() && (r1 != r2 || i1 != i2)
            ==> #[trigger] v.harvest_queue(r1)[i1] != #[trigger] v.harvest_queue(r2)[i2]
}

/// On a board where no job occurs twice, a job once taken is gone: it lies
/// nowhere on the board afterwards, which again holds no job twice. So
/// creeps that take jobs from one board one after another never take the
/// same job.
pub proof fn lemma_taken_job_leaves_board(v: JobsView, room: u32)
    requires
        jobs_distinct(v),
        v.harvest_queue(room).len() > 0,
    ensures
        !on_board(v.without_last_harvest_job(room), v.harvest_queue(room).last()),
        jobs_distinct(v.without_last_harvest_job(room)),
{
    let w = v.without_last_harvest_job(room);
    let n = v.harvest_queue(room).len() - 1;
    assert forall|r: u32, i: int| 0 <= i < w.harvest_queue(r).len() implies {
        &&& i < v.harvest_queue(r).len()
        &&& #[trigger] w.harvest_queue(r)[i] == v.harvest_queue(r)[i]
        &&& !(r == room && i == n)
    } by {
        if r == room {
            assert(w.harvest_queue(r) == v.harvest_queue(room).drop_last());
        } else {
            assert(w.harvest_queue(r) == v.harvest_queue(r));
        }
    }
    let job = v.harvest_queue(room).last();
    assert(job == v.harvest_queue(room)[n]);
    if on_board(w, job) {
        let (r, i) = choose|r: u32, i: int| 0 <= i < w.harvest_queue(r).len() && #[trigger] w.harvest_queue(r)[i] == job;
        assert(w.harvest_queue(r)[i] == v.harvest_queue(r)[i]);
        assert(v.harvest_queue(r)[i] != v.harvest_queue(room)[n]);
    }
    assert forall|r1: u32, i1: int, r2: u32, i2: int|
        0 <= i1 < w.harvest_queue(r1).len() && 0 <= i2 < w.harvest_queue(r2).len() && (r1 != r2 || i1 != i2)
        implies #[trigger] w.harvest_queue(r1)[i1] != #[trigger] w.harvest_queue(r2)[i2] by {
        assert(w.harvest_queue(r1)[i1] == v.harvest_queue(r1)[i1]);
        assert(w.harvest_queue(r2)[i2] == v.harvest_queue(r2)[i2]);
        assert(v.harvest_queue(r1)[i1] != v.harvest_queue(r2)[i2]);
    }
}

/// Adding a job that is not yet on a board where no job occurs twice keeps
/// every job once; the board then holds the jobs it held and the new one,
/// each in the room it was filed under.
pub proof fn lemma_add_keeps_jobs_distinct(v: JobsView, room: u32, job: String)
    requires
        jobs_distinct(v),
        !on_board(v, job),
    ensures
        jobs_distinct(v.with_harvest_job(room, job)),
        forall|r: u32, i: int| 0 <= i < v.with_harvest_job(room, job).harvest_queue(r).len() ==> {
            ||| (r == room && #[trigger] v.with_harvest_job(room, job).harvest_queue(r)[i] == job)
            ||| (i < v.harvest_queue(r).len() && v.with_harvest_job(room, job).harvest_queue(r)[i] == v.harvest_queue(r)[i])
        },
{
    let w = v.with_harvest_job(room, job);
    let n = v.harvest_queue(room).len() as int;
    assert forall|r: u32, i: int| 0 <= i < w.harvest_queue(r).len() implies {
        ||| (r == room && i == n && #[trigger] w.harvest_queue(r)[i] == job)
        ||| (i < v.harvest_queue(r).len() && w.harvest_queue(r)[i] == v.harvest_queue(r)[i])
    } by {
        if r == room {
            assert(w.harvest_queue(r) == v.harvest_queue(room).push(job));
        } else {
            assert(w.harvest_queue(r) == v.harvest_queue(r));
        }
    }
    assert forall|r1: u32, i1: int, r2: u32, i2: int|
        0 <= i1 < w.harvest_queue(r1).len() && 0 <= i2 < w.harvest_queue(r2).len() && (r1 != r2 || i1 != i2)
        implies #[trigger] w.harvest_queue(r1)[i1] != #[trigger] w.harvest_queue(r2)[i2] by {
        let a = w.harvest_queue(r1)[i1];
        let b = w.harvest_queue(r2)[i2];
        if r1 == room && i1 == n {
            if !(r2 == room && i2 == n) {
                assert(b == v.harvest_queue(r2)[i2]);
            }
        } else if r2 == room && i2 == n {
            assert(a == v.harvest_queue(r1)[i1]);
        } else {
            assert(a == v.harvest_queue(r1)[i1]);
            assert(b == v.harvest_queue(r2)[i2]);
        }
    }
}

/// Whether one of the sites has this source and this room.
pub open spec fn filed_under(sites: Seq<HarvestSite>, room: u32, job: String) -> bool {
    exists|k: int| #![trigger sites[k]] 0 <= k < sites.len() && sites[k].room == room && sites[k].source == job
}

/// A board built from sites whose sources all differ holds no job twice,
/// and every job on it is the source of a site, filed under that site's
/// room.
pub proof fn lemma_built_jobs_distinct(sites: Seq<HarvestSite>)
    requires
        forall|a: int, b: int| 0 <= a < b < sites.len() ==> #[trigger] sites[a].source != #[trigger] sites[b].source,
    ensures
        jobs_distinct(empty_board().with_harvest_jobs(sites)),
        forall|r: u32, i: int|
            #![trigger empty_board().with_harvest_jobs(sites).harvest_queue(r)[i]]
            0 <= i < empty_board().with_harvest_jobs(sites).harvest_queue(r).len() ==> filed_under(
                sites,
                r,
                empty_board().with_harvest_jobs(sites).harvest_queue(r)[i],
            ),
    decreases sites.len(),
{
    let v0 = empty_board();
    if sites.len() > 0 {
        let earlier = sites.drop_last();
        let last = sites.last();
        assert forall|a: int, b: int| 0 <= a < b < earlier.len() implies #[trigger] earlier[a].source != #[trigger] earlier[b].source by {
            assert(earlier[a] == sites[a] && earlier[b] == sites[b]);
        }
        lemma_built_jobs_distinct(earlier);
        let v = v0.with_harvest_jobs(earlier);
        if on_board(v, last.source) {
            let (r, i) = choose|r: u32, i: int| 0 <= i < v.harvest_queue(r).len() && #[trigger] v.harvest_queue(r)[i] == last.source;
            assert(filed_under(earlier, r, v.harvest_queue(r)[i]));
            let k = choose|k: int| #![trigger earlier[k]] 0 <= k < earlier.len() && earlier[k].room == r && earlier[k].source == v.harvest_queue(r)[i];
            assert(sites[k] == earlier[k]);
            assert(sites[k].source != sites[sites.len() - 1].source);
        }
        lemma_add_keeps_jobs_distinct(v, last.room, last.source);
        let w = v0.with_harvest_jobs(sites);
        assert forall|r: u32, i: int| 0 <= i < w.harvest_queue(r).len() implies filed_under(sites, r, #[trigger] w.harvest_queue(r)[i]) by {
            if r == last.room && w.harvest_queue(r)[i] == last.source {
                assert(sites[sites.len() - 1].room == r);
            } else {
                assert(i < v.harvest_queue(r).len() && w.harvest_queue(r)[i] == v.harvest_queue(r)[i]);
                assert(filed_under(earlier, r, v.harvest_queue(r)[i]));
                let k = choose|k: int| #![trigger earlier[k]] 0 <= k < earlier.len() && earlier[k].room == r && earlier[k].source == v.harvest_queue(r)[i];
                assert(sites[k] == earlier[k]);
            }
        }
    }
}

/// Every room of a board built from sites has a harvest job.
pub proof fn lemma_built_rooms_have_jobs(sites: Seq<HarvestSite>)
    ensures
        forall|r: u32| #[trigger] empty_board().with_harvest_jobs(sites).rooms.contains_key(r)
            ==> empty_board().with_harvest_jobs(sites).harvest_queue(r).len() > 0,
    decreases sites.len(),
{
    if sites.len() > 0 {
        lemma_built_rooms_have_jobs(sites.drop_last());
        let v = empty_board().with_harvest_jobs(sites.drop_last());
        let w = empty_board().with_harvest_jobs(sites);
        assert forall|r: u32| #[trigger] w.rooms.contains_key(r) implies w.harvest_queue(r).len() > 0 by {
            if r != sites.last().room {
                assert(v.rooms.contains_key(r));
                assert(w.harvest_queue(r) == v.harvest_queue(r));
            }
        }
    }
}

/// The jobs that creeps take from a board one after another, each from the
/// room given for its turn; a turn whose room has no job takes nothing.
pub open spec fn taken_in_turn(v: JobsView, rooms: Seq<u32>) -> Seq<String>
    decreases rooms.len(),
{
    if rooms.len() == 0 {
        Seq::empty()
    } else if v.harvest_queue(rooms[0]).len() > 0 {
        seq![v.harvest_queue(rooms[0]).last()] + taken_in_turn(
            v.without_last_harvest_job(rooms[0]),
            rooms.drop_first(),
        )
    } else {
        taken_in_turn(v, rooms.drop_first())
    }
}

/// Taking a job leaves no job on the board that was not there before.
pub proof fn lemma_taking_adds_nothing(v: JobsView, room: u32, job: String)
    requires
        v.harvest_queue(room).len() > 0,
        on_board(v.without_last_harvest_job(room), job),
    ensures
        on_board(v, job),
{
    let w = v.without_last_harvest_job(room);
    let (r, i) = choose|r: u32, i: int| 0 <= i < w.harvest_queue(r).len() && #[trigger] w.harvest_queue(r)[i] == job;
    if r == room {
        assert(w.harvest_queue(r) == v.harvest_queue(room).drop_last());
        assert(v.harvest_queue(r)[i] == job);
    } else {
        assert(w.harvest_queue(r) == v.harvest_queue(r));
        assert(v.harvest_queue(r)[i] == job);
    }
}

/// Creeps that take jobs in turn from a board on which no job occurs twice
/// (harvesters and settlers sharing the board of one tick) never take the
/// same job twice, and only take jobs that were on the board.
pub proof fn lemma_jobs_taken_in_turn_differ(v: JobsView, rooms: Seq<u32>)
    requires
        jobs_distinct(v),
    ensures
        taken_in_turn(v, rooms).no_duplicates(),
        forall|j: int| 0 <= j < taken_in_turn(v, rooms).len() ==> on_board(v, #[trigger] taken_in_turn(v, rooms)[j]),
    decreases rooms.len(),
{
    if rooms.len() > 0 {
        let room = rooms[0];
        if v.harvest_queue(room).len() > 0 {
            let w = v.without_last_harvest_job(room);
            let job = v.harvest_queue(room).last();
            lemma_taken_job_leaves_board(v, room);
            lemma_jobs_taken_in_turn_differ(w, rooms.drop_first());
            let rest = taken_in_turn(w, rooms.drop_first());
            let all = taken_in_turn(v, rooms);
            assert(all == seq![job] + rest);
            assert forall|j: int| 0 <= j < all.len() implies on_board(v, #[trigger] all[j]) by {
                if j == 0 {
                    let n = v.harvest_queue(room).len() - 1;
                    assert(v.harvest_queue(room)[n] == job);
                } else {
                    assert(all[j] == rest[j - 1]);
                    lemma_taking_adds_nothing(v, room, rest[j - 1]);
                }
            }
            assert forall|a: int, b: int| 0 <= a < all.len() && 0 <= b < all.len() && a != b implies all[a] != all[b] by {
                if a == 0 {
                    assert(all[b] == rest[b - 1]);
                    assert(on_board(w, rest[b - 1]));
                } else if b == 0 {
                    assert(all[a] == rest[a - 1]);
                    assert(on_board(w, rest[a - 1]));
                } else {
                    assert(all[a] == rest[a - 1] && all[b] == rest[b - 1]);
                }
            }
        } else {
            lemma_jobs_taken_in_turn_differ(v, rooms.drop_first());
        }
    }
}

/// The sites of planned sources: each source's id text, filed under the
/// room given for it. Different ids give different texts.
pub fn harvest_sites(plan: &Vec<u128>, rooms: &Vec<u32>) -> (sites: Vec<HarvestSite>)
    requires
        plan.len() == rooms.len(),
        forall|i: int| 0 <= i < plan.len() ==> #[trigger] plan@[i] <= max_object_id(),
    ensures
        sites.len() == plan.len(),
        forall|i: int| 0 <= i < sites.len() ==> (#[trigger] sites@[i]).room == rooms@[i] && sites@[i].source@ == lower_hex(
            plan@[i] as nat,
        ),
        plan@.no_duplicates() ==> forall|a: int, b: int| 0 <= a < b < sites.len() ==> #[trigger] sites@[a].source
            != #[trigger] sites@[b].source,
{
    let mut sites: Vec<HarvestSite> = Vec::new();
    let mut i: usize = 0;
    while i < plan.len()
        invariant
            i <= plan.len(),
            plan.len() == rooms.len(),
            forall|k: int| 0 <= k < plan.len() ==> #[trigger] plan@[k] <= max_object_id(),
            sites.len() == i,
            forall|k: int| 0 <= k < i ==> (#[trigger] sites@[k]).room == rooms@[k] && parsed_object_id(sites@[k].source@)
                == Some(plan@[k]) && sites@[k].source@ == lower_hex(plan@[k] as nat),
        decreases plan.len() - i,
    {
        let source = source_text(plan[i]);
        sites.push(HarvestSite { room: rooms[i], source });
        i += 1;
    }
    assert forall|a: int, b: int| plan@.no_duplicates() && 0 <= a < b < sites.len() implies #[trigger] sites@[a].source
        != #[trigger] sites@[b].source by {
        if sites@[a].source == sites@[b].source {
            assert(parsed_object_id(sites@[a].source@) == Some(plan@[a]));
            assert(parsed_object_id(sites@[b].source@) == Some(plan@[b]));
        }
    }
    sites
}

/// A board built from the sites of a plan in which no source occurs twice,
/// each source written as its id text, holds no harvest job twice.
pub proof fn lemma_planned_board_has_no_repeated_job(plan: Seq<u128>, sites: Seq<HarvestSite>)
    requires
        plan.no_duplicates(),
        sites.len() == plan.len(),
        forall|i: int| 0 <= i < plan.len() ==> #[trigger] plan[i] <= max_object_id(),
        forall|i: int| 0 <= i < sites.len() ==> (#[trigger] sites[i]).source@ == lower_hex(plan[i] as nat),
    ensures
        jobs_distinct(empty_board().with_harvest_jobs(sites)),
{
    assert forall|a: int, b: int| 0 <= a < b < sites.len() implies #[trigger] sites[a].source != #[trigger] sites[b].source by {
        lemma_object_id_text_round_trip(plan[a]);
        lemma_object_id_text_round_trip(plan[b]);
        assert(sites[a].source@ == lower_hex(plan[a] as nat));
        assert(sites[b].source@ == lower_hex(plan[b] as nat));
    }
    lemma_built_jobs_distinct(sites);
}

/// A board with no jobs and no rooms.
pub open spec fn empty_board() -> JobsView {
    JobsView { reserve: Seq::empty(), rooms: Map::empty() }
}

/// The job board of a tick: a reservation job for each reserved room that
/// no creep targets, and a harvest job for each site that needs a harvester.
pub fn build_job_set(reserved_rooms: &Vec<String>, creep_targets: &Vec<Option<String>>, sites: &Vec<HarvestSite>) -> (jobs: AvailableJobs)
    ensures
        texts_view(jobs@.reserve) == unclaimed_rooms(texts_view(reserved_rooms@), optional_texts_view(creep_targets@)),
        jobs@.rooms == empty_board().with_harvest_jobs(sites@).rooms,
        forall|r: u32| #[trigger] jobs@.rooms.contains_key(r) ==> jobs@.harvest_queue(r).len() > 0,
        (forall|a: int, b: int| 0 <= a < b < sites.len() ==> #[trigger] sites@[a].source != #[trigger] sites@[b].source)
            ==> jobs_distinct(jobs@),
{
    proof {
        lemma_built_rooms_have_jobs(sites@);
        if forall|a: int, b: int| 0 <= a < b < sites.len() ==> #[trigger] sites@[a].source != #[trigger] sites@[b].source {
            lemma_built_jobs_distinct(sites@);
        }
    }
    let mut jobs = AvailableJobs::new();
    jobs.find_reserve_jobs(reserved_rooms, creep_targets);
    assert(texts_view(Seq::<String>::empty()) =~= Seq::<Seq<char>>::empty());
    proof {
        lemma_harvest_jobs_keep_reserve(jobs@, sites@);
        lemma_harvest_jobs_ignore_reserve(jobs@, empty_board(), sites@);
    }
    jobs.add_harvest_jobs(sites);
    jobs
}

/// Adding harvest jobs leaves the reservation jobs alone.
pub proof fn lemma_harvest_jobs_keep_reserve(v: JobsView, sites: Seq<HarvestSite>)
    ensures
        v.with_harvest_jobs(sites).reserve == v.reserve,
    decreases sites.len(),
{
    if sites.len() > 0 {
        lemma_harvest_jobs_keep_reserve(v, sites.drop_last());
    }
}

/// What adding harvest jobs does to the rooms does not depend on the
/// reservation jobs.
pub proof fn lemma_harvest_jobs_ignore_reserve(v: JobsView, w: JobsView, sites: Seq<HarvestSite>)
    requires
        v.rooms == w.rooms,
    ensures
        v.with_harvest_jobs(sites).rooms == w.with_harvest_jobs(sites).rooms,
    decreases sites.len(),
{
    if sites.len() > 0 {
        lemma_harvest_jobs_ignore_reserve(v, w, sites.drop_last());
    }
}

} // verus!

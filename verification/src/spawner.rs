//! What a spawn builds: the first role, in a fixed order of priority, that
//! has fewer creeps than its goal, with the largest body the spawn can
//! afford, under a name made of the game time and a counter.
use vstd::prelude::*;
use crate::actions::ReturnCode;
use crate::roles::{Role, role_name, role_from_name, lemma_role_names_distinct};
use crate::text::texts_view;

verus! {

/// How many creeps of each role there are.
#[derive(Clone, Copy, Debug, PartialEq, Eq, Structural)]
pub struct RoleCounts {
    pub harvesters: usize,
    pub fillers: usize,
    pub reservers: usize,
    pub upgraders: usize,
    pub settlers: usize,
}

/// How many creeps of each role a room's spawn should keep alive.
#[derive(Clone, Copy, Debug, PartialEq, Eq, Structural)]
pub struct RoleGoals {
    pub harvesters: i32,
    pub fillers: i32,
    pub reservers: i32,
    pub upgraders: i32,
    pub settlers: i32,
}

impl RoleCounts {
    /// The count of one role.
    pub open spec fn of(self, role: Role) -> nat {
        match role {
            Role::Harvester => self.harvesters as nat,
            Role::Filler => self.fillers as nat,
            Role::Reserver => self.reservers as nat,
            Role::Upgrader => self.upgraders as nat,
            Role::Settler => self.settlers as nat,
        }
    }
}

impl RoleGoals {
    /// The goal of one role.
    pub open spec fn of(self, role: Role) -> int {
        match role {
            Role::Harvester => self.harvesters as int,
            Role::Filler => self.fillers as int,
            Role::Reserver => self.reservers as int,
            Role::Upgrader => self.upgraders as int,
            Role::Settler => self.settlers as int,
        }
    }
}

/// How many of the names read `name`.
pub open spec fn named(names: Seq<Seq<char>>, name: Seq<char>) -> nat
    decreases names.len(),
{
    if names.len() == 0 {
        0
    } else {
        named(names.drop_last(), name) + if names.last() == name { 1nat } else { 0nat }
    }
}

/// Counts the creeps of each role from the `type` each creep's memory
/// records; types that name no role are not counted.
pub fn count_roles(types: &Vec<String>) -> (counts: RoleCounts)
    ensures
        forall|r: Role| #[trigger] counts.of(r) == named(texts_view(types@), role_name(r)),
{
    let ghost names = texts_view(types@);
    let mut counts = RoleCounts { harvesters: 0, fillers: 0, reservers: 0, upgraders: 0, settlers: 0 };
    let mut i: usize = 0;
    while i < types.len()
        invariant
            i <= types.len(),
            names == texts_view(types@),
            forall|r: Role| #[trigger] counts.of(r) == named(names.take(i as int), role_name(r)),
            forall|r: Role| #[trigger] counts.of(r) <= i,
        decreases types.len() - i,
    {
        let role = role_from_name(&types[i]);
        proof {
            assert(names.take(i + 1).drop_last() =~= names.take(i as int));
            assert(names.take(i + 1).last() == types@[i as int]@);
            if let Some(found) = role {
                assert forall|r: Role| r != found implies types@[i as int]@ != role_name(r) by {
                    lemma_role_names_distinct(r, found);
                }
            }
        }
        let ghost before = counts;
        proof {
            assert(counts.of(Role::Harvester) <= i);
            assert(counts.of(Role::Filler) <= i);
            assert(counts.of(Role::Reserver) <= i);
            assert(counts.of(Role::Upgrader) <= i);
            assert(counts.of(Role::Settler) <= i);
        }
        match role {
            Some(Role::Harvester) => counts.harvesters = counts.harvesters + 1,
            Some(Role::Filler) => counts.fillers = counts.fillers + 1,
            Some(Role::Reserver) => counts.reservers = counts.reservers + 1,
            Some(Role::Upgrader) => counts.upgraders = counts.upgraders + 1,
            Some(Role::Settler) => counts.settlers = counts.settlers + 1,
            None => {},
        }
        proof {
            assert forall|r: Role| #[trigger] counts.of(r) == before.of(r) + if types@[i as int]@ == role_name(r) { 1nat } else { 0nat } by {
                if let Some(found) = role {
                    if r == found {
                        assert(types@[i as int]@ == role_name(r));
                    }
                }
            }
            assert forall|r: Role| #[trigger] counts.of(r) == named(names.take(i + 1), role_name(r)) by {
                assert(counts.of(r) == before.of(r) + if types@[i as int]@ == role_name(r) { 1nat } else { 0nat });
            }
        }
        i += 1;
    }
    assert(names.take(types.len() as int) =~= names);
    counts
}

/// Whether a role has fewer creeps than its goal.
pub open spec fn short_of(counts: RoleCounts, goals: RoleGoals, role: Role) -> bool {
    (counts.of(role) as int) < goals.of(role)
}

/// The role a spawn builds: fillers, then settlers, harvesters, reservers
/// and upgraders, the first that is short of its goal.
pub open spec fn spawn_choice(counts: RoleCounts, goals: RoleGoals) -> Option<Role> {
    if short_of(counts, goals, Role::Filler) {
        Some(Role::Filler)
    } else if short_of(counts, goals, Role::Settler) {
        Some(Role::Settler)
    } else if short_of(counts, goals, Role::Harvester) {
        Some(Role::Harvester)
    } else if short_of(counts, goals, Role::Reserver) {
        Some(Role::Reserver)
    } else if short_of(counts, goals, Role::Upgrader) {
        Some(Role::Upgrader)
    } else {
        None
    }
}

/// Whether every goal that the choice consults is a count: a goal is
/// consulted until a role short of its goal is found, and a negative one
/// cannot be compared with a count.
pub open spec fn goals_readable(counts: RoleCounts, goals: RoleGoals) -> bool {
    &&& goals.fillers >= 0
    &&& !short_of(counts, goals, Role::Filler) ==> {
        &&& goals.settlers >= 0
        &&& !short_of(counts, goals, Role::Settler) ==> {
            &&& goals.harvesters >= 0
            &&& !short_of(counts, goals, Role::Harvester) ==> {
                &&& goals.reservers >= 0
                &&& !short_of(counts, goals, Role::Reserver) ==> goals.upgraders >= 0
            }
        }
    }
}

/// The spawn builds a role only when it is short of its goal and every role
/// before it in priority (fillers, settlers, harvesters, reservers,
/// upgraders) has reached its goal; it builds nothing only when every role
/// has reached its goal.
pub proof fn lemma_spawn_priority(counts: RoleCounts, goals: RoleGoals)
    ensures
        spawn_choice(counts, goals) matches Some(r) ==> {
            &&& short_of(counts, goals, r)
            &&& forall|earlier: Role| #[trigger] priority(earlier) < priority(r) ==> !short_of(counts, goals, earlier)
        },
        spawn_choice(counts, goals) is None ==> forall|r: Role| !#[trigger] short_of(counts, goals, r),
{
    assert forall|r: Role| spawn_choice(counts, goals) is None implies !#[trigger] short_of(counts, goals, r) by {
        match r {
            Role::Harvester => {},
            Role::Filler => {},
            Role::Reserver => {},
            Role::Upgrader => {},
            Role::Settler => {},
        }
    }
}

/// The place of a role in the spawn's order of priority.
pub open spec fn priority(role: Role) -> int {
    match role {
        Role::Filler => 0,
        Role::Settler => 1,
        Role::Harvester => 2,
        Role::Reserver => 3,
        Role::Upgrader => 4,
    }
}

/// Whether every goal the spawn's choice consults is a count (see
/// `goals_readable`).
pub fn goals_usable(counts: RoleCounts, goals: RoleGoals) -> (usable: bool)
    ensures
        usable == goals_readable(counts, goals),
{
    if goals.fillers < 0 {
        return false;
    }
    if (counts.fillers as u64) < goals.fillers as u64 {
        return true;
    }
    if goals.settlers < 0 {
        return false;
    }
    if (counts.settlers as u64) < goals.settlers as u64 {
        return true;
    }
    if goals.harvesters < 0 {
        return false;
    }
    if (counts.harvesters as u64) < goals.harvesters as u64 {
        return true;
    }
    if goals.reservers < 0 {
        return false;
    }
    if (counts.reservers as u64) < goals.reservers as u64 {
        return true;
    }
    goals.upgraders >= 0
}

/// The role a spawn builds this tick (see `spawn_choice`), or `None` when
/// every role has reached its goal.
pub fn run_spawn(counts: RoleCounts, goals: RoleGoals) -> (role: Option<Role>)
    requires
        goals_readable(counts, goals),
    ensures
        role == spawn_choice(counts, goals),
{
    if (counts.fillers as u64) < goals.fillers as u64 {
        Some(Role::Filler)
    } else if (counts.settlers as u64) < goals.settlers as u64 {
        Some(Role::Settler)
    } else if (counts.harvesters as u64) < goals.harvesters as u64 {
        Some(Role::Harvester)
    } else if (counts.reservers as u64) < goals.reservers as u64 {
        Some(Role::Reserver)
    } else if (counts.upgraders as u64) < goals.upgraders as u64 {
        Some(Role::Upgrader)
    } else {
        None
    }
}

/// A body part.
#[derive(Clone, Copy, Debug, PartialEq, Eq, Structural)]
pub enum Part {
    Move,
    Work,
    Carry,
    Attack,
    RangedAttack,
    Tough,
    Heal,
    Claim,
}

/// A body of `moves` move parts, then `carries` carry parts, then `works`
/// work parts, then `claims` claim parts.
pub open spec fn body_of(moves: nat, carries: nat, works: nat, claims: nat) -> Seq<Part> {
    Seq::new(moves, |i: int| Part::Move) + Seq::new(carries, |i: int| Part::Carry) + Seq::new(
        works,
        |i: int| Part::Work,
    ) + Seq::new(claims, |i: int| Part::Claim)
}

/// The make-up of the bodies a spawn tries for a role, largest first:
/// counts of move, carry, work and claim parts.
pub open spec fn body_plan(role: Role) -> Seq<(nat, nat, nat, nat)> {
    match role {
        Role::Settler => seq![(2nat, 1nat, 1nat, 0nat)],
        Role::Harvester => seq![(5nat, 6nat, 4nat, 0nat), (3nat, 2nat, 3nat, 0nat), (2nat, 1nat, 1nat, 0nat)],
        Role::Filler => seq![(3nat, 6nat, 0nat, 0nat), (2nat, 4nat, 0nat, 0nat), (1nat, 2nat, 0nat, 0nat)],
        Role::Reserver => seq![(2nat, 0nat, 0nat, 2nat)],
        Role::Upgrader => seq![(6nat, 6nat, 6nat, 0nat), (2nat, 2nat, 2nat, 0nat), (1nat, 1nat, 1nat, 0nat)],
    }
}

/// A body of the given numbers of parts, in the order of `body_of`.
pub fn body(moves: usize, carries: usize, works: usize, claims: usize) -> (parts: Vec<Part>)
    requires
        moves + carries + works + claims <= usize::MAX,
    ensures
        parts@ == body_of(moves as nat, carries as nat, works as nat, claims as nat),
{
    let mut parts: Vec<Part> = Vec::new();
    let mut i: usize = 0;
    while i < moves
        invariant
            i <= moves,
            parts@ == Seq::new(i as nat, |k: int| Part::Move),
        decreases moves - i,
    {
        parts.push(Part::Move);
        assert(parts@ =~= Seq::new((i + 1) as nat, |k: int| Part::Move));
        i += 1;
    }
    let ghost prefix = parts@;
    let mut i: usize = 0;
    while i < carries
        invariant
            i <= carries,
            parts@ == prefix + Seq::new(i as nat, |k: int| Part::Carry),
        decreases carries - i,
    {
        parts.push(Part::Carry);
        assert(parts@ =~= prefix + Seq::new((i + 1) as nat, |k: int| Part::Carry));
        i += 1;
    }
    let ghost prefix = parts@;
    let mut i: usize = 0;
    while i < works
        invariant
            i <= works,
            parts@ == prefix + Seq::new(i as nat, |k: int| Part::Work),
        decreases works - i,
    {
        parts.push(Part::Work);
        assert(parts@ =~= prefix + Seq::new((i + 1) as nat, |k: int| Part::Work));
        i += 1;
    }
    let ghost prefix = parts@;
    let mut i: usize = 0;
    while i < claims
        invariant
            i <= claims,
            parts@ == prefix + Seq::new(i as nat, |k: int| Part::Claim),
        decreases claims - i,
    {
        parts.push(Part::Claim);
        assert(parts@ =~= prefix + Seq::new((i + 1) as nat, |k: int| Part::Claim));
        i += 1;
    }
    parts
}

/// The bodies a spawn tries for a role, largest first (see `body_plan`).
pub fn body_options(role: Role) -> (bodies: Vec<Vec<Part>>)
    ensures
        bodies.len() == body_plan(role).len(),
        forall|i: int| 0 <= i < bodies.len() ==> (#[trigger] bodies@[i])@ == body_of(
            body_plan(role)[i].0,
            body_plan(role)[i].1,
            body_plan(role)[i].2,
            body_plan(role)[i].3,
        ),
{
    let mut bodies: Vec<Vec<Part>> = Vec::new();
    match role {
        Role::Settler => {
            bodies.push(body(2, 1, 1, 0));
        },
        Role::Harvester => {
            bodies.push(body(5, 6, 4, 0));
            bodies.push(body(3, 2, 3, 0));
            bodies.push(body(2, 1, 1, 0));
        },
        Role::Filler => {
            bodies.push(body(3, 6, 0, 0));
            bodies.push(body(2, 4, 0, 0));
            bodies.push(body(1, 2, 0, 0));
        },
        Role::Reserver => {
            bodies.push(body(2, 0, 0, 2));
        },
        Role::Upgrader => {
            bodies.push(body(6, 6, 6, 0));
            bodies.push(body(2, 2, 2, 0));
            bodies.push(body(1, 1, 1, 0));
        },
    }
    bodies
}

/// Of the bodies tried in order, the first the spawn can afford (by the
/// answers to dry runs), or `None` when it can afford none.
pub fn choose_body(affordable: &Vec<bool>) -> (chosen: Option<usize>)
    ensures
        chosen matches Some(i) ==> i < affordable.len() && affordable@[i as int] && forall|j: int|
            0 <= j < i ==> !#[trigger] affordable@[j],
        chosen is None ==> forall|j: int| 0 <= j < affordable.len() ==> !#[trigger] affordable@[j],
{
    let mut i: usize = 0;
    while i < affordable.len()
        invariant
            i <= affordable.len(),
            forall|j: int| 0 <= j < i ==> !#[trigger] affordable@[j],
        decreases affordable.len() - i,
    {
        if affordable[i] {
            return Some(i);
        }
        i += 1;
    }
    None
}

/// Whether the spawn's final answer, the first one that is not about a
/// taken name, means the creep was (or, in a dry run, could be) spawned.
pub fn spawn_succeeded(code: ReturnCode) -> (spawned: bool)
    ensures
        spawned == (code == ReturnCode::Success),
{
    match code {
        ReturnCode::Success => true,
        _ => false,
    }
}

/// After a spawn refused or accepted a name: when the name was taken, try
/// the next counter; otherwise the answer stands.
pub fn next_name_suffix(code: ReturnCode, suffix: u32) -> (next: Option<u32>)
    requires
        code == ReturnCode::NameExists ==> suffix < i32::MAX,
    ensures
        code == ReturnCode::NameExists ==> next == Some((suffix + 1) as u32),
        code != ReturnCode::NameExists ==> next is None,
{
    match code {
        ReturnCode::NameExists => Some(suffix + 1),
        _ => None,
    }
}

/// How many parts of a body are of kind `p`.
pub open spec fn part_count(parts: Seq<Part>, p: Part) -> nat
    decreases parts.len(),
{
    if parts.len() == 0 {
        0
    } else {
        part_count(parts.drop_last(), p) + if parts.last() == p { 1nat } else { 0nat }
    }
}

/// Counting parts adds up over the pieces of a body.
proof fn lemma_part_count_add(a: Seq<Part>, b: Seq<Part>, p: Part)
    ensures
        part_count(a + b, p) == part_count(a, p) + part_count(b, p),
    decreases b.len(),
{
    if b.len() == 0 {
        assert(a + b =~= a);
    } else {
        lemma_part_count_add(a, b.drop_last(), p);
        assert((a + b).drop_last() =~= a + b.drop_last());
        assert((a + b).last() == b.last());
    }
}

/// A run of `n` parts of kind `q` holds `n` parts of kind `q` and none of
/// any other kind.
proof fn lemma_part_count_run(n: nat, q: Part, p: Part)
    ensures
        part_count(Seq::new(n, |i: int| q), p) == if q == p { n } else { 0 },
    decreases n,
{
    if n > 0 {
        lemma_part_count_run((n - 1) as nat, q, p);
        assert(Seq::new(n, |i: int| q).drop_last() =~= Seq::new((n - 1) as nat, |i: int| q));
    }
}

/// A body made by `body_of` has as many parts as asked for in all.
proof fn lemma_body_of_len(moves: nat, carries: nat, works: nat, claims: nat)
    ensures
        body_of(moves, carries, works, claims).len() == moves + carries + works + claims,
{
}

/// The bodies a spawn offers for each role, largest first. Every body
/// moves. Harvesters, settlers and upgraders get work, carry and move parts,
/// fillers carry and move parts only, reservers claim and move parts only.
/// Each body after the first has no more parts of any kind than the one
/// before it and fewer parts in all. The bodies, as counts of move, carry,
/// work and claim parts: harvester (5, 6, 4, 0), (3, 2, 3, 0), (2, 1, 1, 0);
/// filler (3, 6, 0, 0), (2, 4, 0, 0), (1, 2, 0, 0); upgrader (6, 6, 6, 0),
/// (2, 2, 2, 0), (1, 1, 1, 0); settler (2, 1, 1, 0); reserver (2, 0, 0, 2).
pub proof fn lemma_offered_bodies(role: Role)
    ensures
        body_plan(role).len() > 0,
        forall|i: int|
            0 <= i < body_plan(role).len() ==> {
                let parts = #[trigger] body_of(body_plan(role)[i].0, body_plan(role)[i].1, body_plan(role)[i].2, body_plan(role)[i].3);
                &&& part_count(parts, Part::Move) > 0
                &&& (role == Role::Harvester || role == Role::Settler || role == Role::Upgrader) ==> part_count(parts, Part::Work) > 0
                    && part_count(parts, Part::Carry) > 0 && part_count(parts, Part::Claim) == 0
                &&& role == Role::Filler ==> part_count(parts, Part::Carry) > 0 && part_count(parts, Part::Work) == 0
                    && part_count(parts, Part::Claim) == 0
                &&& role == Role::Reserver ==> part_count(parts, Part::Claim) > 0 && part_count(parts, Part::Work) == 0
                    && part_count(parts, Part::Carry) == 0
                &&& parts.len() == part_count(parts, Part::Move) + part_count(parts, Part::Carry) + part_count(parts, Part::Work)
                    + part_count(parts, Part::Claim)
            },
        forall|i: int|
            0 < i < body_plan(role).len() ==> {
                let earlier = body_of(body_plan(role)[i - 1].0, body_plan(role)[i - 1].1, body_plan(role)[i - 1].2, body_plan(role)[i - 1].3);
                let later = #[trigger] body_of(body_plan(role)[i].0, body_plan(role)[i].1, body_plan(role)[i].2, body_plan(role)[i].3);
                &&& later.len() < earlier.len()
                &&& forall|p: Part| part_count(later, p) <= part_count(earlier, p)
            },
        forall|i: int|
            0 <= i < body_plan(role).len() ==> {
                let parts = #[trigger] body_of(body_plan(role)[i].0, body_plan(role)[i].1, body_plan(role)[i].2, body_plan(role)[i].3);
                let counts = (part_count(parts, Part::Move), part_count(parts, Part::Carry), part_count(parts, Part::Work), part_count(parts, Part::Claim));
                counts == match role {
                    Role::Harvester => seq![(5nat, 6nat, 4nat, 0nat), (3nat, 2nat, 3nat, 0nat), (2nat, 1nat, 1nat, 0nat)][i],
                    Role::Filler => seq![(3nat, 6nat, 0nat, 0nat), (2nat, 4nat, 0nat, 0nat), (1nat, 2nat, 0nat, 0nat)][i],
                    Role::Upgrader => seq![(6nat, 6nat, 6nat, 0nat), (2nat, 2nat, 2nat, 0nat), (1nat, 1nat, 1nat, 0nat)][i],
                    Role::Settler => seq![(2nat, 1nat, 1nat, 0nat)][i],
                    Role::Reserver => seq![(2nat, 0nat, 0nat, 2nat)][i],
                }
            },
        body_plan(role).len() == match role {
            Role::Harvester | Role::Filler | Role::Upgrader => 3nat,
            Role::Settler | Role::Reserver => 1nat,
        },
{
    let plan = body_plan(role);
    assert forall|i: int| 0 <= i < plan.len() implies (#[trigger] body_of(plan[i].0, plan[i].1, plan[i].2, plan[i].3)).len()
        == plan[i].0 + plan[i].1 + plan[i].2 + plan[i].3 by {
        lemma_body_of_len(plan[i].0, plan[i].1, plan[i].2, plan[i].3);
    }
    assert forall|i: int, p: Part| 0 <= i < plan.len() implies #[trigger] part_count(
        body_of(plan[i].0, plan[i].1, plan[i].2, plan[i].3),
        p,
    ) == (if p == Part::Move { plan[i].0 } else { 0 }) + (if p == Part::Carry { plan[i].1 } else { 0 }) + (if p
        == Part::Work { plan[i].2 } else { 0 }) + (if p == Part::Claim { plan[i].3 } else { 0 }) by {
        let b = plan[i];
        lemma_part_count_add(Seq::new(b.0, |k: int| Part::Move), Seq::new(b.1, |k: int| Part::Carry), p);
        lemma_part_count_add(
            Seq::new(b.0, |k: int| Part::Move) + Seq::new(b.1, |k: int| Part::Carry),
            Seq::new(b.2, |k: int| Part::Work),
            p,
        );
        lemma_part_count_add(
            Seq::new(b.0, |k: int| Part::Move) + Seq::new(b.1, |k: int| Part::Carry) + Seq::new(b.2, |k: int| Part::Work),
            Seq::new(b.3, |k: int| Part::Claim),
            p,
        );
        lemma_part_count_run(b.0, Part::Move, p);
        lemma_part_count_run(b.1, Part::Carry, p);
        lemma_part_count_run(b.2, Part::Work, p);
        lemma_part_count_run(b.3, Part::Claim, p);
    }
}

/// The role a spawn builds, for every count and goal: a filler while
/// fillers are fewer than their goal; else a settler while settlers are
/// short; else a harvester while harvesters are short; else a reserver
/// while reservers are short; else an upgrader while upgraders are short;
/// and nothing once every role has reached its goal.
pub proof fn lemma_spawn_order(counts: RoleCounts, goals: RoleGoals)
    ensures
        (counts.fillers as int) < goals.fillers ==> spawn_choice(counts, goals) == Some(Role::Filler),
        (counts.fillers as int) >= goals.fillers && (counts.settlers as int) < goals.settlers ==> spawn_choice(counts, goals)
            == Some(Role::Settler),
        (counts.fillers as int) >= goals.fillers && (counts.settlers as int) >= goals.settlers && (counts.harvesters as int)
            < goals.harvesters ==> spawn_choice(counts, goals) == Some(Role::Harvester),
        (counts.fillers as int) >= goals.fillers && (counts.settlers as int) >= goals.settlers && (counts.harvesters as int)
            >= goals.harvesters && (counts.reservers as int) < goals.reservers ==> spawn_choice(counts, goals) == Some(
            Role::Reserver,
        ),
        (counts.fillers as int) >= goals.fillers && (counts.settlers as int) >= goals.settlers && (counts.harvesters as int)
            >= goals.harvesters && (counts.reservers as int) >= goals.reservers && (counts.upgraders as int) < goals.upgraders
            ==> spawn_choice(counts, goals) == Some(Role::Upgrader),
        (counts.fillers as int) >= goals.fillers && (counts.settlers as int) >= goals.settlers && (counts.harvesters as int)
            >= goals.harvesters && (counts.reservers as int) >= goals.reservers && (counts.upgraders as int) >= goals.upgraders
            ==> spawn_choice(counts, goals) is None,
{
}

/// `named` counts exactly the entries equal to the name.
pub proof fn lemma_named_is_count(names: Seq<Seq<char>>, name: Seq<char>)
    ensures
        named(names, name) == names.filter(|x: Seq<char>| x == name).len(),
    decreases names.len(),
{
    reveal(Seq::filter);
    if names.len() > 0 {
        lemma_named_is_count(names.drop_last(), name);
    }
}

} // verus!

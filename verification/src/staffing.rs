//! Which sources need more harvesters: each known source gets an equal
//! share of the colony's harvester target, and a source with fewer creeps
//! assigned than its share is offered as a harvest job.
use vstd::prelude::*;
use crate::lists::lemma_push_contains;

verus! {

/// How many times `x` occurs in `s`.
pub open spec fn occurrences(s: Seq<u128>, x: u128) -> nat
    decreases s.len(),
{
    if s.len() == 0 {
        0
    } else {
        occurrences(s.drop_last(), x) + if s.last() == x { 1nat } else { 0nat }
    }
}

/// The distinct elements of `s`, in the order of their first occurrence.
pub open spec fn first_mentions(s: Seq<u128>) -> Seq<u128>
    decreases s.len(),
{
    if s.len() == 0 {
        Seq::empty()
    } else if s.drop_last().contains(s.last()) {
        first_mentions(s.drop_last())
    } else {
        first_mentions(s.drop_last()).push(s.last())
    }
}

/// Integer division that rounds toward zero, as Rust's `/` on integers does.
pub open spec fn truncated_quotient(a: int, b: int) -> int {
    if a >= 0 {
        a / b
    } else {
        -((-a) / b)
    }
}

/// The sources of `entries` that fewer than `quota` creeps are assigned to.
pub open spec fn understaffed(entries: Seq<u128>, assigned: Seq<u128>, quota: int) -> Seq<u128>
    decreases entries.len(),
{
    if entries.len() == 0 {
        Seq::empty()
    } else {
        let found = understaffed(entries.drop_last(), assigned, quota);
        if occurrences(assigned, entries.last()) < quota {
            found.push(entries.last())
        } else {
            found
        }
    }
}

/// The sources known this tick: those found in worked rooms, then those
/// creeps are assigned to, each once.
pub open spec fn known_sources(worked: Seq<u128>, assigned: Seq<u128>) -> Seq<u128> {
    first_mentions(worked + assigned)
}

/// Each source's share of the harvester target.
pub open spec fn harvester_quota(worked: Seq<u128>, assigned: Seq<u128>, target: i32) -> int {
    truncated_quotient(target as int, known_sources(worked, assigned).len() as int)
}

/// The sources that need another harvester, in the order they became known.
pub open spec fn harvest_job_plan(worked: Seq<u128>, assigned: Seq<u128>, target: i32) -> Seq<u128> {
    understaffed(
        known_sources(worked, assigned),
        assigned,
        harvester_quota(worked, assigned, target),
    )
}

/// A sequence has at least one and at most as many distinct elements as it
/// has elements.
pub proof fn lemma_first_mentions_len(s: Seq<u128>)
    ensures
        first_mentions(s).len() <= s.len(),
        s.len() > 0 ==> first_mentions(s).len() > 0,
    decreases s.len(),
{
    if s.len() > 0 {
        lemma_first_mentions_len(s.drop_last());
        if s.drop_last().contains(s.last()) {
            assert(s.drop_last().len() > 0);
        }
    }
}

/// The distinct elements of a sequence are exactly its elements, once each.
pub proof fn lemma_first_mentions_exact(s: Seq<u128>)
    ensures
        forall|x: u128| #[trigger] first_mentions(s).contains(x) <==> s.contains(x),
        first_mentions(s).no_duplicates(),
    decreases s.len(),
{
    if s.len() > 0 {
        let earlier = s.drop_last();
        lemma_first_mentions_exact(earlier);
        assert(s =~= earlier.push(s.last()));
        lemma_push_contains(earlier, s.last());
        lemma_push_contains(first_mentions(earlier), s.last());
    }
}

/// A source is in `understaffed` exactly when it is an entry with fewer
/// assigned creeps than the quota; distinct entries give distinct sources.
pub proof fn lemma_understaffed_exact(entries: Seq<u128>, assigned: Seq<u128>, quota: int)
    ensures
        forall|x: u128| #[trigger] understaffed(entries, assigned, quota).contains(x) <==> (entries.contains(x)
            && occurrences(assigned, x) < quota),
        entries.no_duplicates() ==> understaffed(entries, assigned, quota).no_duplicates(),
    decreases entries.len(),
{
    if entries.len() > 0 {
        let earlier = entries.drop_last();
        lemma_understaffed_exact(earlier, assigned, quota);
        assert(entries =~= earlier.push(entries.last()));
        lemma_push_contains(earlier, entries.last());
        lemma_push_contains(understaffed(earlier, assigned, quota), entries.last());
        if entries.no_duplicates() {
            assert(earlier.no_duplicates());
            assert(!earlier.contains(entries.last())) by {
                if earlier.contains(entries.last()) {
                    let k = earlier.index_of(entries.last());
                    assert(entries[k] == entries[entries.len() - 1]);
                }
            }
        }
    }
}

/// A source is offered as a harvest job exactly when it was found in a
/// worked room or is assigned to a creep, and fewer creeps are assigned to
/// it than its share of the harvester target; no source is offered twice.
pub proof fn lemma_harvest_job_plan_exact(worked: Seq<u128>, assigned: Seq<u128>, target: i32)
    ensures
        forall|x: u128| #[trigger] harvest_job_plan(worked, assigned, target).contains(x) <==> ((worked.contains(x)
            || assigned.contains(x)) && occurrences(assigned, x) < harvester_quota(worked, assigned, target)),
        harvest_job_plan(worked, assigned, target).no_duplicates(),
{
    let all = worked + assigned;
    lemma_first_mentions_exact(all);
    lemma_understaffed_exact(first_mentions(all), assigned, harvester_quota(worked, assigned, target));
    assert forall|x: u128| all.contains(x) <==> (worked.contains(x) || assigned.contains(x)) by {
        if worked.contains(x) {
            let k = worked.index_of(x);
            assert(all[k] == x);
        }
        if assigned.contains(x) {
            let k = assigned.index_of(x);
            assert(all[worked.len() + k] == x);
        }
        if all.contains(x) {
            let k = all.index_of(x);
            if k < worked.len() {
                assert(worked[k] == x);
            } else {
                assert(assigned[k - worked.len()] == x);
            }
        }
    }
}

/// Whether `x` is among the first `upto` elements of `s`.
fn among(s: &Vec<u128>, upto: usize, x: u128) -> (found: bool)
    requires
        upto <= s.len(),
    ensures
        found == s@.take(upto as int).contains(x),
{
    let mut i: usize = 0;
    while i < upto
        invariant
            upto <= s.len(),
            i <= upto,
            forall|j: int| 0 <= j < i ==> s@[j] != x,
        decreases upto - i,
    {
        if s[i] == x {
            assert(s@.take(upto as int)[i as int] == x);
            return true;
        }
        i += 1;
    }
    false
}

/// How many times `x` occurs in `s`.
fn count_of(s: &Vec<u128>, x: u128) -> (n: usize)
    ensures
        n == occurrences(s@, x),
        n <= s.len(),
{
    let mut n: usize = 0;
    let mut i: usize = 0;
    while i < s.len()
        invariant
            i <= s.len(),
            n == occurrences(s@.take(i as int), x),
            n <= i,
        decreases s.len() - i,
    {
        assert(s@.take(i + 1).drop_last() =~= s@.take(i as int));
        if s[i] == x {
            n += 1;
        }
        i += 1;
    }
    assert(s@.take(s.len() as int) =~= s@);
    n
}

/// The sources that need another harvester: every source found in a worked
/// room or assigned to a creep gets `harvester_target / number of sources`
/// (rounded toward zero), and each one with fewer assigned creeps than that
/// is returned, in the order it became known. With no known source there is
/// no share to compute and no job.
pub fn harvest_job_sources(worked_sources: &Vec<u128>, creep_sources: &Vec<u128>, harvester_target: i32) -> (plan: Vec<u128>)
    requires
        worked_sources.len() + creep_sources.len() <= i32::MAX,
    ensures
        plan@ == harvest_job_plan(worked_sources@, creep_sources@, harvester_target),
        plan@.no_duplicates(),
{
    proof {
        lemma_harvest_job_plan_exact(worked_sources@, creep_sources@, harvester_target);
    }
    let mut all: Vec<u128> = Vec::new();
    let mut i: usize = 0;
    while i < worked_sources.len()
        invariant
            i <= worked_sources.len(),
            all@ == worked_sources@.take(i as int),
        decreases worked_sources.len() - i,
    {
        all.push(worked_sources[i]);
        assert(all@ =~= worked_sources@.take(i + 1));
        i += 1;
    }
    let mut i: usize = 0;
    while i < creep_sources.len()
        invariant
            i <= creep_sources.len(),
            all@ == worked_sources@ + creep_sources@.take(i as int),
        decreases creep_sources.len() - i,
    {
        all.push(creep_sources[i]);
        assert(all@ =~= worked_sources@ + creep_sources@.take(i + 1));
        i += 1;
    }
    assert(all@ =~= worked_sources@ + creep_sources@);
    let ghost everything = all@;

    let mut entries: Vec<u128> = Vec::new();
    let mut i: usize = 0;
    while i < all.len()
        invariant
            i <= all.len(),
            all@ == everything,
            entries@ == first_mentions(everything.take(i as int)),
        decreases all.len() - i,
    {
        let x = all[i];
        assert(everything.take(i + 1).drop_last() =~= everything.take(i as int));
        if !among(&all, i, x) {
            entries.push(x);
        }
        i += 1;
    }
    assert(everything.take(all.len() as int) =~= everything);
    proof {
        lemma_first_mentions_len(everything);
    }

    if entries.len() == 0 {
        return entries;
    }
    let known = entries.len() as u64;
    let quota: i64 = if harvester_target >= 0 {
        (harvester_target as u64 / known) as i64
    } else {
        let magnitude = (0i64 - harvester_target as i64) as u64;
        0i64 - (magnitude / known) as i64
    };
    assert(quota == harvester_quota(worked_sources@, creep_sources@, harvester_target));

    let mut plan: Vec<u128> = Vec::new();
    let mut i: usize = 0;
    while i < entries.len()
        invariant
            i <= entries.len(),
            plan@ == understaffed(entries@.take(i as int), creep_sources@, quota as int),
            creep_sources.len() <= i32::MAX,
        decreases entries.len() - i,
    {
        assert(entries@.take(i + 1).drop_last() =~= entries@.take(i as int));
        let assigned = count_of(creep_sources, entries[i]);
        if (assigned as i64) < quota {
            plan.push(entries[i]);
        }
        i += 1;
    }
    assert(entries@.take(entries.len() as int) =~= entries@);
    plan
}

/// `occurrences` counts exactly the entries equal to `x`.
pub proof fn lemma_occurrences_is_count(s: Seq<u128>, x: u128)
    ensures
        occurrences(s, x) == s.filter(|y: u128| y == x).len(),
    decreases s.len(),
{
    reveal(Seq::filter);
    if s.len() > 0 {
        lemma_occurrences_is_count(s.drop_last(), x);
    }
}

/// Each known source's share of the harvester target is the target divided
/// by the number of known sources, rounded toward zero: for a target of
/// zero or more, the largest share that the sources together do not exceed;
/// for a negative one, the smallest share that they together do not fall
/// below.
pub proof fn lemma_harvester_quota_rounds_toward_zero(worked: Seq<u128>, assigned: Seq<u128>, target: i32)
    requires
        known_sources(worked, assigned).len() > 0,
    ensures
        target >= 0 ==> {
            &&& harvester_quota(worked, assigned, target) >= 0
            &&& harvester_quota(worked, assigned, target) * known_sources(worked, assigned).len() <= target
            &&& target < (harvester_quota(worked, assigned, target) + 1) * known_sources(worked, assigned).len()
        },
        target < 0 ==> {
            &&& harvester_quota(worked, assigned, target) <= 0
            &&& target <= harvester_quota(worked, assigned, target) * known_sources(worked, assigned).len()
            &&& (harvester_quota(worked, assigned, target) - 1) * known_sources(worked, assigned).len() < target
        },
{
    let n = known_sources(worked, assigned).len() as int;
    let t = target as int;
    let q = harvester_quota(worked, assigned, target);
    if t >= 0 {
        assert(q == t / n);
        assert(q >= 0 && q * n <= t && t < (q + 1) * n) by (nonlinear_arith)
            requires
                q == t / n,
                n > 0,
                t >= 0,
        ;
    } else {
        assert(q == -((-t) / n));
        assert(q <= 0 && t <= q * n && (q - 1) * n < t) by (nonlinear_arith)
            requires
                q == -((-t) / n),
                n > 0,
                t < 0,
        ;
    }
}

} // verus!

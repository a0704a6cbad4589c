//! Keeping the game's memory of creeps tidy: the memory of a creep that no
//! longer lives is deleted.
use vstd::prelude::*;
use crate::text::{texts_view, text_among};
use crate::lists::lemma_push_contains;

verus! {

/// The names of `names` that are not among `alive`, in order.
pub open spec fn dead_names(names: Seq<Seq<char>>, alive: Seq<Seq<char>>) -> Seq<Seq<char>>
    decreases names.len(),
{
    if names.len() == 0 {
        Seq::empty()
    } else {
        let found = dead_names(names.drop_last(), alive);
        if alive.contains(names.last()) {
            found
        } else {
            found.push(names.last())
        }
    }
}

/// The names under which the memory keeps creeps that no longer live: the
/// entries to delete.
pub fn cleanup_memory(memory_names: &Vec<String>, alive: &Vec<String>) -> (dead: Vec<String>)
    ensures
        texts_view(dead@) == dead_names(texts_view(memory_names@), texts_view(alive@)),
{
    let ghost names = texts_view(memory_names@);
    let ghost living = texts_view(alive@);
    let mut dead: Vec<String> = Vec::new();
    let mut i: usize = 0;
    while i < memory_names.len()
        invariant
            i <= memory_names.len(),
            names == texts_view(memory_names@),
            living == texts_view(alive@),
            texts_view(dead@) == dead_names(names.take(i as int), living),
        decreases memory_names.len() - i,
    {
        let name = &memory_names[i];
        assert(names.take(i + 1).drop_last() =~= names.take(i as int));
        assert(names.take(i + 1).last() == name@);
        assert(living.take(alive.len() as int) =~= living);
        if !text_among(alive, alive.len(), name) {
            let ghost before = dead@;
            dead.push(name.clone());
            assert(texts_view(dead@) =~= texts_view(before).push(name@));
        }
        i += 1;
    }
    assert(names.take(memory_names.len() as int) =~= names);
    dead
}

/// A creep's memory is deleted exactly when its name is in the memory and
/// no living creep bears it; a living creep's memory is never deleted.
pub proof fn lemma_dead_names_exact(names: Seq<Seq<char>>, alive: Seq<Seq<char>>)
    ensures
        forall|n: Seq<char>| #[trigger] dead_names(names, alive).contains(n) <==> (names.contains(n) && !alive.contains(n)),
    decreases names.len(),
{
    if names.len() > 0 {
        let earlier = names.drop_last();
        lemma_dead_names_exact(earlier, alive);
        assert(names =~= earlier.push(names.last()));
        lemma_push_contains(earlier, names.last());
        lemma_push_contains(dead_names(earlier, alive), names.last());
    }
}

} // verus!

//! Small facts about lists of texts, compared by their characters.
use vstd::prelude::*;

verus! {

/// The characters of each text of a list.
pub open spec fn texts_view(texts: Seq<String>) -> Seq<Seq<char>> {
    texts.map_values(|t: String| t@)
}

/// The characters of each text that is present in a list of optional texts.
pub open spec fn optional_texts_view(texts: Seq<Option<String>>) -> Seq<Option<Seq<char>>> {
    texts.map_values(|t: Option<String>| match t {
        Some(s) => Some(s@),
        None => None,
    })
}

/// Whether one of the first `upto` texts of a list reads `text`.
pub fn text_among(texts: &Vec<String>, upto: usize, text: &String) -> (found: bool)
    requires
        upto <= texts.len(),
    ensures
        found == texts_view(texts@).take(upto as int).contains(text@),
{
    let ghost views = texts_view(texts@).take(upto as int);
    let mut i: usize = 0;
    while i < upto
        invariant
            upto <= texts.len(),
            i <= upto,
            views == texts_view(texts@).take(upto as int),
            forall|j: int| 0 <= j < i ==> views[j] != text@,
        decreases upto - i,
    {
        if texts[i] == *text {
            assert(views[i as int] == text@);
            return true;
        }
        i += 1;
    }
    false
}

/// Whether one of a list of optional texts is present and reads `text`.
pub fn present_among(texts: &Vec<Option<String>>, text: &String) -> (found: bool)
    ensures
        found == optional_texts_view(texts@).contains(Some(text@)),
{
    let ghost views = optional_texts_view(texts@);
    let mut i: usize = 0;
    while i < texts.len()
        invariant
            i <= texts.len(),
            views == optional_texts_view(texts@),
            forall|j: int| 0 <= j < i ==> views[j] != Some(text@),
        decreases texts.len() - i,
    {
        match &texts[i] {
            Some(t) => {
                if *t == *text {
                    assert(views[i as int] == Some(text@));
                    return true;
                }
            },
            None => {},
        }
        i += 1;
    }
    false
}

} // verus!

//! Creep names: the game time at which the spawn was ordered, a hyphen, and
//! a counter that goes up while the name is taken.
use vstd::prelude::*;
use vstd::string::StringExecFns;

verus! {

/// The character of a decimal digit.
pub open spec fn digit_char(d: nat) -> char {
    if d == 0 { '0' }
    else if d == 1 { '1' }
    else if d == 2 { '2' }
    else if d == 3 { '3' }
    else if d == 4 { '4' }
    else if d == 5 { '5' }
    else if d == 6 { '6' }
    else if d == 7 { '7' }
    else if d == 8 { '8' }
    else { '9' }
}

/// The decimal numeral of `n`, without leading zeros.
pub open spec fn decimal(n: nat) -> Seq<char>
    decreases n,
{
    if n < 10 {
        seq![digit_char(n)]
    } else {
        decimal(n / 10).push(digit_char(n % 10))
    }
}

/// The name `<base>-<suffix>`.
pub open spec fn creep_name_of(base: nat, suffix: nat) -> Seq<char> {
    decimal(base) + seq!['-'] + decimal(suffix)
}

/// A decimal numeral is made of digits, one for a number below ten and
/// more for any other.
pub proof fn lemma_decimal_shape(n: nat)
    ensures
        decimal(n).len() >= 1,
        n >= 10 ==> decimal(n).len() >= 2,
        forall|i: int| 0 <= i < decimal(n).len() ==> '0' <= #[trigger] decimal(n)[i] <= '9',
    decreases n,
{
    if n >= 10 {
        lemma_decimal_shape(n / 10);
        assert forall|i: int| 0 <= i < decimal(n).len() implies '0' <= #[trigger] decimal(n)[i] <= '9' by {
            if i < decimal(n / 10).len() {
                assert(decimal(n)[i] == decimal(n / 10)[i]);
            }
        }
    }
}

/// Different numbers have different numerals.
pub proof fn lemma_decimal_injective(a: nat, b: nat)
    ensures
        decimal(a) == decimal(b) ==> a == b,
    decreases a,
{
    lemma_decimal_shape(a);
    lemma_decimal_shape(b);
    if decimal(a) == decimal(b) {
        if a < 10 && b < 10 {
            assert(decimal(a)[0] == decimal(b)[0]);
        } else if a >= 10 && b >= 10 {
            let da = decimal(a);
            let db = decimal(b);
            assert(da.last() == db.last());
            assert(da.drop_last() =~= decimal(a / 10));
            assert(db.drop_last() =~= decimal(b / 10));
            lemma_decimal_injective(a / 10, b / 10);
        }
    }
}

/// Two names are the same only when they were made of the same time and
/// the same counter; in particular, the counter a spawn moves on to after a
/// taken name gives a different name.
pub proof fn lemma_creep_names_distinct(base1: nat, suffix1: nat, base2: nat, suffix2: nat)
    ensures
        creep_name_of(base1, suffix1) == creep_name_of(base2, suffix2) ==> base1 == base2 && suffix1 == suffix2,
{
    let d1 = decimal(base1);
    let d2 = decimal(base2);
    let n1 = creep_name_of(base1, suffix1);
    let n2 = creep_name_of(base2, suffix2);
    lemma_decimal_shape(base1);
    lemma_decimal_shape(base2);
    lemma_decimal_shape(suffix1);
    lemma_decimal_shape(suffix2);
    if n1 == n2 {
        if d1.len() < d2.len() {
            assert(n1[d1.len() as int] == '-');
            assert(n2[d1.len() as int] == d2[d1.len() as int]);
        } else if d2.len() < d1.len() {
            assert(n2[d2.len() as int] == '-');
            assert(n1[d2.len() as int] == d1[d2.len() as int]);
        } else {
            assert(n1.take(d1.len() as int) =~= d1);
            assert(n2.take(d2.len() as int) =~= d2);
            lemma_decimal_injective(base1, base2);
            assert(n1.skip(d1.len() as int + 1) =~= decimal(suffix1));
            assert(n2.skip(d2.len() as int + 1) =~= decimal(suffix2));
            lemma_decimal_injective(suffix1, suffix2);
        }
    }
}

/// The names tried with the counters below `count`.
pub open spec fn names_tried(base: nat, count: nat) -> Set<Seq<char>>
    decreases count,
{
    if count == 0 {
        Set::empty()
    } else {
        names_tried(base, (count - 1) as nat).insert(creep_name_of(base, (count - 1) as nat))
    }
}

/// The counters below `count` give `count` different names.
pub proof fn lemma_names_tried_len(base: nat, count: nat)
    ensures
        names_tried(base, count).finite(),
        names_tried(base, count).len() == count,
        forall|name: Seq<char>| #[trigger] names_tried(base, count).contains(name) ==> exists|k: nat| k < count
            && name == creep_name_of(base, k),
    decreases count,
{
    if count > 0 {
        let c = (count - 1) as nat;
        lemma_names_tried_len(base, c);
        if names_tried(base, c).contains(creep_name_of(base, c)) {
            let k = choose|k: nat| k < c && creep_name_of(base, c) == creep_name_of(base, k);
            lemma_creep_names_distinct(base, c, base, k);
        }
        assert forall|name: Seq<char>| #[trigger] names_tried(base, count).contains(name) implies exists|k: nat| k
            < count && name == creep_name_of(base, k) by {
            if name == creep_name_of(base, c) {
                assert(c < count);
            } else {
                assert(names_tried(base, c).contains(name));
            }
        }
    }
}

/// The search for a free name ends: however the taken names lie, one of the
/// counters up to their number gives a name that is not taken, so a spawn
/// that moves to the next counter after each taken name tries at most one
/// more name than there are taken names.
pub proof fn lemma_name_search_ends(base: nat, taken: Set<Seq<char>>)
    requires
        taken.finite(),
    ensures
        exists|k: nat| k <= taken.len() && !taken.contains(#[trigger] creep_name_of(base, k)),
{
    let count = taken.len() + 1;
    lemma_names_tried_len(base, count);
    if forall|k: nat| k <= taken.len() ==> taken.contains(#[trigger] creep_name_of(base, k)) {
        assert(names_tried(base, count).subset_of(taken)) by {
            assert forall|name: Seq<char>| #[trigger] names_tried(base, count).contains(name) implies taken.contains(name) by {
                let k = choose|k: nat| k < count && name == creep_name_of(base, k);
                assert(k <= taken.len());
            }
        }
        vstd::set_lib::lemma_len_subset(names_tried(base, count), taken);
    }
}

/// The text of one decimal digit.
fn digit_text(d: u32) -> (text: &'static str)
    requires
        d < 10,
    ensures
        text@ == seq![digit_char(d as nat)],
{
    if d == 0 {
        proof { reveal_strlit("0"); }
        "0"
    } else if d == 1 {
        proof { reveal_strlit("1"); }
        "1"
    } else if d == 2 {
        proof { reveal_strlit("2"); }
        "2"
    } else if d == 3 {
        proof { reveal_strlit("3"); }
        "3"
    } else if d == 4 {
        proof { reveal_strlit("4"); }
        "4"
    } else if d == 5 {
        proof { reveal_strlit("5"); }
        "5"
    } else if d == 6 {
        proof { reveal_strlit("6"); }
        "6"
    } else if d == 7 {
        proof { reveal_strlit("7"); }
        "7"
    } else if d == 8 {
        proof { reveal_strlit("8"); }
        "8"
    } else {
        proof { reveal_strlit("9"); }
        "9"
    }
}

/// The decimal numeral of `n`.
pub fn decimal_text(n: u32) -> (text: String)
    ensures
        text@ == decimal(n as nat),
    decreases n,
{
    if n < 10 {
        let mut text = String::new();
        text.append(digit_text(n));
        text
    } else {
        let mut text = decimal_text(n / 10);
        text.append(digit_text(n % 10));
        text
    }
}

/// The name a spawn tries for a creep: the game time, a hyphen, a counter.
pub fn creep_name(base: u32, suffix: u32) -> (name: String)
    ensures
        name@ == creep_name_of(base as nat, suffix as nat),
{
    let mut name = decimal_text(base);
    proof {
        reveal_strlit("-");
    }
    name.append("-");
    let rest = decimal_text(suffix);
    name.append(rest.as_str());
    name
}

/// The number a string of decimal digits reads as.
pub open spec fn numeral_value(digits: Seq<char>) -> int
    decreases digits.len(),
{
    if digits.len() == 0 {
        0
    } else {
        numeral_value(digits.drop_last()) * 10 + (digits.last() as int - '0' as int)
    }
}

/// The numeral of a number reads back as that number, and starts with a
/// zero only when the number is zero: it is the usual decimal writing.
pub proof fn lemma_decimal_reads_back(n: nat)
    ensures
        numeral_value(decimal(n)) == n,
        decimal(n)[0] == '0' ==> n == 0,
    decreases n,
{
    lemma_digit_char_value(n % 10);
    if n >= 10 {
        lemma_decimal_reads_back(n / 10);
        lemma_decimal_shape(n / 10);
        assert(decimal(n).drop_last() =~= decimal(n / 10));
        assert(decimal(n).last() == digit_char(n % 10));
        assert(decimal(n)[0] == decimal(n / 10)[0]);
        assert(n == (n / 10) * 10 + n % 10);
        assert(numeral_value(decimal(n)) == numeral_value(decimal(n / 10)) * 10 + (digit_char(n % 10) as int - '0' as int));
    } else {
        assert(decimal(n).drop_last() =~= Seq::<char>::empty());
        assert(decimal(n).last() == digit_char(n));
        assert(numeral_value(Seq::<char>::empty()) == 0);
        assert(numeral_value(decimal(n)) == (digit_char(n) as int - '0' as int));
    }
}

/// Each digit's character stands for that digit.
proof fn lemma_digit_char_value(d: nat)
    requires
        d < 10,
    ensures
        digit_char(d) as int - '0' as int == d,
{
}

} // verus!

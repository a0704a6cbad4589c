//! Object ids as the game writes them: texts of hexadecimal digits, which
//! screeps packs into a number.
use vstd::prelude::*;

verus! {

/// The value of a hexadecimal digit, in either case.
pub open spec fn hex_digit_value(c: char) -> Option<nat> {
    if '0' <= c && c <= '9' {
        Some((c as nat - '0' as nat) as nat)
    } else if 'a' <= c && c <= 'f' {
        Some((c as nat - 'a' as nat + 10) as nat)
    } else if 'A' <= c && c <= 'F' {
        Some((c as nat - 'A' as nat + 10) as nat)
    } else {
        None
    }
}

/// The number a sequence of hexadecimal digits writes, or `None` if one of
/// them is not a digit.
pub open spec fn hex_value(digits: Seq<char>) -> Option<nat>
    decreases digits.len(),
{
    if digits.len() == 0 {
        Some(0)
    } else {
        match (hex_value(digits.drop_last()), hex_digit_value(digits.last())) {
            (Some(high), Some(low)) => Some(high * 16 + low),
            _ => None,
        }
    }
}

/// The largest number an object id holds: ids are twelve bytes.
pub open spec fn max_object_id() -> nat {
    0xffff_ffff_ffff_ffff_ffff_ffff
}

/// The number an object id text stands for: an optional `+`, then one or
/// more hexadecimal digits whose value fits in twelve bytes; `None` for any
/// other text.
pub open spec fn parsed_object_id(text: Seq<char>) -> Option<u128> {
    let digits = if text.len() > 0 && text[0] == '+' { text.drop_first() } else { text };
    if digits.len() == 0 {
        None
    } else {
        match hex_value(digits) {
            Some(v) => if v <= max_object_id() { Some(v as u128) } else { None },
            None => None,
        }
    }
}

/// Calls screeps' `ObjectId::<Source>::from_str` and, on success,
/// `ObjectId::to_u128`. Its source parses the text with
/// `u128::from_str_radix(text, 16)` (an optional `+` and at least one
/// hexadecimal digit of either case, nothing else, as std documents) and
/// refuses values above `2^96 - 1`; `to_u128` gives that value back. The
/// contract restates this.
#[verifier::external_body]
fn object_id_from_text(text: &str) -> (id: Option<u128>)
    ensures
        id == parsed_object_id(text@),
{
    match text.parse::<screeps::ObjectId<screeps::objects::Source>>() {
        Ok(parsed) => Some(parsed.to_u128()),
        Err(_) => None,
    }
}

/// The id that a source's id text stands for, or `None` if it is not an id.
pub fn source_id(text: &String) -> (id: Option<u128>)
    ensures
        id == parsed_object_id(text@),
{
    object_id_from_text(text.as_str())
}

/// The lowercase hexadecimal digit of a value below sixteen.
pub open spec fn hex_digit_char(d: nat) -> char {
    if d == 0 { '0' } else if d == 1 { '1' } else if d == 2 { '2' } else if d == 3 { '3' }
    else if d == 4 { '4' } else if d == 5 { '5' } else if d == 6 { '6' } else if d == 7 { '7' }
    else if d == 8 { '8' } else if d == 9 { '9' } else if d == 10 { 'a' } else if d == 11 { 'b' }
    else if d == 12 { 'c' } else if d == 13 { 'd' } else if d == 14 { 'e' } else { 'f' }
}

/// The lowercase hexadecimal numeral of `n`, without leading zeros.
pub open spec fn lower_hex(n: nat) -> Seq<char>
    decreases n,
{
    if n < 16 {
        seq![hex_digit_char(n)]
    } else {
        lower_hex(n / 16).push(hex_digit_char(n % 16))
    }
}

/// A lowercase hexadecimal digit reads back as its value.
pub proof fn lemma_hex_digit_round_trip(d: nat)
    requires
        d < 16,
    ensures
        hex_digit_value(hex_digit_char(d)) == Some(d),
        hex_digit_char(d) != '+',
{
    if d == 0 {} else if d == 1 {} else if d == 2 {} else if d == 3 {} else if d == 4 {}
    else if d == 5 {} else if d == 6 {} else if d == 7 {} else if d == 8 {} else if d == 9 {}
    else if d == 10 {} else if d == 11 {} else if d == 12 {} else if d == 13 {} else if d == 14 {}
    else {}
}

/// A hexadecimal numeral reads back as the number it was written for.
pub proof fn lemma_hex_value_of_lower_hex(n: nat)
    ensures
        hex_value(lower_hex(n)) == Some(n),
        lower_hex(n).len() > 0,
        lower_hex(n)[0] != '+',
    decreases n,
{
    lemma_hex_digit_round_trip(n % 16);
    if n < 16 {
        let digits = lower_hex(n);
        assert(digits.drop_last() =~= Seq::<char>::empty());
        assert(hex_value(Seq::<char>::empty()) == Some(0nat));
    } else {
        lemma_hex_value_of_lower_hex(n / 16);
        let digits = lower_hex(n);
        assert(digits.drop_last() =~= lower_hex(n / 16));
        assert(digits[0] == lower_hex(n / 16)[0]);
    }
}

/// The text of an object id reads back as the id, so different ids have
/// different texts.
pub proof fn lemma_object_id_text_round_trip(id: u128)
    requires
        id <= max_object_id(),
    ensures
        parsed_object_id(lower_hex(id as nat)) == Some(id),
{
    lemma_hex_value_of_lower_hex(id as nat);
}

/// Calls screeps' `RawObjectId::try_from(u128)` and its `Display`, which
/// writes the id with `{:x}`: lowercase hexadecimal digits without leading
/// zeros, as std documents `LowerHex`. The conversion refuses values above
/// `2^96 - 1`, which the `requires` leaves out.
#[verifier::external_body]
fn object_id_to_text(id: u128) -> (text: String)
    requires
        id <= max_object_id(),
    ensures
        text@ == lower_hex(id as nat),
{
    <screeps::RawObjectId as screeps::traits::TryFrom<u128>>::try_from(id).unwrap().to_string()
}

/// The text by which the game names the object of an id.
pub fn source_text(id: u128) -> (text: String)
    requires
        id <= max_object_id(),
    ensures
        text@ == lower_hex(id as nat),
        parsed_object_id(text@) == Some(id),
{
    proof {
        lemma_object_id_text_round_trip(id);
    }
    object_id_to_text(id)
}

/// The ids that a list of source id texts stand for, in order; `None` if
/// any of them is not an id.
pub fn parse_source_ids(texts: &Vec<String>) -> (ids: Option<Vec<u128>>)
    ensures
        ids is Some <==> forall|i: int| 0 <= i < texts.len() ==> parsed_object_id(#[trigger] texts@[i]@) is Some,
        ids matches Some(v) ==> {
            &&& v.len() == texts.len()
            &&& forall|i: int| 0 <= i < texts.len() ==> Some(#[trigger] v@[i]) == parsed_object_id(texts@[i]@)
        },
{
    let mut ids: Vec<u128> = Vec::new();
    let mut i: usize = 0;
    while i < texts.len()
        invariant
            i <= texts.len(),
            ids.len() == i,
            forall|j: int| 0 <= j < i ==> Some(#[trigger] ids@[j]) == parsed_object_id(texts@[j]@),
        decreases texts.len() - i,
    {
        match source_id(&texts[i]) {
            Some(id) => ids.push(id),
            None => return None,
        }
        i += 1;
    }
    assert forall|i: int| 0 <= i < texts.len() implies parsed_object_id(#[trigger] texts@[i]@) is Some by {
        assert(Some(ids@[i]) == parsed_object_id(texts@[i]@));
    }
    Some(ids)
}

} // verus!

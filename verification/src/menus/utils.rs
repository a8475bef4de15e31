//! Reading what the user typed: a menu choice, an id, the details of a card or deck.

use crate::menus::traits::{choice_at, MenuOptions};
use crate::models::opt_text;
use crate::text::{parse_i64, parse_i64_spec, trim, trimmed};
use vstd::prelude::*;

verus! {

/// The option that the typed line `input` chooses among those of `T`: the one whose
/// position in the menu, counted from 1, the line gives as a number. A line that is
/// no number, or a number that no option has, chooses nothing.
pub fn parse_input<T: MenuOptions>(input: &str) -> (r: Option<T>)
    ensures
        match r {
            Some(o) => choice_at(T::spec_options(), input@) == Some(o@),
            None => choice_at(T::spec_options(), input@) is None,
        },
{
    T::from_input(input)
}

/// The id that the typed line `input` holds: the line without the whitespace
/// around it, read as a signed decimal number.
pub fn parse_id(input: &str) -> (r: Option<i64>)
    ensures
        r == parse_i64_spec(trimmed(input@)),
{
    parse_i64(trim(input))
}

/// A text that was typed, or nothing where nothing was typed.
pub open spec fn typed(text: Seq<char>) -> Option<Seq<char>> {
    if text.len() == 0 {
        None
    } else {
        Some(text)
    }
}

fn typed_text(line: &str) -> (r: Option<String>)
    ensures
        opt_text(r) == typed(trimmed(line@)),
{
    let text: &str = trim(line);
    if text.unicode_len() == 0 {
        None
    } else {
        Some(String::from_str(text))
    }
}

/// The two sides of a card as typed on two lines: each line without the whitespace
/// around it; a side of which nothing is left was not typed, and is `None`.
pub fn card_details(front_line: &str, back_line: &str) -> (r: (Option<String>, Option<String>))
    ensures
        opt_text(r.0) == typed(trimmed(front_line@)),
        opt_text(r.1) == typed(trimmed(back_line@)),
{
    (typed_text(front_line), typed_text(back_line))
}

/// The two sides of a new card as typed on two lines: each line without the
/// whitespace around it, empty where nothing was typed.
pub fn new_card_sides(front_line: &str, back_line: &str) -> (r: (String, String))
    ensures
        r.0@ == trimmed(front_line@),
        r.1@ == trimmed(back_line@),
{
    (String::from_str(trim(front_line)), String::from_str(trim(back_line)))
}

/// The name and the description of a deck as typed on two lines: each line without
/// the whitespace around it. The description is always given, empty or not.
pub fn deck_details(name_line: &str, description_line: &str) -> (r: (String, Option<String>))
    ensures
        r.0@ == trimmed(name_line@),
        opt_text(r.1) == Some(trimmed(description_line@)),
{
    (String::from_str(trim(name_line)), Some(String::from_str(trim(description_line))))
}

} // verus!

//! What the store's operations decide and print, apart from the store itself: which
//! fields an update writes, what a delete reports, how rows are shown.

use crate::models::{opt_text, Card, CardView, ListCard, ListDeck};
use crate::text::{i64_to_string, signed_decimal_string};
use vstd::prelude::*;

verus! {

/// Which sides of a card an update writes.
#[derive(Debug, PartialEq, Eq)]
pub enum CardUpdate {
    /// Both sides are written.
    Both { front: String, back: String },
    /// The front is written; the back stays as it is.
    Front(String),
    /// The back is written; the front stays as it is.
    Back(String),
    /// Nothing is written.
    Nothing,
}

/// What a `CardUpdate` is, in plain values.
pub enum CardUpdateView {
    Both { front: Seq<char>, back: Seq<char> },
    Front(Seq<char>),
    Back(Seq<char>),
    Nothing,
}

impl View for CardUpdate {
    type V = CardUpdateView;

    open spec fn view(&self) -> CardUpdateView {
        match self {
            CardUpdate::Both { front, back } => CardUpdateView::Both { front: front@, back: back@ },
            CardUpdate::Front(front) => CardUpdateView::Front(front@),
            CardUpdate::Back(back) => CardUpdateView::Back(back@),
            CardUpdate::Nothing => CardUpdateView::Nothing,
        }
    }
}

impl CardUpdateView {
    /// The update that the two optional sides ask for: a side that is given is
    /// written, a side that is not given is left alone.
    pub open spec fn of(front: Option<Seq<char>>, back: Option<Seq<char>>) -> CardUpdateView {
        match (front, back) {
            (Some(front), Some(back)) => CardUpdateView::Both { front, back },
            (Some(front), None) => CardUpdateView::Front(front),
            (None, Some(back)) => CardUpdateView::Back(back),
            (None, None) => CardUpdateView::Nothing,
        }
    }

    /// The front that this update writes, if it writes one.
    pub open spec fn new_front(self) -> Option<Seq<char>> {
        match self {
            CardUpdateView::Both { front, back } => Some(front),
            CardUpdateView::Front(front) => Some(front),
            _ => None,
        }
    }

    /// The back that this update writes, if it writes one.
    pub open spec fn new_back(self) -> Option<Seq<char>> {
        match self {
            CardUpdateView::Both { front, back } => Some(back),
            CardUpdateView::Back(back) => Some(back),
            _ => None,
        }
    }

    /// The card after this update: each side that the update writes has its new
    /// text; the id and each side that it does not write are as before.
    pub open spec fn applied_to(self, card: CardView) -> CardView {
        CardView {
            id: card.id,
            front: match self.new_front() {
                Some(front) => front,
                None => card.front,
            },
            back: match self.new_back() {
                Some(back) => back,
                None => card.back,
            },
        }
    }
}

/// The update that the two optional sides ask for.
pub fn card_update(front: Option<String>, back: Option<String>) -> (r: CardUpdate)
    ensures
        r@ == CardUpdateView::of(opt_text(front), opt_text(back)),
{
    match (front, back) {
        (Some(front), Some(back)) => CardUpdate::Both { front, back },
        (Some(front), None) => CardUpdate::Front(front),
        (None, Some(back)) => CardUpdate::Back(back),
        (None, None) => CardUpdate::Nothing,
    }
}

impl Card {
    /// Brings this card up to date with an update that the store has carried out.
    pub fn apply_update(&mut self, update: CardUpdate)
        ensures
            final(self)@ == update@.applied_to(old(self)@),
    {
        match update {
            CardUpdate::Both { front, back } => {
                self.front = front;
                self.back = back;
            },
            CardUpdate::Front(front) => {
                self.front = front;
            },
            CardUpdate::Back(back) => {
                self.back = back;
            },
            CardUpdate::Nothing => {},
        }
    }
}

/// An update writes the sides that are given and no others: a side that is not given
/// is after the update what it was before, and so is the id; a side that is given is
/// what was given.
pub proof fn law_update_is_partial(card: CardView, front: Option<Seq<char>>, back: Option<Seq<char>>)
    ensures
        CardUpdateView::of(front, back).applied_to(card).id == card.id,
        front is None ==> CardUpdateView::of(front, back).applied_to(card).front == card.front,
        back is None ==> CardUpdateView::of(front, back).applied_to(card).back == card.back,
        front matches Some(f) ==> CardUpdateView::of(front, back).applied_to(card).front == f,
        back matches Some(b) ==> CardUpdateView::of(front, back).applied_to(card).back == b,
{
}

/// What a delete came to.
#[derive(Debug, Clone, Copy, PartialEq, Eq, Structural)]
pub enum Removal {
    /// The store held nothing under that id or name; nothing was deleted.
    NotFound,
    /// Something was deleted.
    Removed,
}

/// What a delete came to, by the number of rows that the store reports as affected:
/// none means that nothing was found, which is no error.
pub fn removal(rows_affected: u64) -> (r: Removal)
    ensures
        r == if rows_affected == 0 {
            Removal::NotFound
        } else {
            Removal::Removed
        },
{
    if rows_affected == 0 {
        Removal::NotFound
    } else {
        Removal::Removed
    }
}

/// The line that reports the delete of the `kind` (a card, a deck) with the id `id`.
pub open spec fn removal_line(kind: Seq<char>, id: i64, rows_affected: u64) -> Seq<char> {
    if rows_affected == 0 {
        "No "@ + kind + " with id: "@ + signed_decimal_string(id as int) + " found"@
    } else {
        "Deleted "@ + kind + " with id: "@ + signed_decimal_string(id as int)
    }
}

fn removal_report(kind: &str, id: i64, rows_affected: u64) -> (r: String)
    ensures
        r@ == removal_line(kind@, id, rows_affected),
{
    let id_text: String = i64_to_string(id);
    match removal(rows_affected) {
        Removal::NotFound => {
            let mut line: String = String::from_str("No ");
            line.append(kind);
            line.append(" with id: ");
            line.append(id_text.as_str());
            line.append(" found");
            line
        },
        Removal::Removed => {
            let mut line: String = String::from_str("Deleted ");
            line.append(kind);
            line.append(" with id: ");
            line.append(id_text.as_str());
            line
        },
    }
}

/// The line that reports the delete of the card `id`.
pub fn card_removal_line(id: i64, rows_affected: u64) -> (r: String)
    ensures
        r@ == removal_line("card"@, id, rows_affected),
{
    removal_report("card", id, rows_affected)
}

/// The line that reports the delete of the deck `id`.
pub fn deck_removal_line(id: i64, rows_affected: u64) -> (r: String)
    ensures
        r@ == removal_line("deck"@, id, rows_affected),
{
    removal_report("deck", id, rows_affected)
}

/// The line that reports the delete of the deck `name`: one only where no deck of
/// that name was found.
pub fn deck_name_removal_line(name: &str, rows_affected: u64) -> (r: Option<String>)
    ensures
        opt_text(r) == if rows_affected == 0 {
            Some("No deck with name "@ + name@ + " found"@)
        } else {
            None
        },
{
    match removal(rows_affected) {
        Removal::NotFound => {
            let mut line: String = String::from_str("No deck with name ");
            line.append(name);
            line.append(" found");
            Some(line)
        },
        Removal::Removed => None,
    }
}

/// A row of a listing: the id and two texts between bars, on a line of its own.
pub open spec fn listing_row(id: i64, first: Seq<char>, second: Seq<char>) -> Seq<char> {
    "\n            "@ + signed_decimal_string(id as int) + ": | "@ + first + " | "@ + second
        + " |\n            "@
}

fn row(id: i64, first: &str, second: &str) -> (r: String)
    ensures
        r@ == listing_row(id, first@, second@),
{
    let id_text: String = i64_to_string(id);
    let mut line: String = String::from_str("\n            ");
    line.append(id_text.as_str());
    line.append(": | ");
    line.append(first);
    line.append(" | ");
    line.append(second);
    line.append(" |\n            ");
    line
}

/// The text of an optional description: empty where there is none.
pub open spec fn description_text(description: Option<String>) -> Seq<char> {
    match description {
        Some(text) => text@,
        None => Seq::empty(),
    }
}

/// The rows that list `cards`, one for each card and in their order.
pub fn card_rows(cards: &Vec<ListCard>) -> (r: Vec<String>)
    ensures
        r@.len() == cards@.len(),
        forall|i: int|
            0 <= i < r@.len() ==> (#[trigger] r@[i])@ == listing_row(
                cards@[i].id,
                cards@[i].front@,
                cards@[i].back@,
            ),
{
    let mut rows: Vec<String> = Vec::new();
    let mut i: usize = 0;
    while i < cards.len()
        invariant
            i <= cards@.len(),
            rows@.len() == i,
            forall|k: int|
                0 <= k < i ==> (#[trigger] rows@[k])@ == listing_row(
                    cards@[k].id,
                    cards@[k].front@,
                    cards@[k].back@,
                ),
        decreases cards@.len() - i,
    {
        rows.push(row(cards[i].id, cards[i].front.as_str(), cards[i].back.as_str()));
        i += 1;
    }
    rows
}

/// The rows that list `decks`, one for each deck and in their order. A deck without
/// a description shows an empty one.
pub fn deck_rows(decks: &Vec<ListDeck>) -> (r: Vec<String>)
    ensures
        r@.len() == decks@.len(),
        forall|i: int|
            0 <= i < r@.len() ==> (#[trigger] r@[i])@ == listing_row(
                decks@[i].id,
                decks@[i].name@,
                description_text(decks@[i].description),
            ),
{
    let mut rows: Vec<String> = Vec::new();
    let mut i: usize = 0;
    while i < decks.len()
        invariant
            i <= decks@.len(),
            rows@.len() == i,
            forall|k: int|
                0 <= k < i ==> (#[trigger] rows@[k])@ == listing_row(
                    decks@[k].id,
                    decks@[k].name@,
                    description_text(decks@[k].description),
                ),
        decreases decks@.len() - i,
    {
        let line: String = match &decks[i].description {
            Some(text) => row(decks[i].id, decks[i].name.as_str(), text.as_str()),
            None => {
                let line: String = row(decks[i].id, decks[i].name.as_str(), "");
                proof {
                    reveal_strlit("");
                    assert(""@ =~= Seq::<char>::empty());
                }
                line
            },
        };
        rows.push(line);
        i += 1;
    }
    rows
}

/// What is shown of a deck: its id, its name and its description, separated by
/// commas. A deck without a description shows an empty one.
pub fn deck_info(id: i64, name: &str, description: Option<String>) -> (r: String)
    ensures
        r@ == signed_decimal_string(id as int) + ", "@ + name@ + ", "@ + description_text(
            description,
        ),
{
    let mut line: String = i64_to_string(id);
    line.append(", ");
    line.append(name);
    line.append(", ");
    match &description {
        Some(text) => {
            line.append(text.as_str());
        },
        None => {
            assert(line@ + Seq::<char>::empty() =~= line@);
        },
    }
    line
}

/// The line that offers a card of a deck for choosing: its id and its front. A card
/// that the store has not given an id cannot be offered.
pub fn card_choice_line(card: &Card) -> (r: Option<String>)
    ensures
        opt_text(r) == match card.id {
            Some(id) => Some(signed_decimal_string(id as int) + ": "@ + card.front@),
            None => None,
        },
{
    match card.id {
        Some(id) => {
            let mut line: String = i64_to_string(id);
            line.append(": ");
            line.append(card.front.as_str());
            Some(line)
        },
        None => None,
    }
}

} // verus!

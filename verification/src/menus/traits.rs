//! What every menu has in common: a numbered list of options to show and to
//! choose from.

use crate::text::{
    all_digits, decimal_string, is_digit, lemma_decimal_string_trimmed,
    lemma_decimal_string_value, parse_usize, parse_usize_spec, trim, trimmed, u64_to_string,
};
use crate::menus::{MenuChoice, MenuChoiceView, MenuState};
use crate::state::{AppState, AppStateView};
use vstd::prelude::*;

verus! {

/// The work that a chosen option leaves to the caller: prompts and the store. An
/// option that carries a deck's id names the deck in its request.
#[derive(Debug, Clone, Copy, PartialEq, Eq, Structural)]
pub enum Request {
    /// Nothing is left to do.
    Nothing,
    /// Show the menu of that screen, let the user choose from it, and carry the
    /// choice out in place of this option.
    Resolve(MenuState),
    /// Ask for a name and a description, and create that deck.
    CreateDeck,
    /// Ask for an id, a name and a description, and give them to that deck.
    UpdateDeck,
    /// Ask for an id, and delete that deck.
    DeleteDeck,
    /// List all decks.
    ListDecks,
    /// Ask for an id, and look whether a deck has it.
    ChooseDeck,
    /// Show what the store holds of the deck.
    ViewDeck(i64),
    /// List all cards of the store.
    ListAllCards,
    /// List the cards of the deck.
    ListDeckCards(i64),
    /// Ask for a card's id, and put that card into the deck.
    AddCardToDeck(i64),
    /// Ask for the two sides, and create that card.
    CreateCard,
    /// Ask for an id and the two sides, and give the card the sides that were typed.
    UpdateCard,
    /// Ask for an id, and delete that card.
    DeleteCard,
    /// Ask for an id, and give that card a new front.
    UpdateCardFront,
    /// Ask for an id, and give that card a new back.
    UpdateCardBack,
}

/// What came of a `Request`, as far as the next screen depends on it.
#[derive(Debug, Clone, Copy, PartialEq, Eq, Structural)]
pub enum Outcome {
    /// The work is done, or there was none.
    Done,
    /// The user asked for the deck `id`, and `exists` says whether the store has it.
    DeckLookup { id: i64, exists: bool },
    /// The menu named by `Resolve` was shown, and the choice made there leads to
    /// `next`, with `keep_running` saying whether the application goes on.
    Resolved { next: MenuState, keep_running: bool },
}

/// An option that can be carried out: it names the work it needs, and once that work
/// is done it gives the screen to show next and whether the application goes on.
pub trait ProcessOption: Sized + View {
    /// The work that this option leaves to the caller.
    spec fn spec_request(v: Self::V) -> Request;

    /// The screen to show next and whether to go on, given what came of the work.
    spec fn spec_process(v: Self::V, outcome: Outcome) -> (MenuState, bool);

    /// The work that this option leaves to the caller.
    fn request(&self) -> (r: Request)
        ensures
            r == Self::spec_request(self@),
    ;

    /// The screen to show next and whether the application goes on, given what came
    /// of the work that `request` named.
    fn process(self, outcome: Outcome) -> (r: (MenuState, bool))
        ensures
            r == Self::spec_process(self@, outcome),
    ;
}

/// A screen that can turn a typed line into a choice.
pub trait DecisionMaker: Sized {
    /// The option that the typed line `input` chooses on this screen in the
    /// navigation state `state`, if it chooses one.
    spec fn spec_make_decision(self, input: Seq<char>, state: AppStateView) -> Option<
        MenuChoiceView,
    >;

    /// The option that the typed line `input` chooses on this screen in the
    /// navigation state `state`; `None` where the line chooses nothing, and the
    /// caller asks again.
    fn make_decision(self, input: &str, state: &AppState) -> (r: Option<MenuChoice>)
        ensures
            match r {
                Some(choice) => self.spec_make_decision(input@, state@) == Some(choice@),
                None => self.spec_make_decision(input@, state@) is None,
            },
    ;
}

/// The heading printed above every menu.
pub open spec fn menu_heading() -> Seq<char> {
    "What would you like to do?"@
}

/// The line that offers the option with label `label` under the number `number`.
pub open spec fn menu_line(number: nat, label: Seq<char>) -> Seq<char> {
    decimal_string(number) + ". "@ + label
}

/// The option that the line `input` chooses among `options`: the line, without the
/// whitespace around it, must be a number from 1 to the number of options, and
/// chooses the option at that position. Any other line chooses nothing.
pub open spec fn choice_at<V>(options: Seq<V>, input: Seq<char>) -> Option<V> {
    match parse_usize_spec(trimmed(input)) {
        Some(n) => if 1 <= n <= options.len() {
            Some(options[n - 1])
        } else {
            None
        },
        None => None,
    }
}

/// A closed, ordered set of options that a menu offers. The position of an option
/// in `options`, counted from 1, is the number the user types to choose it.
pub trait MenuOptions: Sized + View {
    /// The options in the order in which the menu numbers them.
    spec fn spec_options() -> Seq<Self::V>;

    /// The name under which the menu shows this option.
    spec fn spec_label(v: Self::V) -> Seq<char>;

    /// The options in the order in which the menu numbers them. An option that
    /// carries data comes with a placeholder in its place.
    fn options() -> (r: Vec<Self>)
        ensures
            r@.len() == Self::spec_options().len(),
            forall|i: int| 0 <= i < r@.len() ==> (#[trigger] r@[i])@ == Self::spec_options()[i],
    ;

    /// The name under which the menu shows this option.
    fn label(&self) -> (r: String)
        ensures
            r@ == Self::spec_label(self@),
    ;

    /// The lines of the menu: the heading, then one numbered line for each option.
    fn menu_lines() -> (r: Vec<String>)
        ensures
            r@.len() == Self::spec_options().len() + 1,
            r@[0]@ == menu_heading(),
            forall|i: int|
                0 <= i < Self::spec_options().len() ==> (#[trigger] r@[i + 1])@ == menu_line(
                    (i + 1) as nat,
                    Self::spec_label(Self::spec_options()[i]),
                ),
    {
        let options: Vec<Self> = Self::options();
        let mut lines: Vec<String> = Vec::new();
        lines.push(String::from_str("What would you like to do?"));
        let mut i: usize = 0;
        while i < options.len()
            invariant
                i <= options@.len(),
                options@.len() == Self::spec_options().len(),
                forall|k: int|
                    0 <= k < options@.len() ==> (#[trigger] options@[k])@
                        == Self::spec_options()[k],
                lines@.len() == i + 1,
                lines@[0]@ == menu_heading(),
                forall|k: int|
                    0 <= k < i ==> (#[trigger] lines@[k + 1])@ == menu_line(
                        (k + 1) as nat,
                        Self::spec_label(Self::spec_options()[k]),
                    ),
            decreases options@.len() - i,
        {
            let mut line: String = u64_to_string((i + 1) as u64);
            line.append(". ");
            let label: String = options[i].label();
            line.append(label.as_str());
            lines.push(line);
            i += 1;
        }
        lines
    }

    /// The option that the typed line `input` chooses, if it chooses one.
    fn from_input(input: &str) -> (r: Option<Self>)
        ensures
            match r {
                Some(o) => choice_at(Self::spec_options(), input@) == Some(o@),
                None => choice_at(Self::spec_options(), input@) is None,
            },
    {
        let num: usize = match parse_usize(trim(input)) {
            Some(n) => n,
            None => { return None; },
        };
        let mut options: Vec<Self> = Self::options();
        if num >= 1 && num <= options.len() {
            Some(options.swap_remove(num - 1))
        } else {
            None
        }
    }
}

/// Typing the number of an option chooses that option: for every position `n` that
/// the menu has, the line that writes `n` in base ten chooses the option at `n`.
pub proof fn law_number_chooses_option<V>(options: Seq<V>, n: nat)
    requires
        1 <= n <= options.len(),
        options.len() <= usize::MAX,
    ensures
        choice_at(options, decimal_string(n)) == Some(options[n - 1]),
{
    lemma_decimal_string_trimmed(n);
    lemma_decimal_string_value(n);
    let s = decimal_string(n);
    assert(s[0] != '+');
}

/// A line chooses an option only by its number: whenever a line chooses something,
/// the line without the whitespace around it is a number `n` from 1 to the number of
/// options, and the choice is the option at `n`. So a line that is no number, a zero,
/// a negative number or a number that is too large chooses nothing.
pub proof fn law_choice_only_by_number<V>(options: Seq<V>, input: Seq<char>)
    ensures
        choice_at(options, input) matches Some(o) ==> (parse_usize_spec(trimmed(input)) matches Some(
            n,
        ) && 1 <= n <= options.len() && o == options[n - 1]),
        parse_usize_spec(trimmed(input)) is None ==> choice_at(options, input) is None,
        parse_usize_spec(trimmed(input)) == Some(0usize) ==> choice_at(options, input) is None,
        (parse_usize_spec(trimmed(input)) matches Some(n) && n > options.len()) ==> choice_at(
            options,
            input,
        ) is None,
        (trimmed(input).len() > 0 && trimmed(input)[0] == '-') ==> choice_at(options, input)
            is None,
{
    let t = trimmed(input);
    if t.len() > 0 && t[0] == '-' {
        assert(!is_digit(t[0]));
        assert(!all_digits(t));
    }
}

} // verus!

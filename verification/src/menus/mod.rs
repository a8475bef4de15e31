//! The screens of the application and what each of them offers.
//!
//! A turn of the application goes in three steps, none of which reads or writes
//! anything here. `MenuState::make_decision` takes the line the user typed on the
//! current screen and gives the option it chooses, with the data of the screen
//! threaded into it. The option's `request` names the work to do outside. Its
//! `process` takes what came of that work and gives the next screen, and whether the
//! application goes on.

pub mod card;
pub mod deck;
pub mod traits;
pub mod utils;

use crate::menus::card::{CardMenuOptions, CardMenuOptionsView, CardSubMenuOptions};
use crate::menus::deck::{DeckDetailMenuOptions, DeckDetailMenuOptionsView, DeckMenuOptions};
use crate::menus::traits::{choice_at, DecisionMaker, MenuOptions, Outcome, ProcessOption, Request};
use crate::state::{AppState, AppStateView};
use vstd::prelude::*;

verus! {

/// The screen the user is on. A deck's own screen carries the deck's id.
#[derive(Debug, Clone, Copy, PartialEq, Eq, Structural)]
pub enum MenuState {
    MainMenu,
    DeckMenu,
    DeckDetailMenu(i64),
    CardMenu,
    CardSubMenu,
}

impl View for MenuState {
    type V = MenuState;

    open spec fn view(&self) -> MenuState {
        *self
    }
}

impl MenuOptions for MenuState {
    open spec fn spec_options() -> Seq<MenuState> {
        seq![
            MenuState::MainMenu,
            MenuState::DeckMenu,
            MenuState::DeckDetailMenu(0),
            MenuState::CardMenu,
            MenuState::CardSubMenu,
        ]
    }

    open spec fn spec_label(v: MenuState) -> Seq<char> {
        match v {
            MenuState::MainMenu => "MainMenu"@,
            MenuState::DeckMenu => "DeckMenu"@,
            MenuState::DeckDetailMenu(_) => "DeckDetailMenu"@,
            MenuState::CardMenu => "CardMenu"@,
            MenuState::CardSubMenu => "CardSubMenu"@,
        }
    }

    fn options() -> (r: Vec<Self>) {
        let mut options: Vec<Self> = Vec::new();
        options.push(MenuState::MainMenu);
        options.push(MenuState::DeckMenu);
        options.push(MenuState::DeckDetailMenu(0));
        options.push(MenuState::CardMenu);
        options.push(MenuState::CardSubMenu);
        options
    }

    fn label(&self) -> (r: String) {
        match self {
            MenuState::MainMenu => String::from_str("MainMenu"),
            MenuState::DeckMenu => String::from_str("DeckMenu"),
            MenuState::DeckDetailMenu(_) => String::from_str("DeckDetailMenu"),
            MenuState::CardMenu => String::from_str("CardMenu"),
            MenuState::CardSubMenu => String::from_str("CardSubMenu"),
        }
    }
}

/// What the main menu offers.
#[derive(Debug, Clone, Copy, PartialEq, Eq, Structural)]
pub enum MenuOption {
    DeckMenu,
    CardMenu,
    Quit,
}

impl View for MenuOption {
    type V = MenuOption;

    open spec fn view(&self) -> MenuOption {
        *self
    }
}

impl MenuOptions for MenuOption {
    open spec fn spec_options() -> Seq<MenuOption> {
        seq![MenuOption::DeckMenu, MenuOption::CardMenu, MenuOption::Quit]
    }

    open spec fn spec_label(v: MenuOption) -> Seq<char> {
        match v {
            MenuOption::DeckMenu => "DeckMenu"@,
            MenuOption::CardMenu => "CardMenu"@,
            MenuOption::Quit => "Quit"@,
        }
    }

    fn options() -> (r: Vec<Self>) {
        let mut options: Vec<Self> = Vec::new();
        options.push(MenuOption::DeckMenu);
        options.push(MenuOption::CardMenu);
        options.push(MenuOption::Quit);
        options
    }

    fn label(&self) -> (r: String) {
        match self {
            MenuOption::DeckMenu => String::from_str("DeckMenu"),
            MenuOption::CardMenu => String::from_str("CardMenu"),
            MenuOption::Quit => String::from_str("Quit"),
        }
    }
}

impl ProcessOption for MenuOption {
    /// `DeckMenu` and `CardMenu` ask for that menu to be shown and a choice from it
    /// to be carried out at once.
    open spec fn spec_request(v: MenuOption) -> Request {
        match v {
            MenuOption::DeckMenu => Request::Resolve(MenuState::DeckMenu),
            MenuOption::CardMenu => Request::Resolve(MenuState::CardMenu),
            MenuOption::Quit => Request::Nothing,
        }
    }

    /// `DeckMenu` and `CardMenu` lead wherever the choice made on that menu leads;
    /// where no such choice was made, to that menu itself. `Quit` ends the
    /// application.
    open spec fn spec_process(v: MenuOption, outcome: Outcome) -> (MenuState, bool) {
        match v {
            MenuOption::Quit => (MenuState::MainMenu, false),
            MenuOption::DeckMenu => match outcome {
                Outcome::Resolved { next, keep_running } => (next, keep_running),
                _ => (MenuState::DeckMenu, true),
            },
            MenuOption::CardMenu => match outcome {
                Outcome::Resolved { next, keep_running } => (next, keep_running),
                _ => (MenuState::CardMenu, true),
            },
        }
    }

    fn request(&self) -> (r: Request) {
        match self {
            MenuOption::DeckMenu => Request::Resolve(MenuState::DeckMenu),
            MenuOption::CardMenu => Request::Resolve(MenuState::CardMenu),
            MenuOption::Quit => Request::Nothing,
        }
    }

    fn process(self, outcome: Outcome) -> (r: (MenuState, bool)) {
        match self {
            MenuOption::Quit => (MenuState::MainMenu, false),
            MenuOption::DeckMenu => match outcome {
                Outcome::Resolved { next, keep_running } => (next, keep_running),
                _ => (MenuState::DeckMenu, true),
            },
            MenuOption::CardMenu => match outcome {
                Outcome::Resolved { next, keep_running } => (next, keep_running),
                _ => (MenuState::CardMenu, true),
            },
        }
    }
}

/// An option chosen on one of the screens.
#[derive(Debug, PartialEq)]
pub enum MenuChoice {
    Main(MenuOption),
    Deck(DeckMenuOptions),
    DeckDetail(DeckDetailMenuOptions),
    Card(CardMenuOptions),
    CardSub(CardSubMenuOptions),
}

/// What a `MenuChoice` is, in plain values.
pub enum MenuChoiceView {
    Main(MenuOption),
    Deck(DeckMenuOptions),
    DeckDetail(DeckDetailMenuOptionsView),
    Card(CardMenuOptionsView),
    CardSub(CardSubMenuOptions),
}

impl View for MenuChoice {
    type V = MenuChoiceView;

    open spec fn view(&self) -> MenuChoiceView {
        match self {
            MenuChoice::Main(o) => MenuChoiceView::Main(*o),
            MenuChoice::Deck(o) => MenuChoiceView::Deck(*o),
            MenuChoice::DeckDetail(o) => MenuChoiceView::DeckDetail(o@),
            MenuChoice::Card(o) => MenuChoiceView::Card(o@),
            MenuChoice::CardSub(o) => MenuChoiceView::CardSub(*o),
        }
    }
}

impl ProcessOption for MenuChoice {
    open spec fn spec_request(v: MenuChoiceView) -> Request {
        match v {
            MenuChoiceView::Main(o) => MenuOption::spec_request(o),
            MenuChoiceView::Deck(o) => DeckMenuOptions::spec_request(o),
            MenuChoiceView::DeckDetail(o) => DeckDetailMenuOptions::spec_request(o),
            MenuChoiceView::Card(o) => CardMenuOptions::spec_request(o),
            MenuChoiceView::CardSub(o) => CardSubMenuOptions::spec_request(o),
        }
    }

    open spec fn spec_process(v: MenuChoiceView, outcome: Outcome) -> (MenuState, bool) {
        match v {
            MenuChoiceView::Main(o) => MenuOption::spec_process(o, outcome),
            MenuChoiceView::Deck(o) => DeckMenuOptions::spec_process(o, outcome),
            MenuChoiceView::DeckDetail(o) => DeckDetailMenuOptions::spec_process(o, outcome),
            MenuChoiceView::Card(o) => CardMenuOptions::spec_process(o, outcome),
            MenuChoiceView::CardSub(o) => CardSubMenuOptions::spec_process(o, outcome),
        }
    }

    fn request(&self) -> (r: Request) {
        match self {
            MenuChoice::Main(o) => o.request(),
            MenuChoice::Deck(o) => o.request(),
            MenuChoice::DeckDetail(o) => o.request(),
            MenuChoice::Card(o) => o.request(),
            MenuChoice::CardSub(o) => o.request(),
        }
    }

    fn process(self, outcome: Outcome) -> (r: (MenuState, bool)) {
        match self {
            MenuChoice::Main(o) => o.process(outcome),
            MenuChoice::Deck(o) => o.process(outcome),
            MenuChoice::DeckDetail(o) => o.process(outcome),
            MenuChoice::Card(o) => o.process(outcome),
            MenuChoice::CardSub(o) => o.process(outcome),
        }
    }
}

/// The option that the typed line `input` chooses on the screen `menu` in the
/// navigation state `state`: the option of that screen's menu whose number the line
/// gives, carrying the screen's deck id and the state where it carries any. A line
/// that gives no such number chooses nothing.
pub open spec fn spec_decision(menu: MenuState, input: Seq<char>, state: AppStateView) -> Option<
    MenuChoiceView,
> {
    match menu {
        MenuState::MainMenu => match choice_at(MenuOption::spec_options(), input) {
            Some(o) => Some(MenuChoiceView::Main(o)),
            None => None,
        },
        MenuState::DeckMenu => match choice_at(DeckMenuOptions::spec_options(), input) {
            Some(o) => Some(MenuChoiceView::Deck(o)),
            None => None,
        },
        MenuState::DeckDetailMenu(id) => match choice_at(
            DeckDetailMenuOptions::spec_options(),
            input,
        ) {
            Some(o) => Some(MenuChoiceView::DeckDetail(o.with_context(id, state))),
            None => None,
        },
        MenuState::CardMenu => match choice_at(CardMenuOptions::spec_options(), input) {
            Some(o) => Some(MenuChoiceView::Card(o.with_context(state))),
            None => None,
        },
        MenuState::CardSubMenu => match choice_at(CardSubMenuOptions::spec_options(), input) {
            Some(o) => Some(MenuChoiceView::CardSub(o)),
            None => None,
        },
    }
}

impl DecisionMaker for MenuState {
    open spec fn spec_make_decision(self, input: Seq<char>, state: AppStateView) -> Option<
        MenuChoiceView,
    > {
        spec_decision(self, input, state)
    }

    fn make_decision(self, input: &str, state: &AppState) -> (r: Option<MenuChoice>) {
        match self {
            MenuState::MainMenu => match MenuOption::from_input(input) {
                Some(o) => Some(MenuChoice::Main(o)),
                None => None,
            },
            MenuState::DeckMenu => match DeckMenuOptions::from_input(input) {
                Some(o) => Some(MenuChoice::Deck(o)),
                None => None,
            },
            MenuState::DeckDetailMenu(id) => match DeckDetailMenuOptions::from_input(input) {
                Some(o) => Some(MenuChoice::DeckDetail(o.with_context(id, state))),
                None => None,
            },
            MenuState::CardMenu => match CardMenuOptions::from_input(input) {
                Some(o) => Some(MenuChoice::Card(o.with_context(state))),
                None => None,
            },
            MenuState::CardSubMenu => match CardSubMenuOptions::from_input(input) {
                Some(o) => Some(MenuChoice::CardSub(o)),
                None => None,
            },
        }
    }
}

impl MenuState {
    /// The lines of the menu of this screen: the heading, then its numbered options.
    pub fn menu_lines(self) -> (r: Vec<String>)
        ensures
            r@.len() == self.option_labels().len() + 1,
            r@[0]@ == crate::menus::traits::menu_heading(),
            forall|i: int|
                0 <= i < self.option_labels().len() ==> (#[trigger] r@[i + 1])@
                    == crate::menus::traits::menu_line((i + 1) as nat, self.option_labels()[i]),
    {
        match self {
            MenuState::MainMenu => <MenuOption as MenuOptions>::menu_lines(),
            MenuState::DeckMenu => <DeckMenuOptions as MenuOptions>::menu_lines(),
            MenuState::DeckDetailMenu(_) => <DeckDetailMenuOptions as MenuOptions>::menu_lines(),
            MenuState::CardMenu => <CardMenuOptions as MenuOptions>::menu_lines(),
            MenuState::CardSubMenu => <CardSubMenuOptions as MenuOptions>::menu_lines(),
        }
    }

    /// The labels of the options that the menu of this screen offers, in its order.
    pub open spec fn option_labels(self) -> Seq<Seq<char>> {
        match self {
            MenuState::MainMenu => MenuOption::spec_options().map_values(
                |o: MenuOption| MenuOption::spec_label(o),
            ),
            MenuState::DeckMenu => DeckMenuOptions::spec_options().map_values(
                |o: DeckMenuOptions| DeckMenuOptions::spec_label(o),
            ),
            MenuState::DeckDetailMenu(_) => DeckDetailMenuOptions::spec_options().map_values(
                |o: DeckDetailMenuOptionsView| DeckDetailMenuOptions::spec_label(o),
            ),
            MenuState::CardMenu => CardMenuOptions::spec_options().map_values(
                |o: CardMenuOptionsView| CardMenuOptions::spec_label(o),
            ),
            MenuState::CardSubMenu => CardSubMenuOptions::spec_options().map_values(
                |o: CardSubMenuOptions| CardSubMenuOptions::spec_label(o),
            ),
        }
    }
}

} // verus!

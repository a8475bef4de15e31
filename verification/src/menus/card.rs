//! The card menu and its sub-menu.

use crate::menus::traits::{MenuOptions, Outcome, ProcessOption, Request};
use crate::menus::MenuState;
use crate::models::User;
use crate::state::{AppState, AppStateView};
use vstd::prelude::*;

verus! {

/// What the card menu offers. `GoBack` carries the navigation state in which it was
/// chosen.
#[derive(Debug, PartialEq)]
pub enum CardMenuOptions {
    Create,
    List,
    Update,
    Delete,
    GoToMainMenu,
    GoToSubMenu,
    GoBack(AppState),
    Quit,
}

/// What a `CardMenuOptions` is, in plain values.
pub enum CardMenuOptionsView {
    Create,
    List,
    Update,
    Delete,
    GoToMainMenu,
    GoToSubMenu,
    GoBack(AppStateView),
    Quit,
}

impl View for CardMenuOptions {
    type V = CardMenuOptionsView;

    open spec fn view(&self) -> CardMenuOptionsView {
        match self {
            CardMenuOptions::Create => CardMenuOptionsView::Create,
            CardMenuOptions::List => CardMenuOptionsView::List,
            CardMenuOptions::Update => CardMenuOptionsView::Update,
            CardMenuOptions::Delete => CardMenuOptionsView::Delete,
            CardMenuOptions::GoToMainMenu => CardMenuOptionsView::GoToMainMenu,
            CardMenuOptions::GoToSubMenu => CardMenuOptionsView::GoToSubMenu,
            CardMenuOptions::GoBack(state) => CardMenuOptionsView::GoBack(state@),
            CardMenuOptions::Quit => CardMenuOptionsView::Quit,
        }
    }
}

impl Clone for CardMenuOptions {
    fn clone(&self) -> (r: Self)
        ensures
            r@ == self@,
    {
        match self {
            CardMenuOptions::Create => CardMenuOptions::Create,
            CardMenuOptions::List => CardMenuOptions::List,
            CardMenuOptions::Update => CardMenuOptions::Update,
            CardMenuOptions::Delete => CardMenuOptions::Delete,
            CardMenuOptions::GoToMainMenu => CardMenuOptions::GoToMainMenu,
            CardMenuOptions::GoToSubMenu => CardMenuOptions::GoToSubMenu,
            CardMenuOptions::GoBack(state) => CardMenuOptions::GoBack(state.clone()),
            CardMenuOptions::Quit => CardMenuOptions::Quit,
        }
    }
}

impl CardMenuOptionsView {
    /// This option as chosen in the navigation state `state`: `GoBack` now carries
    /// that state, whatever it carried before; the others carry nothing.
    pub open spec fn with_context(self, state: AppStateView) -> Self {
        match self {
            CardMenuOptionsView::GoBack(_) => CardMenuOptionsView::GoBack(state),
            _ => self,
        }
    }
}

impl CardMenuOptions {
    /// This option as chosen in the navigation state `state`. A freshly parsed
    /// `GoBack` carries a placeholder; this puts the state in its place.
    pub fn with_context(self, state: &AppState) -> (r: Self)
        ensures
            r@ == self@.with_context(state@),
    {
        match self {
            CardMenuOptions::GoBack(_) => CardMenuOptions::GoBack(state.clone()),
            other => other,
        }
    }
}

impl MenuOptions for CardMenuOptions {
    open spec fn spec_options() -> Seq<CardMenuOptionsView> {
        seq![
            CardMenuOptionsView::Create,
            CardMenuOptionsView::List,
            CardMenuOptionsView::Update,
            CardMenuOptionsView::Delete,
            CardMenuOptionsView::GoToMainMenu,
            CardMenuOptionsView::GoToSubMenu,
            CardMenuOptionsView::GoBack(AppStateView::initial(User::spec_guest())),
            CardMenuOptionsView::Quit,
        ]
    }

    open spec fn spec_label(v: CardMenuOptionsView) -> Seq<char> {
        match v {
            CardMenuOptionsView::Create => "Create"@,
            CardMenuOptionsView::List => "List"@,
            CardMenuOptionsView::Update => "Update"@,
            CardMenuOptionsView::Delete => "Delete"@,
            CardMenuOptionsView::GoToMainMenu => "GoToMainMenu"@,
            CardMenuOptionsView::GoToSubMenu => "GoToSubMenu"@,
            CardMenuOptionsView::GoBack(_) => "GoBack"@,
            CardMenuOptionsView::Quit => "Quit"@,
        }
    }

    fn options() -> (r: Vec<Self>) {
        let mut options: Vec<Self> = Vec::new();
        options.push(CardMenuOptions::Create);
        options.push(CardMenuOptions::List);
        options.push(CardMenuOptions::Update);
        options.push(CardMenuOptions::Delete);
        options.push(CardMenuOptions::GoToMainMenu);
        options.push(CardMenuOptions::GoToSubMenu);
        options.push(CardMenuOptions::GoBack(AppState::default()));
        options.push(CardMenuOptions::Quit);
        options
    }

    fn label(&self) -> (r: String) {
        match self {
            CardMenuOptions::Create => String::from_str("Create"),
            CardMenuOptions::List => String::from_str("List"),
            CardMenuOptions::Update => String::from_str("Update"),
            CardMenuOptions::Delete => String::from_str("Delete"),
            CardMenuOptions::GoToMainMenu => String::from_str("GoToMainMenu"),
            CardMenuOptions::GoToSubMenu => String::from_str("GoToSubMenu"),
            CardMenuOptions::GoBack(_) => String::from_str("GoBack"),
            CardMenuOptions::Quit => String::from_str("Quit"),
        }
    }
}

impl ProcessOption for CardMenuOptions {
    open spec fn spec_request(v: CardMenuOptionsView) -> Request {
        match v {
            CardMenuOptionsView::Create => Request::CreateCard,
            CardMenuOptionsView::List => Request::ListAllCards,
            CardMenuOptionsView::Update => Request::UpdateCard,
            CardMenuOptionsView::Delete => Request::DeleteCard,
            _ => Request::Nothing,
        }
    }

    /// The options that work on cards lead back to the card menu; the others lead
    /// where their names say, `GoBack` to the screen beneath the current one in the
    /// state it carries; `Quit` ends the application.
    open spec fn spec_process(v: CardMenuOptionsView, outcome: Outcome) -> (MenuState, bool) {
        match v {
            CardMenuOptionsView::GoToMainMenu => (MenuState::MainMenu, true),
            CardMenuOptionsView::GoToSubMenu => (MenuState::CardSubMenu, true),
            CardMenuOptionsView::GoBack(state) => (state.previous_menu(), true),
            CardMenuOptionsView::Quit => (MenuState::MainMenu, false),
            _ => (MenuState::CardMenu, true),
        }
    }

    fn request(&self) -> (r: Request) {
        match self {
            CardMenuOptions::Create => Request::CreateCard,
            CardMenuOptions::List => Request::ListAllCards,
            CardMenuOptions::Update => Request::UpdateCard,
            CardMenuOptions::Delete => Request::DeleteCard,
            _ => Request::Nothing,
        }
    }

    fn process(self, outcome: Outcome) -> (r: (MenuState, bool)) {
        match self {
            CardMenuOptions::GoToMainMenu => (MenuState::MainMenu, true),
            CardMenuOptions::GoToSubMenu => (MenuState::CardSubMenu, true),
            CardMenuOptions::GoBack(state) => {
                let mut state: AppState = state;
                let previous_menu: MenuState = state.get_previous_menu();
                (previous_menu, true)
            },
            CardMenuOptions::Quit => (MenuState::MainMenu, false),
            _ => (MenuState::CardMenu, true),
        }
    }
}

/// What the card sub-menu offers.
#[derive(Debug, Clone, Copy, PartialEq, Eq, Structural)]
pub enum CardSubMenuOptions {
    Front,
    Back,
    GoToCardMenu,
    Quit,
}

impl View for CardSubMenuOptions {
    type V = CardSubMenuOptions;

    open spec fn view(&self) -> CardSubMenuOptions {
        *self
    }
}

impl CardSubMenuOptions {
    /// The text that `Front` and `Back` give to the side they set.
    pub fn new_text() -> (r: String)
        ensures
            r@ == "test"@,
    {
        String::from_str("test")
    }
}

impl MenuOptions for CardSubMenuOptions {
    open spec fn spec_options() -> Seq<CardSubMenuOptions> {
        seq![
            CardSubMenuOptions::Front,
            CardSubMenuOptions::Back,
            CardSubMenuOptions::GoToCardMenu,
            CardSubMenuOptions::Quit,
        ]
    }

    open spec fn spec_label(v: CardSubMenuOptions) -> Seq<char> {
        match v {
            CardSubMenuOptions::Front => "Front"@,
            CardSubMenuOptions::Back => "Back"@,
            CardSubMenuOptions::GoToCardMenu => "GoToCardMenu"@,
            CardSubMenuOptions::Quit => "Quit"@,
        }
    }

    fn options() -> (r: Vec<Self>) {
        let mut options: Vec<Self> = Vec::new();
        options.push(CardSubMenuOptions::Front);
        options.push(CardSubMenuOptions::Back);
        options.push(CardSubMenuOptions::GoToCardMenu);
        options.push(CardSubMenuOptions::Quit);
        options
    }

    fn label(&self) -> (r: String) {
        match self {
            CardSubMenuOptions::Front => String::from_str("Front"),
            CardSubMenuOptions::Back => String::from_str("Back"),
            CardSubMenuOptions::GoToCardMenu => String::from_str("GoToCardMenu"),
            CardSubMenuOptions::Quit => String::from_str("Quit"),
        }
    }
}

impl ProcessOption for CardSubMenuOptions {
    open spec fn spec_request(v: CardSubMenuOptions) -> Request {
        match v {
            CardSubMenuOptions::Front => Request::UpdateCardFront,
            CardSubMenuOptions::Back => Request::UpdateCardBack,
            _ => Request::Nothing,
        }
    }

    /// `Front` and `Back` lead back to the sub-menu, `GoToCardMenu` to the card menu;
    /// `Quit` ends the application.
    open spec fn spec_process(v: CardSubMenuOptions, outcome: Outcome) -> (MenuState, bool) {
        match v {
            CardSubMenuOptions::GoToCardMenu => (MenuState::CardMenu, true),
            CardSubMenuOptions::Quit => (MenuState::MainMenu, false),
            _ => (MenuState::CardSubMenu, true),
        }
    }

    fn request(&self) -> (r: Request) {
        match self {
            CardSubMenuOptions::Front => Request::UpdateCardFront,
            CardSubMenuOptions::Back => Request::UpdateCardBack,
            _ => Request::Nothing,
        }
    }

    fn process(self, outcome: Outcome) -> (r: (MenuState, bool)) {
        match self {
            CardSubMenuOptions::GoToCardMenu => (MenuState::CardMenu, true),
            CardSubMenuOptions::Quit => (MenuState::MainMenu, false),
            _ => (MenuState::CardSubMenu, true),
        }
    }
}

} // verus!

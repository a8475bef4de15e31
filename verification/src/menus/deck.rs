//! The deck menu and the menu of a single deck.

use crate::menus::traits::{MenuOptions, Outcome, ProcessOption, Request};
use crate::menus::MenuState;
use crate::models::User;
use crate::state::{AppState, AppStateView};
use vstd::prelude::*;

verus! {

/// What the deck menu offers.
#[derive(Debug, Clone, Copy, PartialEq, Eq, Structural)]
pub enum DeckMenuOptions {
    Create,
    List,
    Update,
    Delete,
    ChooseDeck,
}

impl View for DeckMenuOptions {
    type V = DeckMenuOptions;

    open spec fn view(&self) -> DeckMenuOptions {
        *self
    }
}

impl MenuOptions for DeckMenuOptions {
    open spec fn spec_options() -> Seq<DeckMenuOptions> {
        seq![
            DeckMenuOptions::Create,
            DeckMenuOptions::List,
            DeckMenuOptions::Update,
            DeckMenuOptions::Delete,
            DeckMenuOptions::ChooseDeck,
        ]
    }

    open spec fn spec_label(v: DeckMenuOptions) -> Seq<char> {
        match v {
            DeckMenuOptions::Create => "Create"@,
            DeckMenuOptions::List => "List"@,
            DeckMenuOptions::Update => "Update"@,
            DeckMenuOptions::Delete => "Delete"@,
            DeckMenuOptions::ChooseDeck => "ChooseDeck"@,
        }
    }

    fn options() -> (r: Vec<Self>) {
        let mut options: Vec<Self> = Vec::new();
        options.push(DeckMenuOptions::Create);
        options.push(DeckMenuOptions::List);
        options.push(DeckMenuOptions::Update);
        options.push(DeckMenuOptions::Delete);
        options.push(DeckMenuOptions::ChooseDeck);
        options
    }

    fn label(&self) -> (r: String) {
        match self {
            DeckMenuOptions::Create => String::from_str("Create"),
            DeckMenuOptions::List => String::from_str("List"),
            DeckMenuOptions::Update => String::from_str("Update"),
            DeckMenuOptions::Delete => String::from_str("Delete"),
            DeckMenuOptions::ChooseDeck => String::from_str("ChooseDeck"),
        }
    }
}

impl ProcessOption for DeckMenuOptions {
    open spec fn spec_request(v: DeckMenuOptions) -> Request {
        match v {
            DeckMenuOptions::Create => Request::CreateDeck,
            DeckMenuOptions::List => Request::ListDecks,
            DeckMenuOptions::Update => Request::UpdateDeck,
            DeckMenuOptions::Delete => Request::DeleteDeck,
            DeckMenuOptions::ChooseDeck => Request::ChooseDeck,
        }
    }

    /// Every option leads back to the deck menu, but for `ChooseDeck` where the store
    /// has the deck that was asked for: that leads to the deck's own screen.
    open spec fn spec_process(v: DeckMenuOptions, outcome: Outcome) -> (MenuState, bool) {
        match (v, outcome) {
            (DeckMenuOptions::ChooseDeck, Outcome::DeckLookup { id, exists: true }) => (
                MenuState::DeckDetailMenu(id),
                true,
            ),
            _ => (MenuState::DeckMenu, true),
        }
    }

    fn request(&self) -> (r: Request) {
        match self {
            DeckMenuOptions::Create => Request::CreateDeck,
            DeckMenuOptions::List => Request::ListDecks,
            DeckMenuOptions::Update => Request::UpdateDeck,
            DeckMenuOptions::Delete => Request::DeleteDeck,
            DeckMenuOptions::ChooseDeck => Request::ChooseDeck,
        }
    }

    fn process(self, outcome: Outcome) -> (r: (MenuState, bool)) {
        match self {
            DeckMenuOptions::ChooseDeck => match outcome {
                Outcome::DeckLookup { id, exists } => {
                    if exists {
                        (MenuState::DeckDetailMenu(id), true)
                    } else {
                        (MenuState::DeckMenu, true)
                    }
                },
                _ => (MenuState::DeckMenu, true),
            },
            _ => (MenuState::DeckMenu, true),
        }
    }
}

/// What the screen of a single deck offers. The options that work on the deck carry
/// its id; `GoBack` carries the navigation state in which it was chosen.
#[derive(Debug, PartialEq)]
pub enum DeckDetailMenuOptions {
    View(i64),
    ListAllCards(i64),
    ListCards(i64),
    AddCard(i64),
    GoBack(AppState),
    Quit,
}

/// What a `DeckDetailMenuOptions` is, in plain values.
pub enum DeckDetailMenuOptionsView {
    View(i64),
    ListAllCards(i64),
    ListCards(i64),
    AddCard(i64),
    GoBack(AppStateView),
    Quit,
}

impl View for DeckDetailMenuOptions {
    type V = DeckDetailMenuOptionsView;

    open spec fn view(&self) -> DeckDetailMenuOptionsView {
        match self {
            DeckDetailMenuOptions::View(id) => DeckDetailMenuOptionsView::View(*id),
            DeckDetailMenuOptions::ListAllCards(id) => DeckDetailMenuOptionsView::ListAllCards(*id),
            DeckDetailMenuOptions::ListCards(id) => DeckDetailMenuOptionsView::ListCards(*id),
            DeckDetailMenuOptions::AddCard(id) => DeckDetailMenuOptionsView::AddCard(*id),
            DeckDetailMenuOptions::GoBack(state) => DeckDetailMenuOptionsView::GoBack(state@),
            DeckDetailMenuOptions::Quit => DeckDetailMenuOptionsView::Quit,
        }
    }
}

impl Clone for DeckDetailMenuOptions {
    fn clone(&self) -> (r: Self)
        ensures
            r@ == self@,
    {
        match self {
            DeckDetailMenuOptions::View(id) => DeckDetailMenuOptions::View(*id),
            DeckDetailMenuOptions::ListAllCards(id) => DeckDetailMenuOptions::ListAllCards(*id),
            DeckDetailMenuOptions::ListCards(id) => DeckDetailMenuOptions::ListCards(*id),
            DeckDetailMenuOptions::AddCard(id) => DeckDetailMenuOptions::AddCard(*id),
            DeckDetailMenuOptions::GoBack(state) => DeckDetailMenuOptions::GoBack(state.clone()),
            DeckDetailMenuOptions::Quit => DeckDetailMenuOptions::Quit,
        }
    }
}

impl DeckDetailMenuOptionsView {
    /// This option as chosen on the screen of the deck `deck_id` in the navigation
    /// state `state`: whatever it carried before, it now carries that deck's id, or
    /// that state.
    pub open spec fn with_context(self, deck_id: i64, state: AppStateView) -> Self {
        match self {
            DeckDetailMenuOptionsView::View(_) => DeckDetailMenuOptionsView::View(deck_id),
            DeckDetailMenuOptionsView::ListAllCards(_) => DeckDetailMenuOptionsView::ListAllCards(
                deck_id,
            ),
            DeckDetailMenuOptionsView::ListCards(_) => DeckDetailMenuOptionsView::ListCards(
                deck_id,
            ),
            DeckDetailMenuOptionsView::AddCard(_) => DeckDetailMenuOptionsView::AddCard(deck_id),
            DeckDetailMenuOptionsView::GoBack(_) => DeckDetailMenuOptionsView::GoBack(state),
            DeckDetailMenuOptionsView::Quit => DeckDetailMenuOptionsView::Quit,
        }
    }

    /// The deck that this option works on, if it works on one.
    pub open spec fn deck_id(self) -> Option<i64> {
        match self {
            DeckDetailMenuOptionsView::View(id) => Some(id),
            DeckDetailMenuOptionsView::ListAllCards(id) => Some(id),
            DeckDetailMenuOptionsView::ListCards(id) => Some(id),
            DeckDetailMenuOptionsView::AddCard(id) => Some(id),
            _ => None,
        }
    }
}

impl DeckDetailMenuOptions {
    /// This option as chosen on the screen of the deck `deck_id` in the navigation
    /// state `state`. A freshly parsed option carries placeholders; this puts the
    /// deck's id, or the state, in their place, for every option that carries one.
    pub fn with_context(self, deck_id: i64, state: &AppState) -> (r: Self)
        ensures
            r@ == self@.with_context(deck_id, state@),
    {
        match self {
            DeckDetailMenuOptions::View(_) => DeckDetailMenuOptions::View(deck_id),
            DeckDetailMenuOptions::ListAllCards(_) => DeckDetailMenuOptions::ListAllCards(deck_id),
            DeckDetailMenuOptions::ListCards(_) => DeckDetailMenuOptions::ListCards(deck_id),
            DeckDetailMenuOptions::AddCard(_) => DeckDetailMenuOptions::AddCard(deck_id),
            DeckDetailMenuOptions::GoBack(_) => DeckDetailMenuOptions::GoBack(state.clone()),
            DeckDetailMenuOptions::Quit => DeckDetailMenuOptions::Quit,
        }
    }
}

impl MenuOptions for DeckDetailMenuOptions {
    open spec fn spec_options() -> Seq<DeckDetailMenuOptionsView> {
        seq![
            DeckDetailMenuOptionsView::View(0),
            DeckDetailMenuOptionsView::ListAllCards(0),
            DeckDetailMenuOptionsView::ListCards(0),
            DeckDetailMenuOptionsView::AddCard(0),
            DeckDetailMenuOptionsView::GoBack(AppStateView::initial(User::spec_guest())),
            DeckDetailMenuOptionsView::Quit,
        ]
    }

    open spec fn spec_label(v: DeckDetailMenuOptionsView) -> Seq<char> {
        match v {
            DeckDetailMenuOptionsView::View(_) => "View"@,
            DeckDetailMenuOptionsView::ListAllCards(_) => "ListAllCards"@,
            DeckDetailMenuOptionsView::ListCards(_) => "ListCards"@,
            DeckDetailMenuOptionsView::AddCard(_) => "AddCard"@,
            DeckDetailMenuOptionsView::GoBack(_) => "GoBack"@,
            DeckDetailMenuOptionsView::Quit => "Quit"@,
        }
    }

    fn options() -> (r: Vec<Self>) {
        let mut options: Vec<Self> = Vec::new();
        options.push(DeckDetailMenuOptions::View(0));
        options.push(DeckDetailMenuOptions::ListAllCards(0));
        options.push(DeckDetailMenuOptions::ListCards(0));
        options.push(DeckDetailMenuOptions::AddCard(0));
        options.push(DeckDetailMenuOptions::GoBack(AppState::default()));
        options.push(DeckDetailMenuOptions::Quit);
        options
    }

    fn label(&self) -> (r: String) {
        match self {
            DeckDetailMenuOptions::View(_) => String::from_str("View"),
            DeckDetailMenuOptions::ListAllCards(_) => String::from_str("ListAllCards"),
            DeckDetailMenuOptions::ListCards(_) => String::from_str("ListCards"),
            DeckDetailMenuOptions::AddCard(_) => String::from_str("AddCard"),
            DeckDetailMenuOptions::GoBack(_) => String::from_str("GoBack"),
            DeckDetailMenuOptions::Quit => String::from_str("Quit"),
        }
    }
}

impl ProcessOption for DeckDetailMenuOptions {
    open spec fn spec_request(v: DeckDetailMenuOptionsView) -> Request {
        match v {
            DeckDetailMenuOptionsView::View(id) => Request::ViewDeck(id),
            DeckDetailMenuOptionsView::ListAllCards(_) => Request::ListAllCards,
            DeckDetailMenuOptionsView::ListCards(id) => Request::ListDeckCards(id),
            DeckDetailMenuOptionsView::AddCard(id) => Request::AddCardToDeck(id),
            DeckDetailMenuOptionsView::GoBack(_) => Request::Nothing,
            DeckDetailMenuOptionsView::Quit => Request::Nothing,
        }
    }

    /// The options that work on the deck lead back to the deck's screen; `GoBack`
    /// leads to the screen beneath the current one in the state it carries; `Quit`
    /// ends the application.
    open spec fn spec_process(v: DeckDetailMenuOptionsView, outcome: Outcome) -> (
        MenuState,
        bool,
    ) {
        match v {
            DeckDetailMenuOptionsView::View(id) => (MenuState::DeckDetailMenu(id), true),
            DeckDetailMenuOptionsView::ListAllCards(id) => (MenuState::DeckDetailMenu(id), true),
            DeckDetailMenuOptionsView::ListCards(id) => (MenuState::DeckDetailMenu(id), true),
            DeckDetailMenuOptionsView::AddCard(id) => (MenuState::DeckDetailMenu(id), true),
            DeckDetailMenuOptionsView::GoBack(state) => (state.previous_menu(), true),
            DeckDetailMenuOptionsView::Quit => (MenuState::DeckMenu, false),
        }
    }

    fn request(&self) -> (r: Request) {
        match self {
            DeckDetailMenuOptions::View(id) => Request::ViewDeck(*id),
            DeckDetailMenuOptions::ListAllCards(_) => Request::ListAllCards,
            DeckDetailMenuOptions::ListCards(id) => Request::ListDeckCards(*id),
            DeckDetailMenuOptions::AddCard(id) => Request::AddCardToDeck(*id),
            DeckDetailMenuOptions::GoBack(_) => Request::Nothing,
            DeckDetailMenuOptions::Quit => Request::Nothing,
        }
    }

    fn process(self, outcome: Outcome) -> (r: (MenuState, bool)) {
        match self {
            DeckDetailMenuOptions::View(id) => (MenuState::DeckDetailMenu(id), true),
            DeckDetailMenuOptions::ListAllCards(id) => (MenuState::DeckDetailMenu(id), true),
            DeckDetailMenuOptions::ListCards(id) => (MenuState::DeckDetailMenu(id), true),
            DeckDetailMenuOptions::AddCard(id) => (MenuState::DeckDetailMenu(id), true),
            DeckDetailMenuOptions::GoBack(state) => {
                let mut state: AppState = state;
                let previous_menu: MenuState = state.get_previous_menu();
                (previous_menu, true)
            },
            DeckDetailMenuOptions::Quit => (MenuState::DeckMenu, false),
        }
    }
}

/// The deck of the screen is threaded into every option chosen there: whichever
/// option of the menu is chosen on the screen of the deck `deck_id`, and whatever it
/// carried when parsed, an option that works on a deck then works on `deck_id`, asks
/// for work on that deck only, and leads back to that deck's screen.
pub proof fn law_deck_id_is_threaded(
    option: DeckDetailMenuOptionsView,
    deck_id: i64,
    state: AppStateView,
    outcome: Outcome,
)
    ensures
        option.deck_id() is Some ==> option.with_context(deck_id, state).deck_id() == Some(
            deck_id,
        ),
        option is AddCard ==> DeckDetailMenuOptions::spec_request(
            option.with_context(deck_id, state),
        ) == Request::AddCardToDeck(deck_id),
        option is View ==> DeckDetailMenuOptions::spec_request(
            option.with_context(deck_id, state),
        ) == Request::ViewDeck(deck_id),
        option is ListCards ==> DeckDetailMenuOptions::spec_request(
            option.with_context(deck_id, state),
        ) == Request::ListDeckCards(deck_id),
        option.deck_id() is Some ==> DeckDetailMenuOptions::spec_process(
            option.with_context(deck_id, state),
            outcome,
        ) == (MenuState::DeckDetailMenu(deck_id), true),
        option is GoBack ==> option.with_context(deck_id, state)
            == DeckDetailMenuOptionsView::GoBack(state),
{
}

} // verus!

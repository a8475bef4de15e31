//! The application as a model that messages update: the menus with their options,
//! the messages an option sends, and what each message does to the model.
//!
//! Nothing here reads or writes anything. Where a message needs work done outside
//! (a prompt, the store), `Model::update` names that work as a `DeckTask`; the caller
//! does it and hands what came of it to `complete_deck_msg`.

use crate::menus::traits::{choice_at, menu_line};
use crate::models::{Deck, DeckView, User, UserView};
use crate::text::{parse_usize, trim, trimmed, u64_to_string};
use vstd::prelude::*;

verus! {

/// A screen of the application. A deck's own screen carries the deck's name.
#[derive(Debug, PartialEq, Eq)]
pub enum Menu {
    Main,
    Deck,
    DeckDetail(String),
    Quit,
}

/// What a `Menu` is, in plain values.
pub enum MenuView {
    Main,
    Deck,
    DeckDetail(Seq<char>),
    Quit,
}

impl Menu {
    /// What this menu is, in plain values.
    pub open spec fn spec_view(&self) -> MenuView {
        match self {
            Menu::Main => MenuView::Main,
            Menu::Deck => MenuView::Deck,
            Menu::DeckDetail(name) => MenuView::DeckDetail(name@),
            Menu::Quit => MenuView::Quit,
        }
    }
}

impl Clone for Menu {
    fn clone(&self) -> (r: Self)
        ensures
            r.spec_view() == self.spec_view(),
    {
        match self {
            Menu::Main => Menu::Main,
            Menu::Deck => Menu::Deck,
            Menu::DeckDetail(name) => Menu::DeckDetail(name.clone()),
            Menu::Quit => Menu::Quit,
        }
    }
}

/// What an option of the deck menus asks for.
#[derive(Debug, Clone, Copy, PartialEq, Eq, Structural)]
pub enum MsgDeck {
    Create,
    Update,
    View,
    List,
    Delete,
    ListCards,
    ViewCard,
    AddCard,
    Review,
    Report,
    CreateCard,
}

/// What choosing an option tells the model.
#[derive(Debug, PartialEq, Eq)]
pub enum Msg {
    Navigate(Menu),
    Deck(MsgDeck),
    Stay,
    Back,
    Quit,
}

/// What a `Msg` is, in plain values.
pub enum MsgView {
    Navigate(MenuView),
    Deck(MsgDeck),
    Stay,
    Back,
    Quit,
}

impl View for Msg {
    type V = MsgView;

    open spec fn view(&self) -> MsgView {
        match self {
            Msg::Navigate(menu) => MsgView::Navigate(menu.spec_view()),
            Msg::Deck(m) => MsgView::Deck(*m),
            Msg::Stay => MsgView::Stay,
            Msg::Back => MsgView::Back,
            Msg::Quit => MsgView::Quit,
        }
    }
}

impl Clone for Msg {
    fn clone(&self) -> (r: Self)
        ensures
            r@ == self@,
    {
        match self {
            Msg::Navigate(menu) => Msg::Navigate(menu.clone()),
            Msg::Deck(m) => Msg::Deck(*m),
            Msg::Stay => Msg::Stay,
            Msg::Back => Msg::Back,
            Msg::Quit => Msg::Quit,
        }
    }
}

/// One line of a menu: the name shown and the message that choosing it sends.
#[derive(Debug, PartialEq, Eq)]
pub struct MenuOption {
    pub name: String,
    pub action: Msg,
}

/// What a `MenuOption` is, in plain values.
pub struct MenuOptionView {
    pub name: Seq<char>,
    pub action: MsgView,
}

impl View for MenuOption {
    type V = MenuOptionView;

    open spec fn view(&self) -> MenuOptionView {
        MenuOptionView { name: self.name@, action: self.action@ }
    }
}

impl Clone for MenuOption {
    fn clone(&self) -> (r: Self)
        ensures
            r@ == self@,
    {
        MenuOption { name: self.name.clone(), action: self.action.clone() }
    }
}

/// The option that shows `name` and sends `action`.
pub open spec fn entry(name: Seq<char>, action: MsgView) -> MenuOptionView {
    MenuOptionView { name, action }
}

impl MenuView {
    /// The options of this menu, in the order in which it numbers them.
    pub open spec fn options(self) -> Seq<MenuOptionView> {
        match self {
            MenuView::Main => seq![
                entry("Deck"@, MsgView::Navigate(MenuView::Deck)),
                entry("Quit"@, MsgView::Quit),
            ],
            MenuView::Deck => seq![
                entry("Create"@, MsgView::Deck(MsgDeck::Create)),
                entry("View"@, MsgView::Deck(MsgDeck::View)),
                entry("List"@, MsgView::Deck(MsgDeck::List)),
                entry("Back"@, MsgView::Back),
            ],
            MenuView::DeckDetail(_) => seq![
                entry("List"@, MsgView::Deck(MsgDeck::ListCards)),
                entry("Update"@, MsgView::Deck(MsgDeck::Update)),
                entry("Delete"@, MsgView::Deck(MsgDeck::Delete)),
                entry("Add card to deck"@, MsgView::Deck(MsgDeck::AddCard)),
                entry("Create card and add to deck"@, MsgView::Deck(MsgDeck::CreateCard)),
                entry("Review"@, MsgView::Deck(MsgDeck::Review)),
                entry("Report"@, MsgView::Deck(MsgDeck::Report)),
                entry("Back"@, MsgView::Back),
            ],
            MenuView::Quit => seq![],
        }
    }

    /// The message that the typed line `input` sends on this menu: that of the option
    /// whose number the line gives; `Stay` where it gives none.
    pub open spec fn message_for(self, input: Seq<char>) -> MsgView {
        match choice_at(self.options(), input) {
            Some(option) => option.action,
            None => MsgView::Stay,
        }
    }
}

fn make_entry(name: &str, action: Msg) -> (r: MenuOption)
    ensures
        r@ == entry(name@, action@),
{
    MenuOption { name: String::from_str(name), action }
}

impl Menu {
    /// Whether the two are the same screen.
    pub fn same_as(&self, other: &Menu) -> (r: bool)
        ensures
            r == (self.spec_view() == other.spec_view()),
    {
        match (self, other) {
            (Menu::Main, Menu::Main) => true,
            (Menu::Deck, Menu::Deck) => true,
            (Menu::DeckDetail(a), Menu::DeckDetail(b)) => *a == *b,
            (Menu::Quit, Menu::Quit) => true,
            _ => false,
        }
    }

    /// The options of this menu, in the order in which it numbers them.
    pub fn get_options(&self) -> (r: Vec<MenuOption>)
        ensures
            r@.len() == self.spec_view().options().len(),
            forall|i: int| 0 <= i < r@.len() ==> (#[trigger] r@[i])@ == self.spec_view().options()[i],
    {
        let mut options: Vec<MenuOption> = Vec::new();
        match self {
            Menu::Main => {
                options.push(make_entry("Deck", Msg::Navigate(Menu::Deck)));
                options.push(make_entry("Quit", Msg::Quit));
            },
            Menu::Deck => {
                options.push(make_entry("Create", Msg::Deck(MsgDeck::Create)));
                options.push(make_entry("View", Msg::Deck(MsgDeck::View)));
                options.push(make_entry("List", Msg::Deck(MsgDeck::List)));
                options.push(make_entry("Back", Msg::Back));
            },
            Menu::DeckDetail(_) => {
                options.push(make_entry("List", Msg::Deck(MsgDeck::ListCards)));
                options.push(make_entry("Update", Msg::Deck(MsgDeck::Update)));
                options.push(make_entry("Delete", Msg::Deck(MsgDeck::Delete)));
                options.push(make_entry("Add card to deck", Msg::Deck(MsgDeck::AddCard)));
                options.push(
                    make_entry("Create card and add to deck", Msg::Deck(MsgDeck::CreateCard)),
                );
                options.push(make_entry("Review", Msg::Deck(MsgDeck::Review)));
                options.push(make_entry("Report", Msg::Deck(MsgDeck::Report)));
                options.push(make_entry("Back", Msg::Back));
            },
            Menu::Quit => {},
        }
        options
    }

    /// The option that the typed line `input` chooses on this menu, if any.
    pub fn option_for(&self, input: &str) -> (r: Option<MenuOption>)
        ensures
            match r {
                Some(option) => choice_at(self.spec_view().options(), input@) == Some(option@),
                None => choice_at(self.spec_view().options(), input@) is None,
            },
    {
        let number: usize = match parse_usize(trim(input)) {
            Some(n) => n,
            None => { return None; },
        };
        let options: Vec<MenuOption> = self.get_options();
        if number > 0 && number <= options.len() {
            Some(options[number - 1].clone())
        } else {
            None
        }
    }

    /// The numbered lines of this menu, one for each option.
    pub fn view(&self) -> (r: Vec<String>)
        ensures
            r@.len() == self.spec_view().options().len(),
            forall|i: int|
                0 <= i < r@.len() ==> (#[trigger] r@[i])@ == menu_line(
                    (i + 1) as nat,
                    self.spec_view().options()[i].name,
                ),
    {
        let options: Vec<MenuOption> = self.get_options();
        let mut lines: Vec<String> = Vec::new();
        let mut i: usize = 0;
        while i < options.len()
            invariant
                i <= options@.len(),
                options@.len() == self.spec_view().options().len(),
                forall|k: int|
                    0 <= k < options@.len() ==> (#[trigger] options@[k])@ == self.spec_view().options()[k],
                lines@.len() == i,
                forall|k: int|
                    0 <= k < i ==> (#[trigger] lines@[k])@ == menu_line(
                        (k + 1) as nat,
                        self.spec_view().options()[k].name,
                    ),
            decreases options@.len() - i,
        {
            let mut line: String = u64_to_string((i + 1) as u64);
            line.append(". ");
            line.append(options[i].name.as_str());
            lines.push(line);
            i += 1;
        }
        lines
    }
}

/// The work that a deck message leaves to the caller: prompts and the store.
#[derive(Debug, PartialEq, Eq)]
pub enum DeckTask {
    /// Nothing is left to do.
    Nothing,
    /// Ask for a name and a description, and create that deck.
    Create,
    /// Ask for a name and a description, and give them to the deck `id`.
    Update { id: i64 },
    /// Ask which deck to view, and load the deck of that name.
    View,
    /// Delete the deck `name`.
    Delete { name: String },
    /// List all decks.
    List,
    /// List the cards of the deck.
    ListCards { deck_id: i64 },
    /// Let the user pick one of the deck's cards, and show it.
    ViewCard { deck_id: i64 },
    /// Ask for a card's id, and put that card into the deck.
    AddCard { deck_id: i64 },
    /// Ask for a card's two sides, create the card and put it into the deck.
    CreateCard { deck_id: i64 },
    /// Review the deck's cards, then ask whether to go again.
    Review { deck_id: i64 },
    /// Show the answers recorded for the deck.
    Report { deck_id: i64 },
}

/// What a `DeckTask` is, in plain values.
pub enum DeckTaskView {
    Nothing,
    Create,
    Update { id: i64 },
    View,
    Delete { name: Seq<char> },
    List,
    ListCards { deck_id: i64 },
    ViewCard { deck_id: i64 },
    AddCard { deck_id: i64 },
    CreateCard { deck_id: i64 },
    Review { deck_id: i64 },
    Report { deck_id: i64 },
}

impl View for DeckTask {
    type V = DeckTaskView;

    open spec fn view(&self) -> DeckTaskView {
        match self {
            DeckTask::Nothing => DeckTaskView::Nothing,
            DeckTask::Create => DeckTaskView::Create,
            DeckTask::Update { id } => DeckTaskView::Update { id: *id },
            DeckTask::View => DeckTaskView::View,
            DeckTask::Delete { name } => DeckTaskView::Delete { name: name@ },
            DeckTask::List => DeckTaskView::List,
            DeckTask::ListCards { deck_id } => DeckTaskView::ListCards { deck_id: *deck_id },
            DeckTask::ViewCard { deck_id } => DeckTaskView::ViewCard { deck_id: *deck_id },
            DeckTask::AddCard { deck_id } => DeckTaskView::AddCard { deck_id: *deck_id },
            DeckTask::CreateCard { deck_id } => DeckTaskView::CreateCard { deck_id: *deck_id },
            DeckTask::Review { deck_id } => DeckTaskView::Review { deck_id: *deck_id },
            DeckTask::Report { deck_id } => DeckTaskView::Report { deck_id: *deck_id },
        }
    }
}

/// What came of a `DeckTask`, as far as the model has to know.
#[derive(Debug, PartialEq)]
pub enum DeckDone {
    /// The task changed nothing that the model holds.
    Nothing,
    /// The chosen deck now goes by `name`.
    Updated { name: String },
    /// The user asked for the deck `name`, and `deck` is what the store holds of it.
    Viewed { name: String, deck: Deck },
    /// The chosen deck is gone.
    Deleted,
}

/// What a `DeckDone` is, in plain values.
pub enum DeckDoneView {
    Nothing,
    Updated { name: Seq<char> },
    Viewed { name: Seq<char>, deck: DeckView },
    Deleted,
}

impl View for DeckDone {
    type V = DeckDoneView;

    open spec fn view(&self) -> DeckDoneView {
        match self {
            DeckDone::Nothing => DeckDoneView::Nothing,
            DeckDone::Updated { name } => DeckDoneView::Updated { name: name@ },
            DeckDone::Viewed { name, deck } => DeckDoneView::Viewed { name: name@, deck: deck@ },
            DeckDone::Deleted => DeckDoneView::Deleted,
        }
    }
}

/// Why a message was not carried out.
#[derive(Debug, Clone, Copy, PartialEq, Eq, Structural)]
pub enum ModelError {
    /// The user asked to leave.
    Quit,
    /// The message works on the chosen deck, and no deck that the store knows is
    /// chosen.
    NoDeckSet,
    /// The message was sent from a screen that is only reached with a deck chosen,
    /// and none is: the program is at fault, not the user.
    DeckRequired,
    /// As `DeckRequired`, for a chosen deck that the store has not given an id.
    DeckIdRequired,
}

impl ModelError {
    /// Whether the program is at fault, so that the caller should abort rather than
    /// report.
    pub fn is_fault(&self) -> (r: bool)
        ensures
            r == (*self == ModelError::DeckRequired || *self == ModelError::DeckIdRequired),
    {
        match self {
            ModelError::DeckRequired => true,
            ModelError::DeckIdRequired => true,
            _ => false,
        }
    }

    /// The text that reports this error.
    pub fn message(&self) -> (r: String)
        ensures
            r@ == match *self {
                ModelError::Quit => "Quit"@,
                ModelError::NoDeckSet => "No deck set"@,
                ModelError::DeckRequired => "No deck set"@,
                ModelError::DeckIdRequired => "No deck id set"@,
            },
    {
        match self {
            ModelError::Quit => String::from_str("Quit"),
            ModelError::NoDeckSet => String::from_str("No deck set"),
            ModelError::DeckRequired => String::from_str("No deck set"),
            ModelError::DeckIdRequired => String::from_str("No deck id set"),
        }
    }
}

/// The state of the application: the screen shown, the screens to go back to, the
/// user and the deck that was chosen last.
#[derive(Debug, PartialEq)]
pub struct Model {
    current_menu: Menu,
    navigation_stack: Vec<Menu>,
    _user: Option<User>,
    deck: Option<Deck>,
}

/// What a `Model` is, in plain values. The last entry of `navigation_stack` is the
/// one that `Back` returns to.
pub struct ModelView {
    pub current_menu: MenuView,
    pub navigation_stack: Seq<MenuView>,
    pub user: Option<UserView>,
    pub deck: Option<DeckView>,
}

/// The screens of a history, in plain values.
pub open spec fn menu_views(stack: Seq<Menu>) -> Seq<MenuView> {
    stack.map_values(|m: Menu| m.spec_view())
}

/// The deck of a model, in plain values.
pub open spec fn deck_view(deck: Option<Deck>) -> Option<DeckView> {
    match deck {
        Some(d) => Some(d@),
        None => None,
    }
}

/// The user of a model, in plain values.
pub open spec fn user_view(user: Option<User>) -> Option<UserView> {
    match user {
        Some(u) => Some(u@),
        None => None,
    }
}

impl ModelView {
    /// The model a fresh application starts with.
    pub open spec fn initial() -> ModelView {
        ModelView {
            current_menu: MenuView::Main,
            navigation_stack: Seq::empty(),
            user: None,
            deck: None,
        }
    }

    /// The work that the deck message `msg` leaves to the caller, or why the message
    /// is not carried out.
    pub open spec fn deck_task(self, msg: MsgDeck) -> Result<DeckTaskView, ModelError> {
        match msg {
            MsgDeck::Create => Ok(DeckTaskView::Create),
            MsgDeck::View => Ok(DeckTaskView::View),
            MsgDeck::List => Ok(DeckTaskView::List),
            MsgDeck::Update => match self.deck {
                None => Err(ModelError::DeckRequired),
                Some(deck) => match deck.id {
                    None => Err(ModelError::DeckIdRequired),
                    Some(id) => Ok(DeckTaskView::Update { id }),
                },
            },
            MsgDeck::Delete => match self.deck {
                None => Err(ModelError::DeckRequired),
                Some(deck) => Ok(DeckTaskView::Delete { name: deck.name }),
            },
            MsgDeck::ListCards => match self.deck {
                None => Err(ModelError::NoDeckSet),
                Some(deck) => match deck.id {
                    None => Err(ModelError::NoDeckSet),
                    Some(id) => Ok(DeckTaskView::ListCards { deck_id: id }),
                },
            },
            MsgDeck::ViewCard => match self.deck {
                None => Err(ModelError::DeckRequired),
                Some(deck) => match deck.id {
                    None => Err(ModelError::NoDeckSet),
                    Some(id) => Ok(DeckTaskView::ViewCard { deck_id: id }),
                },
            },
            MsgDeck::AddCard => match self.deck {
                None => Err(ModelError::DeckRequired),
                Some(deck) => match deck.id {
                    None => Ok(DeckTaskView::Nothing),
                    Some(id) => Ok(DeckTaskView::AddCard { deck_id: id }),
                },
            },
            MsgDeck::CreateCard => match self.deck {
                None => Err(ModelError::DeckRequired),
                Some(deck) => match deck.id {
                    None => Ok(DeckTaskView::Nothing),
                    Some(id) => Ok(DeckTaskView::CreateCard { deck_id: id }),
                },
            },
            MsgDeck::Review => match self.deck {
                None => Err(ModelError::DeckRequired),
                Some(deck) => match deck.id {
                    None => Err(ModelError::NoDeckSet),
                    Some(id) => Ok(DeckTaskView::Review { deck_id: id }),
                },
            },
            MsgDeck::Report => match self.deck {
                None => Err(ModelError::DeckRequired),
                Some(deck) => match deck.id {
                    None => Err(ModelError::NoDeckSet),
                    Some(id) => Ok(DeckTaskView::Report { deck_id: id }),
                },
            },
        }
    }

    /// The model after the message `msg`. Only `Navigate` and `Back` change it:
    /// `Navigate` puts the screen being left on the history and shows the new one;
    /// `Back` shows the top of the history and takes it off, and does nothing where
    /// the history is empty.
    pub open spec fn after(self, msg: MsgView) -> ModelView {
        match msg {
            MsgView::Navigate(menu) => ModelView {
                current_menu: menu,
                navigation_stack: self.navigation_stack.push(self.current_menu),
                ..self
            },
            MsgView::Back => if self.navigation_stack.len() > 0 {
                ModelView {
                    current_menu: self.navigation_stack.last(),
                    navigation_stack: self.navigation_stack.drop_last(),
                    ..self
                }
            } else {
                self
            },
            _ => self,
        }
    }

    /// What `update` returns for the message `msg`.
    pub open spec fn reply(self, msg: MsgView) -> Result<DeckTaskView, ModelError> {
        match msg {
            MsgView::Quit => Err(ModelError::Quit),
            MsgView::Deck(m) => self.deck_task(m),
            _ => Ok(DeckTaskView::Nothing),
        }
    }

    /// The model after a deck task came out as `done`.
    pub open spec fn after_deck_task(self, done: DeckDoneView) -> ModelView {
        match done {
            DeckDoneView::Nothing => self,
            DeckDoneView::Updated { name } => {
                let menu = MenuView::DeckDetail(name);
                if self.navigation_stack.len() > 0 && self.navigation_stack.last() != menu {
                    ModelView {
                        current_menu: menu,
                        navigation_stack: self.navigation_stack.push(menu),
                        ..self
                    }
                } else {
                    self
                }
            },
            DeckDoneView::Viewed { name, deck } => ModelView {
                current_menu: MenuView::DeckDetail(name),
                navigation_stack: self.navigation_stack.push(MenuView::DeckDetail(name)),
                deck: Some(deck),
                ..self
            },
            DeckDoneView::Deleted => ModelView { current_menu: MenuView::Deck, ..self },
        }
    }
}

impl Model {
    /// What this model is, in plain values.
    pub closed spec fn spec_view(&self) -> ModelView {
        ModelView {
            current_menu: self.current_menu.spec_view(),
            navigation_stack: menu_views(self.navigation_stack@),
            user: user_view(self._user),
            deck: deck_view(self.deck),
        }
    }

    /// A model on the main menu, with nothing to go back to, no user and no deck.
    pub fn new() -> (r: Self)
        ensures
            r.spec_view() == ModelView::initial(),
    {
        let current_menu: Menu = Menu::Main;
        let navigation_stack: Vec<Menu> = Vec::new();
        assert(menu_views(navigation_stack@) =~= Seq::<MenuView>::empty());
        Model { current_menu, navigation_stack, _user: None, deck: None }
    }

    /// The screen shown.
    pub fn current_menu(&self) -> (r: &Menu)
        ensures
            r.spec_view() == self.spec_view().current_menu,
    {
        &self.current_menu
    }

    /// The deck chosen last, if any.
    pub fn deck(&self) -> (r: Option<&Deck>)
        ensures
            match r {
                Some(d) => self.spec_view().deck == Some(d@),
                None => self.spec_view().deck is None,
            },
    {
        self.deck.as_ref()
    }

    /// How many screens there are to go back to.
    pub fn history_len(&self) -> (r: usize)
        ensures
            r == self.spec_view().navigation_stack.len(),
    {
        self.navigation_stack.len()
    }

    /// The message that the typed line `input` sends on the current screen.
    pub fn get_user_input(&self, input: &str) -> (r: Msg)
        ensures
            r@ == self.spec_view().current_menu.message_for(input@),
    {
        match self.current_menu.option_for(input) {
            Some(option) => option.action,
            None => Msg::Stay,
        }
    }

    /// The numbered lines of the current screen.
    pub fn view(&self) -> (r: Vec<String>)
        ensures
            r@.len() == self.spec_view().current_menu.options().len(),
            forall|i: int|
                0 <= i < r@.len() ==> (#[trigger] r@[i])@ == menu_line(
                    (i + 1) as nat,
                    self.spec_view().current_menu.options()[i].name,
                ),
    {
        self.current_menu.view()
    }

    /// Carries out the message `msg` as far as the model goes, and says what is left
    /// for the caller to do: `Err(Quit)` to stop, a `DeckTask` to perform and then
    /// hand to `complete_deck_msg`, or nothing.
    pub fn update(&mut self, msg: Msg) -> (r: Result<DeckTask, ModelError>)
        ensures
            final(self).spec_view() == old(self).spec_view().after(msg@),
            match r {
                Ok(task) => old(self).spec_view().reply(msg@) == Ok::<DeckTaskView, ModelError>(
                    task@,
                ),
                Err(e) => old(self).spec_view().reply(msg@) == Err::<DeckTaskView, ModelError>(e),
            },
    {
        match msg {
            Msg::Navigate(menu) => {
                let ghost before = self.navigation_stack@;
                let left: Menu = self.current_menu.clone();
                self.navigation_stack.push(left);
                self.current_menu = menu;
                assert(menu_views(self.navigation_stack@) =~= menu_views(before).push(
                    left.spec_view(),
                ));
                Ok(DeckTask::Nothing)
            },
            Msg::Back => {
                let ghost before = self.navigation_stack@;
                match self.navigation_stack.pop() {
                    Some(menu) => {
                        assert(menu_views(self.navigation_stack@) =~= menu_views(
                            before,
                        ).drop_last());
                        self.current_menu = menu;
                    },
                    None => {},
                }
                Ok(DeckTask::Nothing)
            },
            Msg::Stay => Ok(DeckTask::Nothing),
            Msg::Quit => Err(ModelError::Quit),
            Msg::Deck(m) => handle_deck_msg(self, m),
        }
    }
}

/// The work that the deck message `msg` leaves to the caller, given what the model
/// holds; the model itself changes only in `complete_deck_msg`, once the work is done.
pub fn handle_deck_msg(model: &Model, msg: MsgDeck) -> (r: Result<DeckTask, ModelError>)
    ensures
        match r {
            Ok(task) => model.spec_view().deck_task(msg) == Ok::<DeckTaskView, ModelError>(task@),
            Err(e) => model.spec_view().deck_task(msg) == Err::<DeckTaskView, ModelError>(e),
        },
{
    match msg {
        MsgDeck::Create => Ok(DeckTask::Create),
        MsgDeck::View => Ok(DeckTask::View),
        MsgDeck::List => Ok(DeckTask::List),
        MsgDeck::Update => match &model.deck {
            None => Err(ModelError::DeckRequired),
            Some(deck) => match deck.id {
                None => Err(ModelError::DeckIdRequired),
                Some(id) => Ok(DeckTask::Update { id }),
            },
        },
        MsgDeck::Delete => match &model.deck {
            None => Err(ModelError::DeckRequired),
            Some(deck) => Ok(DeckTask::Delete { name: deck.name.clone() }),
        },
        MsgDeck::ListCards => match &model.deck {
            None => Err(ModelError::NoDeckSet),
            Some(deck) => match deck.id {
                None => Err(ModelError::NoDeckSet),
                Some(id) => Ok(DeckTask::ListCards { deck_id: id }),
            },
        },
        MsgDeck::ViewCard => match &model.deck {
            None => Err(ModelError::DeckRequired),
            Some(deck) => match deck.id {
                None => Err(ModelError::NoDeckSet),
                Some(id) => Ok(DeckTask::ViewCard { deck_id: id }),
            },
        },
        MsgDeck::AddCard => match &model.deck {
            None => Err(ModelError::DeckRequired),
            Some(deck) => match deck.id {
                None => Ok(DeckTask::Nothing),
                Some(id) => Ok(DeckTask::AddCard { deck_id: id }),
            },
        },
        MsgDeck::CreateCard => match &model.deck {
            None => Err(ModelError::DeckRequired),
            Some(deck) => match deck.id {
                None => Ok(DeckTask::Nothing),
                Some(id) => Ok(DeckTask::CreateCard { deck_id: id }),
            },
        },
        MsgDeck::Review => match &model.deck {
            None => Err(ModelError::DeckRequired),
            Some(deck) => match deck.id {
                None => Err(ModelError::NoDeckSet),
                Some(id) => Ok(DeckTask::Review { deck_id: id }),
            },
        },
        MsgDeck::Report => match &model.deck {
            None => Err(ModelError::DeckRequired),
            Some(deck) => match deck.id {
                None => Err(ModelError::NoDeckSet),
                Some(id) => Ok(DeckTask::Report { deck_id: id }),
            },
        },
    }
}

/// Brings the model up to date with what came of a deck task: an updated deck's
/// screen is entered under its new name unless it is the one just recorded; a viewed
/// deck becomes the chosen one and its screen is entered; after a delete the deck
/// menu is shown.
pub fn complete_deck_msg(model: &mut Model, done: DeckDone)
    ensures
        final(model).spec_view() == old(model).spec_view().after_deck_task(done@),
{
    let ghost before = model.navigation_stack@;
    match done {
        DeckDone::Nothing => {},
        DeckDone::Updated { name } => {
            let menu: Menu = Menu::DeckDetail(name);
            let depth: usize = model.navigation_stack.len();
            if depth > 0 {
                assert(menu_views(before).last() == before.last().spec_view());
                if !model.navigation_stack[depth - 1].same_as(&menu) {
                    model.navigation_stack.push(menu.clone());
                    model.current_menu = menu;
                    assert(menu_views(model.navigation_stack@) =~= menu_views(before).push(
                        menu.spec_view(),
                    ));
                }
            }
        },
        DeckDone::Viewed { name, deck } => {
            let menu: Menu = Menu::DeckDetail(name);
            model.navigation_stack.push(menu.clone());
            model.current_menu = menu;
            model.deck = Some(deck);
            assert(menu_views(model.navigation_stack@) =~= menu_views(before).push(
                menu.spec_view(),
            ));
        },
        DeckDone::Deleted => {
            model.current_menu = Menu::Deck;
        },
    }
}

/// Whether the line typed after a review asks to go again: it does where, without
/// the whitespace around it, it is the single letter `y`.
pub fn wants_another_round(input: &str) -> (r: bool)
    ensures
        r == (trimmed(input@) == "y"@),
{
    let answer: &str = trim(input);
    proof {
        reveal_strlit("y");
    }
    let r: bool = answer.unicode_len() == 1 && answer.get_char(0) == 'y';
    assert(r == (answer@ =~= "y"@));
    r
}

} // verus!

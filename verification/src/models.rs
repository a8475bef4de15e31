//! The records the application works with: users, decks and cards.

use vstd::prelude::*;

verus! {

/// Why a user could not be looked up.
#[derive(Debug, Clone, Copy, PartialEq, Eq, Structural)]
pub enum UserError {
    /// No user goes by that name.
    NotFound,
}

/// A person at the terminal.
#[derive(Debug, PartialEq)]
pub struct User {
    username: String,
    is_authenticated: bool,
    is_guest: bool,
}

/// What a `User` is, in plain values.
pub struct UserView {
    pub username: Seq<char>,
    pub is_authenticated: bool,
    pub is_guest: bool,
}

impl View for User {
    type V = UserView;

    closed spec fn view(&self) -> UserView {
        UserView {
            username: self.username@,
            is_authenticated: self.is_authenticated,
            is_guest: self.is_guest,
        }
    }
}

impl Clone for User {
    fn clone(&self) -> (r: Self)
        ensures
            r@ == self@,
    {
        User {
            username: self.username.clone(),
            is_authenticated: self.is_authenticated,
            is_guest: self.is_guest,
        }
    }
}

impl User {
    /// The user that stands for anyone who has not logged in.
    pub open spec fn spec_guest() -> UserView {
        UserView { username: "guest"@, is_authenticated: false, is_guest: true }
    }

    /// The user that stands for anyone who has not logged in.
    pub fn guest() -> (r: Self)
        ensures
            r@ == Self::spec_guest(),
    {
        Self { username: String::from_str("guest"), is_authenticated: false, is_guest: true }
    }

    /// The user of that name, not yet authenticated. Every name is known.
    pub fn find_by_username(username: String) -> (r: Result<Self, UserError>)
        ensures
            r matches Ok(u) && u@ == (UserView {
                username: username@,
                is_authenticated: false,
                is_guest: false,
            }),
    {
        Ok(Self { username, is_authenticated: false, is_guest: false })
    }

    /// The name of this user.
    pub fn username(&self) -> (r: &str)
        ensures
            r@ == self@.username,
    {
        self.username.as_str()
    }

    /// Whether this user has been authenticated.
    pub fn is_authenticated(&self) -> (r: bool)
        ensures
            r == self@.is_authenticated,
    {
        self.is_authenticated
    }

    /// Whether this user is the guest.
    pub fn is_guest(&self) -> (r: bool)
        ensures
            r == self@.is_guest,
    {
        self.is_guest
    }
}

/// A flashcard; `id` is `None` until the store has assigned one.
#[derive(Debug, PartialEq)]
pub struct Card {
    pub id: Option<i64>,
    pub front: String,
    pub back: String,
}

/// What a `Card` is, in plain values.
pub struct CardView {
    pub id: Option<i64>,
    pub front: Seq<char>,
    pub back: Seq<char>,
}

impl View for Card {
    type V = CardView;

    open spec fn view(&self) -> CardView {
        CardView { id: self.id, front: self.front@, back: self.back@ }
    }
}

impl Clone for Card {
    fn clone(&self) -> (r: Self)
        ensures
            r@ == self@,
    {
        Card { id: self.id, front: self.front.clone(), back: self.back.clone() }
    }
}

/// A card as a listing shows it.
#[derive(Debug, PartialEq)]
pub struct ListCard {
    pub id: i64,
    pub front: String,
    pub back: String,
}

/// A deck as a listing shows it.
#[derive(Debug, PartialEq)]
pub struct ListDeck {
    pub id: i64,
    pub name: String,
    pub description: Option<String>,
}

/// A named collection of cards; `id` is `None` until the store has assigned one.
#[derive(Debug, PartialEq)]
pub struct Deck {
    pub id: Option<i64>,
    pub name: String,
    pub description: Option<String>,
}

/// What a `Deck` is, in plain values.
pub struct DeckView {
    pub id: Option<i64>,
    pub name: Seq<char>,
    pub description: Option<Seq<char>>,
}

/// The characters of an optional text.
pub open spec fn opt_text(t: Option<String>) -> Option<Seq<char>> {
    match t {
        Some(s) => Some(s@),
        None => None,
    }
}

impl View for Deck {
    type V = DeckView;

    open spec fn view(&self) -> DeckView {
        DeckView { id: self.id, name: self.name@, description: opt_text(self.description) }
    }
}

} // verus!

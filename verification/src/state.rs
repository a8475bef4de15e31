//! Where the user is, and how they got there.

use crate::menus::MenuState;
use crate::models::{User, UserView};
use vstd::prelude::*;

verus! {

/// The current screen, the screens visited on the way to it, and the user.
#[derive(Debug, PartialEq)]
pub struct AppState {
    current_menu: MenuState,
    navigation_stack: Vec<MenuState>,
    user: User,
}

/// How a turn of the application ends. Either way the work of the turn is kept:
/// what the store was told before the user chose to leave stays told.
#[derive(Debug, Clone, Copy, PartialEq, Eq, Structural)]
pub enum TurnEnd {
    /// Commit the work of the turn and take the next turn.
    CommitAndContinue,
    /// Commit the work of the turn and stop.
    CommitAndStop,
}

/// What an `AppState` is, in plain values. The last entry of `navigation_stack` is
/// the most recent one.
pub struct AppStateView {
    pub current_menu: MenuState,
    pub navigation_stack: Seq<MenuState>,
    pub user: UserView,
}

impl AppStateView {
    /// The history always holds at least the screen the application started on,
    /// and its top entry is the current screen.
    pub open spec fn wf(self) -> bool {
        &&& self.navigation_stack.len() > 0
        &&& self.navigation_stack.last() == self.current_menu
    }

    /// The state a fresh application starts in.
    pub open spec fn initial(user: UserView) -> AppStateView {
        AppStateView {
            current_menu: MenuState::MainMenu,
            navigation_stack: seq![MenuState::MainMenu],
            user,
        }
    }

    /// The state after moving to `new_menu`: unchanged where that is the current
    /// screen already, else with `new_menu` on top of the history and current.
    pub open spec fn navigate(self, new_menu: MenuState) -> AppStateView {
        if self.current_menu == new_menu {
            self
        } else {
            AppStateView {
                current_menu: new_menu,
                navigation_stack: self.navigation_stack.push(new_menu),
                user: self.user,
            }
        }
    }

    /// The history after going back once: without its top entry, unless that is the
    /// only one, which stays as the floor.
    pub open spec fn history_after_back(self) -> Seq<MenuState> {
        if self.navigation_stack.len() > 1 {
            self.navigation_stack.drop_last()
        } else {
            self.navigation_stack
        }
    }

    /// The screen that going back lands on: the top of the history that is left;
    /// the main menu where a history holds nothing.
    pub open spec fn previous_menu(self) -> MenuState {
        if self.history_after_back().len() > 0 {
            self.history_after_back().last()
        } else {
            MenuState::MainMenu
        }
    }

    /// The state after going back once.
    pub open spec fn back(self) -> AppStateView {
        AppStateView {
            current_menu: self.previous_menu(),
            navigation_stack: self.history_after_back(),
            user: self.user,
        }
    }
}

impl View for AppState {
    type V = AppStateView;

    closed spec fn view(&self) -> AppStateView {
        AppStateView {
            current_menu: self.current_menu,
            navigation_stack: self.navigation_stack@,
            user: self.user@,
        }
    }
}

impl Clone for AppState {
    fn clone(&self) -> (r: Self)
        ensures
            r@ == self@,
    {
        let stack: Vec<MenuState> = self.navigation_stack.clone();
        assert(stack@ =~= self.navigation_stack@);
        AppState { current_menu: self.current_menu, navigation_stack: stack, user: self.user.clone() }
    }
}

impl Default for AppState {
    fn default() -> (r: Self)
        ensures
            r@ == AppStateView::initial(User::spec_guest()),
    {
        Self::new(User::guest())
    }
}

impl AppState {
    /// A state on the main menu, with that menu as the whole history.
    pub fn new(user: User) -> (r: Self)
        ensures
            r@ == AppStateView::initial(user@),
            r@.wf(),
    {
        let mut stack: Vec<MenuState> = Vec::new();
        stack.push(MenuState::MainMenu);
        assert(stack@ =~= seq![MenuState::MainMenu]);
        Self { current_menu: MenuState::MainMenu, navigation_stack: stack, user }
    }

    /// Moves to `new_menu`. Moving to the current screen changes nothing.
    pub fn navigate(&mut self, new_menu: MenuState)
        ensures
            final(self)@ == old(self)@.navigate(new_menu),
            old(self)@.wf() ==> final(self)@.wf(),
    {
        if self.current_menu == new_menu {
            return ;
        }
        self.navigation_stack.push(new_menu);
        self.current_menu = new_menu;
    }

    /// Goes back: drops the screen being left from the history and lands on the one
    /// beneath it. On the first screen there is nothing to drop, and it stays.
    pub fn get_previous_menu(&mut self) -> (r: MenuState)
        ensures
            final(self)@ == old(self)@.back(),
            r == old(self)@.previous_menu(),
            old(self)@.wf() ==> final(self)@.wf(),
    {
        if self.navigation_stack.len() > 1 {
            self.navigation_stack.pop();
        }
        let depth: usize = self.navigation_stack.len();
        let previous_menu: MenuState = if depth > 0 {
            self.navigation_stack[depth - 1]
        } else {
            MenuState::MainMenu
        };
        self.current_menu = previous_menu;
        previous_menu
    }

    /// Ends a turn that led to the screen `next`: moves there, and says whether the
    /// application takes another turn.
    pub fn finish_turn(&mut self, next: MenuState, keep_running: bool) -> (r: TurnEnd)
        ensures
            final(self)@ == old(self)@.navigate(next),
            old(self)@.wf() ==> final(self)@.wf(),
            r == if keep_running {
                TurnEnd::CommitAndContinue
            } else {
                TurnEnd::CommitAndStop
            },
    {
        self.navigate(next);
        if keep_running {
            TurnEnd::CommitAndContinue
        } else {
            TurnEnd::CommitAndStop
        }
    }

    /// The screen the user is on.
    pub fn current(&self) -> (r: MenuState)
        ensures
            r == self@.current_menu,
    {
        self.current_menu
    }

    /// How many screens the history holds.
    pub fn history_len(&self) -> (r: usize)
        ensures
            r == self@.navigation_stack.len(),
    {
        self.navigation_stack.len()
    }

    /// The user of this session.
    pub fn user(&self) -> (r: &User)
        ensures
            r@ == self@.user,
    {
        &self.user
    }
}

/// Moving to the same screen twice in a row is the same as moving there once: the
/// second move leaves the state, and so the length of the history, as it was.
pub proof fn law_navigate_idempotent(s: AppStateView, menu: MenuState)
    ensures
        s.navigate(menu).navigate(menu) == s.navigate(menu),
        s.navigate(menu).navigate(menu).navigation_stack.len() == s.navigate(
            menu,
        ).navigation_stack.len(),
{
}

/// A move adds at most one entry to the history, and none is ever lost by it.
pub proof fn law_navigate_grows_history(s: AppStateView, menu: MenuState)
    ensures
        s.navigation_stack.len() <= s.navigate(menu).navigation_stack.len()
            <= s.navigation_stack.len() + 1,
        s.navigate(menu).navigation_stack.subrange(0, s.navigation_stack.len() as int)
            == s.navigation_stack,
        s.navigate(menu).current_menu == menu,
{
    assert(s.navigate(menu).navigation_stack.subrange(0, s.navigation_stack.len() as int)
        =~= s.navigation_stack);
}

/// After moving to `a` and then to a different screen `b`, going back lands on `a`
/// and leaves the history as it was after the move to `a`.
pub proof fn law_back_after_two_moves(s: AppStateView, a: MenuState, b: MenuState)
    requires
        s.wf(),
        a != b,
    ensures
        s.navigate(a).navigate(b).previous_menu() == a,
        s.navigate(a).navigate(b).back() == s.navigate(a),
{
    let after_a = s.navigate(a);
    let after_b = after_a.navigate(b);
    assert(after_b.navigation_stack.drop_last() =~= after_a.navigation_stack);
}

/// Going back never empties the history: from a valid state it gives a valid state,
/// and on the first screen it changes nothing.
pub proof fn law_back_has_floor(s: AppStateView)
    requires
        s.wf(),
    ensures
        s.back().wf(),
        s.navigation_stack.len() == 1 ==> s.back() == s,
{
}

} // verus!

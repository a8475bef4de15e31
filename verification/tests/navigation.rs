use flashcards::menus::MenuState;
use flashcards::models::User;
use flashcards::state::{AppState, TurnEnd};

#[test]
fn a_new_state_is_on_the_main_menu() {
    let state = AppState::new(User::guest());
    assert_eq!(state.current(), MenuState::MainMenu);
    assert_eq!(state.history_len(), 1);
    assert_eq!(state.user(), &User::guest());
    assert_eq!(AppState::default(), AppState::new(User::guest()));
}

#[test]
fn navigate_pushes_the_new_screen() {
    let mut state = AppState::default();
    state.navigate(MenuState::DeckMenu);
    assert_eq!(state.current(), MenuState::DeckMenu);
    assert_eq!(state.history_len(), 2);
    state.navigate(MenuState::DeckDetailMenu(4));
    assert_eq!(state.current(), MenuState::DeckDetailMenu(4));
    assert_eq!(state.history_len(), 3);
}

#[test]
fn navigate_to_the_same_screen_twice_leaves_the_history_unchanged() {
    let screens: Vec<MenuState> = vec![
        MenuState::MainMenu,
        MenuState::DeckMenu,
        MenuState::DeckDetailMenu(3),
        MenuState::CardMenu,
        MenuState::CardSubMenu,
    ];
    for screen in screens {
        let mut state = AppState::default();
        state.navigate(MenuState::CardMenu);
        state.navigate(screen);
        let once = state.clone();
        let len: usize = state.history_len();
        state.navigate(screen);
        assert_eq!(state.history_len(), len);
        assert_eq!(state, once);
    }
}

#[test]
fn deck_screens_of_two_decks_are_two_screens() {
    let mut state = AppState::default();
    state.navigate(MenuState::DeckDetailMenu(1));
    state.navigate(MenuState::DeckDetailMenu(2));
    assert_eq!(state.history_len(), 3);
    assert_eq!(state.get_previous_menu(), MenuState::DeckDetailMenu(1));
}

#[test]
fn going_back_after_two_moves_lands_on_the_first() {
    let mut state = AppState::default();
    state.navigate(MenuState::DeckMenu);
    let after_first = state.clone();
    state.navigate(MenuState::DeckDetailMenu(7));
    assert_eq!(state.get_previous_menu(), MenuState::DeckMenu);
    assert_eq!(state.current(), MenuState::DeckMenu);
    assert_eq!(state.history_len(), 2);
    assert_eq!(state, after_first);
}

#[test]
fn going_back_goes_one_level_at_a_time() {
    let mut state = AppState::default();
    state.navigate(MenuState::CardMenu);
    state.navigate(MenuState::CardSubMenu);
    assert_eq!(state.get_previous_menu(), MenuState::CardMenu);
    assert_eq!(state.get_previous_menu(), MenuState::MainMenu);
    assert_eq!(state.history_len(), 1);
}

#[test]
fn going_back_from_the_first_screen_stays_there() {
    let mut state = AppState::default();
    assert_eq!(state.get_previous_menu(), MenuState::MainMenu);
    assert_eq!(state.get_previous_menu(), MenuState::MainMenu);
    assert_eq!(state.history_len(), 1);
    assert_eq!(state.current(), MenuState::MainMenu);
    assert_eq!(state, AppState::default());
}

#[test]
fn a_turn_moves_and_says_whether_to_go_on() {
    let mut state = AppState::default();
    assert_eq!(state.finish_turn(MenuState::DeckMenu, true), TurnEnd::CommitAndContinue);
    assert_eq!(state.current(), MenuState::DeckMenu);
    assert_eq!(state.finish_turn(MenuState::MainMenu, false), TurnEnd::CommitAndStop);
    assert_eq!(state.current(), MenuState::MainMenu);
    assert_eq!(state.history_len(), 3);
}

#[test]
fn users_are_guests_or_named() {
    let guest = User::guest();
    assert_eq!(guest.username(), "guest");
    assert!(guest.is_guest());
    assert!(!guest.is_authenticated());
    let ada = User::find_by_username("ada".to_string()).unwrap();
    assert_eq!(ada.username(), "ada");
    assert!(!ada.is_guest());
    assert!(!ada.is_authenticated());
    assert_eq!(ada.clone(), ada);
    assert_ne!(ada, guest);
}

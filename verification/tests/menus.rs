use flashcards::menus::card::{CardMenuOptions, CardSubMenuOptions};
use flashcards::menus::deck::{DeckDetailMenuOptions, DeckMenuOptions};
use flashcards::menus::traits::{DecisionMaker, MenuOptions, Outcome, ProcessOption, Request};
use flashcards::menus::utils::{card_details, deck_details, new_card_sides, parse_id, parse_input};
use flashcards::menus::{MenuChoice, MenuOption, MenuState};
use flashcards::models::User;
use flashcards::state::AppState;

fn deep_state() -> AppState {
    let mut state = AppState::new(User::find_by_username("ada".to_string()).unwrap());
    state.navigate(MenuState::DeckMenu);
    state.navigate(MenuState::DeckDetailMenu(7));
    state
}

#[test]
fn mod_test_parse_input() {
    assert_eq!(parse_input::<CardMenuOptions>("1"), Some(CardMenuOptions::Create));
    assert_eq!(parse_input::<CardMenuOptions>("2"), Some(CardMenuOptions::List));
    assert_eq!(parse_input::<CardMenuOptions>("3"), Some(CardMenuOptions::Update));
    assert_eq!(parse_input::<CardMenuOptions>("4"), Some(CardMenuOptions::Delete));
    assert_eq!(parse_input::<CardMenuOptions>("-1"), None);
}

#[test]
fn every_number_of_a_menu_chooses_the_option_at_that_position() {
    let card_options: Vec<CardMenuOptions> = CardMenuOptions::options();
    assert_eq!(card_options.len(), 8);
    for (i, option) in card_options.into_iter().enumerate() {
        assert_eq!(parse_input::<CardMenuOptions>(&(i + 1).to_string()), Some(option));
    }
    let deck_options: Vec<DeckMenuOptions> = DeckMenuOptions::options();
    assert_eq!(deck_options.len(), 5);
    for (i, option) in deck_options.into_iter().enumerate() {
        assert_eq!(parse_input::<DeckMenuOptions>(&(i + 1).to_string()), Some(option));
    }
    let detail_options: Vec<DeckDetailMenuOptions> = DeckDetailMenuOptions::options();
    assert_eq!(detail_options.len(), 6);
    for (i, option) in detail_options.into_iter().enumerate() {
        assert_eq!(parse_input::<DeckDetailMenuOptions>(&(i + 1).to_string()), Some(option));
    }
    let sub_options: Vec<CardSubMenuOptions> = CardSubMenuOptions::options();
    assert_eq!(sub_options.len(), 4);
    for (i, option) in sub_options.into_iter().enumerate() {
        assert_eq!(parse_input::<CardSubMenuOptions>(&(i + 1).to_string()), Some(option));
    }
    let main_options: Vec<MenuOption> = MenuOption::options();
    assert_eq!(main_options.len(), 3);
    for (i, option) in main_options.into_iter().enumerate() {
        assert_eq!(parse_input::<MenuOption>(&(i + 1).to_string()), Some(option));
    }
    let screens: Vec<MenuState> = MenuState::options();
    assert_eq!(screens.len(), 5);
    for (i, option) in screens.into_iter().enumerate() {
        assert_eq!(parse_input::<MenuState>(&(i + 1).to_string()), Some(option));
    }
}

#[test]
fn the_options_come_in_their_menu_order() {
    assert_eq!(
        CardMenuOptions::options(),
        vec![
            CardMenuOptions::Create,
            CardMenuOptions::List,
            CardMenuOptions::Update,
            CardMenuOptions::Delete,
            CardMenuOptions::GoToMainMenu,
            CardMenuOptions::GoToSubMenu,
            CardMenuOptions::GoBack(AppState::default()),
            CardMenuOptions::Quit,
        ]
    );
    assert_eq!(
        DeckDetailMenuOptions::options(),
        vec![
            DeckDetailMenuOptions::View(0),
            DeckDetailMenuOptions::ListAllCards(0),
            DeckDetailMenuOptions::ListCards(0),
            DeckDetailMenuOptions::AddCard(0),
            DeckDetailMenuOptions::GoBack(AppState::default()),
            DeckDetailMenuOptions::Quit,
        ]
    );
    assert_eq!(
        DeckMenuOptions::options(),
        vec![
            DeckMenuOptions::Create,
            DeckMenuOptions::List,
            DeckMenuOptions::Update,
            DeckMenuOptions::Delete,
            DeckMenuOptions::ChooseDeck,
        ]
    );
    assert_eq!(
        CardSubMenuOptions::options(),
        vec![
            CardSubMenuOptions::Front,
            CardSubMenuOptions::Back,
            CardSubMenuOptions::GoToCardMenu,
            CardSubMenuOptions::Quit,
        ]
    );
    assert_eq!(MenuOption::options(), vec![MenuOption::DeckMenu, MenuOption::CardMenu, MenuOption::Quit]);
    assert_eq!(
        MenuState::options(),
        vec![
            MenuState::MainMenu,
            MenuState::DeckMenu,
            MenuState::DeckDetailMenu(0),
            MenuState::CardMenu,
            MenuState::CardSubMenu,
        ]
    );
}

#[test]
fn anything_but_a_number_of_the_menu_chooses_nothing() {
    let lines: Vec<&str> = vec!["0", "9", "-1", "-0", "", " ", "abc", "1a", "Create", "1.0", "1 2", "99999999999999999999999", "\u{662}"];
    for line in lines {
        assert_eq!(parse_input::<CardMenuOptions>(line), None);
        assert_eq!(CardMenuOptions::from_input(line), None);
    }
    assert_eq!(parse_input::<MenuOption>("4"), None);
    assert_eq!(parse_input::<CardSubMenuOptions>("5"), None);
    assert_eq!(parse_input::<DeckMenuOptions>("6"), None);
    assert_eq!(parse_input::<DeckDetailMenuOptions>("7"), None);
}

#[test]
fn a_choice_may_have_whitespace_around_it_and_a_plus_sign() {
    assert_eq!(parse_input::<CardMenuOptions>(" 8\n"), Some(CardMenuOptions::Quit));
    assert_eq!(parse_input::<CardMenuOptions>("\t5 \r\n"), Some(CardMenuOptions::GoToMainMenu));
    assert_eq!(parse_input::<CardMenuOptions>("+6"), Some(CardMenuOptions::GoToSubMenu));
    assert_eq!(parse_input::<CardMenuOptions>("003"), Some(CardMenuOptions::Update));
    assert_eq!(CardMenuOptions::from_input("1\n"), Some(CardMenuOptions::Create));
}

#[test]
fn labels_are_the_names_of_the_options() {
    assert_eq!(CardMenuOptions::GoBack(AppState::default()).label(), "GoBack");
    assert_eq!(CardMenuOptions::GoToSubMenu.label(), "GoToSubMenu");
    assert_eq!(DeckDetailMenuOptions::ListAllCards(3).label(), "ListAllCards");
    assert_eq!(DeckMenuOptions::ChooseDeck.label(), "ChooseDeck");
    assert_eq!(CardSubMenuOptions::GoToCardMenu.label(), "GoToCardMenu");
    assert_eq!(MenuOption::Quit.label(), "Quit");
    assert_eq!(MenuState::DeckDetailMenu(9).label(), "DeckDetailMenu");
}

#[test]
fn a_menu_is_a_heading_and_numbered_lines() {
    assert_eq!(
        CardSubMenuOptions::menu_lines(),
        vec![
            "What would you like to do?".to_string(),
            "1. Front".to_string(),
            "2. Back".to_string(),
            "3. GoToCardMenu".to_string(),
            "4. Quit".to_string(),
        ]
    );
    assert_eq!(
        MenuState::DeckDetailMenu(5).menu_lines(),
        vec![
            "What would you like to do?".to_string(),
            "1. View".to_string(),
            "2. ListAllCards".to_string(),
            "3. ListCards".to_string(),
            "4. AddCard".to_string(),
            "5. GoBack".to_string(),
            "6. Quit".to_string(),
        ]
    );
    assert_eq!(MenuState::MainMenu.menu_lines(), MenuOption::menu_lines());
    assert_eq!(MenuState::DeckMenu.menu_lines(), DeckMenuOptions::menu_lines());
    assert_eq!(MenuState::CardMenu.menu_lines(), CardMenuOptions::menu_lines());
    assert_eq!(MenuState::CardMenu.menu_lines().len(), 9);
    assert_eq!(MenuState::CardSubMenu.menu_lines(), CardSubMenuOptions::menu_lines());
}

#[test]
fn add_card_on_the_screen_of_deck_seven_works_on_deck_seven() {
    let state = deep_state();
    let parsed = parse_input::<DeckDetailMenuOptions>("4").unwrap();
    assert_eq!(parsed, DeckDetailMenuOptions::AddCard(0));
    let choice = MenuState::DeckDetailMenu(7).make_decision("4", &state).unwrap();
    assert_eq!(choice, MenuChoice::DeckDetail(DeckDetailMenuOptions::AddCard(7)));
    assert_eq!(choice.request(), Request::AddCardToDeck(7));
    assert_eq!(choice.process(Outcome::Done), (MenuState::DeckDetailMenu(7), true));
}

#[test]
fn the_deck_id_reaches_every_option_that_carries_one() {
    let state = deep_state();
    let ids: Vec<i64> = vec![7, -3, 0, i64::MAX];
    for id in ids {
        let screen = MenuState::DeckDetailMenu(id);
        assert_eq!(
            screen.make_decision("1", &state),
            Some(MenuChoice::DeckDetail(DeckDetailMenuOptions::View(id)))
        );
        assert_eq!(
            screen.make_decision("2", &state),
            Some(MenuChoice::DeckDetail(DeckDetailMenuOptions::ListAllCards(id)))
        );
        assert_eq!(
            screen.make_decision("3", &state),
            Some(MenuChoice::DeckDetail(DeckDetailMenuOptions::ListCards(id)))
        );
        assert_eq!(
            screen.make_decision("4", &state),
            Some(MenuChoice::DeckDetail(DeckDetailMenuOptions::AddCard(id)))
        );
        assert_eq!(
            screen.make_decision("5", &state),
            Some(MenuChoice::DeckDetail(DeckDetailMenuOptions::GoBack(state.clone())))
        );
        assert_eq!(screen.make_decision("6", &state), Some(MenuChoice::DeckDetail(DeckDetailMenuOptions::Quit)));
        assert_eq!(screen.make_decision("7", &state), None);
    }
    assert_eq!(
        DeckDetailMenuOptions::ListCards(1).with_context(2, &state),
        DeckDetailMenuOptions::ListCards(2)
    );
    assert_eq!(DeckDetailMenuOptions::Quit.with_context(2, &state), DeckDetailMenuOptions::Quit);
}

#[test]
fn each_screen_chooses_from_its_own_menu() {
    let state = deep_state();
    assert_eq!(MenuState::MainMenu.make_decision("1", &state), Some(MenuChoice::Main(MenuOption::DeckMenu)));
    assert_eq!(MenuState::MainMenu.make_decision("3", &state), Some(MenuChoice::Main(MenuOption::Quit)));
    assert_eq!(MenuState::MainMenu.make_decision("4", &state), None);
    assert_eq!(MenuState::DeckMenu.make_decision("5", &state), Some(MenuChoice::Deck(DeckMenuOptions::ChooseDeck)));
    assert_eq!(MenuState::CardMenu.make_decision("1", &state), Some(MenuChoice::Card(CardMenuOptions::Create)));
    assert_eq!(
        MenuState::CardMenu.make_decision("7", &state),
        Some(MenuChoice::Card(CardMenuOptions::GoBack(state.clone())))
    );
    assert_eq!(
        MenuState::CardSubMenu.make_decision(" 2 ", &state),
        Some(MenuChoice::CardSub(CardSubMenuOptions::Back))
    );
    assert_eq!(MenuState::CardSubMenu.make_decision("x", &state), None);
    assert_eq!(MenuState::DeckMenu.make_decision("", &state), None);
}

#[test]
fn a_line_that_chooses_nothing_changes_nothing() {
    let state = deep_state();
    let before = state.clone();
    assert_eq!(MenuState::DeckDetailMenu(7).make_decision("nonsense", &state), None);
    assert_eq!(MenuState::DeckDetailMenu(7).make_decision("0", &state), None);
    assert_eq!(state, before);
}

#[test]
fn main_menu_options_hand_over_to_the_menu_they_name() {
    assert_eq!(MenuOption::DeckMenu.request(), Request::Resolve(MenuState::DeckMenu));
    assert_eq!(MenuOption::CardMenu.request(), Request::Resolve(MenuState::CardMenu));
    assert_eq!(MenuOption::Quit.request(), Request::Nothing);
    assert_eq!(
        MenuOption::DeckMenu.process(Outcome::Resolved { next: MenuState::DeckDetailMenu(2), keep_running: true }),
        (MenuState::DeckDetailMenu(2), true)
    );
    assert_eq!(
        MenuOption::CardMenu.process(Outcome::Resolved { next: MenuState::MainMenu, keep_running: false }),
        (MenuState::MainMenu, false)
    );
    assert_eq!(MenuOption::DeckMenu.process(Outcome::Done), (MenuState::DeckMenu, true));
    assert_eq!(MenuOption::CardMenu.process(Outcome::Done), (MenuState::CardMenu, true));
    assert_eq!(MenuOption::Quit.process(Outcome::Done), (MenuState::MainMenu, false));
}

#[test]
fn deck_menu_options_lead_back_to_the_deck_menu() {
    assert_eq!(DeckMenuOptions::Create.request(), Request::CreateDeck);
    assert_eq!(DeckMenuOptions::List.request(), Request::ListDecks);
    assert_eq!(DeckMenuOptions::Update.request(), Request::UpdateDeck);
    assert_eq!(DeckMenuOptions::Delete.request(), Request::DeleteDeck);
    assert_eq!(DeckMenuOptions::ChooseDeck.request(), Request::ChooseDeck);
    for option in DeckMenuOptions::options() {
        assert_eq!(option.process(Outcome::Done), (MenuState::DeckMenu, true));
    }
    assert_eq!(
        DeckMenuOptions::Create.process(Outcome::DeckLookup { id: 4, exists: true }),
        (MenuState::DeckMenu, true)
    );
}

#[test]
fn choosing_a_deck_enters_it_only_if_it_exists() {
    assert_eq!(
        DeckMenuOptions::ChooseDeck.process(Outcome::DeckLookup { id: 12, exists: true }),
        (MenuState::DeckDetailMenu(12), true)
    );
    assert_eq!(
        DeckMenuOptions::ChooseDeck.process(Outcome::DeckLookup { id: 12, exists: false }),
        (MenuState::DeckMenu, true)
    );
}

#[test]
fn deck_detail_options_stay_on_the_deck() {
    assert_eq!(DeckDetailMenuOptions::View(3).request(), Request::ViewDeck(3));
    assert_eq!(DeckDetailMenuOptions::ListAllCards(3).request(), Request::ListAllCards);
    assert_eq!(DeckDetailMenuOptions::ListCards(3).request(), Request::ListDeckCards(3));
    assert_eq!(DeckDetailMenuOptions::AddCard(3).request(), Request::AddCardToDeck(3));
    assert_eq!(DeckDetailMenuOptions::Quit.request(), Request::Nothing);
    assert_eq!(DeckDetailMenuOptions::GoBack(AppState::default()).request(), Request::Nothing);
    assert_eq!(DeckDetailMenuOptions::View(3).process(Outcome::Done), (MenuState::DeckDetailMenu(3), true));
    assert_eq!(DeckDetailMenuOptions::ListAllCards(3).process(Outcome::Done), (MenuState::DeckDetailMenu(3), true));
    assert_eq!(DeckDetailMenuOptions::ListCards(3).process(Outcome::Done), (MenuState::DeckDetailMenu(3), true));
    assert_eq!(DeckDetailMenuOptions::AddCard(3).process(Outcome::Done), (MenuState::DeckDetailMenu(3), true));
    assert_eq!(DeckDetailMenuOptions::Quit.process(Outcome::Done), (MenuState::DeckMenu, false));
}

#[test]
fn go_back_lands_on_the_screen_beneath() {
    let state = deep_state();
    assert_eq!(
        DeckDetailMenuOptions::GoBack(state.clone()).process(Outcome::Done),
        (MenuState::DeckMenu, true)
    );
    assert_eq!(CardMenuOptions::GoBack(state.clone()).process(Outcome::Done), (MenuState::DeckMenu, true));
    assert_eq!(
        CardMenuOptions::GoBack(AppState::default()).process(Outcome::Done),
        (MenuState::MainMenu, true)
    );
    let choice = MenuState::DeckDetailMenu(7).make_decision("5", &state).unwrap();
    assert_eq!(choice.request(), Request::Nothing);
    assert_eq!(choice.process(Outcome::Done), (MenuState::DeckMenu, true));
}

#[test]
fn card_menu_options_lead_where_they_say() {
    assert_eq!(CardMenuOptions::Create.request(), Request::CreateCard);
    assert_eq!(CardMenuOptions::List.request(), Request::ListAllCards);
    assert_eq!(CardMenuOptions::Update.request(), Request::UpdateCard);
    assert_eq!(CardMenuOptions::Delete.request(), Request::DeleteCard);
    assert_eq!(CardMenuOptions::GoToMainMenu.request(), Request::Nothing);
    assert_eq!(CardMenuOptions::Create.process(Outcome::Done), (MenuState::CardMenu, true));
    assert_eq!(CardMenuOptions::List.process(Outcome::Done), (MenuState::CardMenu, true));
    assert_eq!(CardMenuOptions::Update.process(Outcome::Done), (MenuState::CardMenu, true));
    assert_eq!(CardMenuOptions::Delete.process(Outcome::Done), (MenuState::CardMenu, true));
    assert_eq!(CardMenuOptions::GoToMainMenu.process(Outcome::Done), (MenuState::MainMenu, true));
    assert_eq!(CardMenuOptions::GoToSubMenu.process(Outcome::Done), (MenuState::CardSubMenu, true));
    assert_eq!(CardMenuOptions::Quit.process(Outcome::Done), (MenuState::MainMenu, false));
    assert_eq!(CardMenuOptions::Update.with_context(&deep_state()), CardMenuOptions::Update);
    assert_eq!(CardMenuOptions::Update.clone(), CardMenuOptions::Update);
}

#[test]
fn card_sub_menu_options_lead_where_they_say() {
    assert_eq!(CardSubMenuOptions::Front.request(), Request::UpdateCardFront);
    assert_eq!(CardSubMenuOptions::Back.request(), Request::UpdateCardBack);
    assert_eq!(CardSubMenuOptions::GoToCardMenu.request(), Request::Nothing);
    assert_eq!(CardSubMenuOptions::Front.process(Outcome::Done), (MenuState::CardSubMenu, true));
    assert_eq!(CardSubMenuOptions::Back.process(Outcome::Done), (MenuState::CardSubMenu, true));
    assert_eq!(CardSubMenuOptions::GoToCardMenu.process(Outcome::Done), (MenuState::CardMenu, true));
    assert_eq!(CardSubMenuOptions::Quit.process(Outcome::Done), (MenuState::MainMenu, false));
    assert_eq!(CardSubMenuOptions::new_text(), "test");
}

#[test]
fn card_details_keep_what_was_typed() {
    assert_eq!(card_details("\n", "\n"), (None, None));
    assert_eq!(card_details(" front \n", "\n"), (Some("front".to_string()), None));
    assert_eq!(card_details("", "back\n"), (None, Some("back".to_string())));
    assert_eq!(card_details("f\n", " b b \n"), (Some("f".to_string()), Some("b b".to_string())));
    assert_eq!(new_card_sides(" f \n", "\n"), ("f".to_string(), "".to_string()));
}

#[test]
fn deck_details_always_have_a_description() {
    assert_eq!(deck_details(" Latin \n", " verbs\n"), ("Latin".to_string(), Some("verbs".to_string())));
    assert_eq!(deck_details("\n", "\n"), ("".to_string(), Some("".to_string())));
}

#[test]
fn ids_are_signed_numbers() {
    assert_eq!(parse_id("12\n"), Some(12));
    assert_eq!(parse_id(" -4 "), Some(-4));
    assert_eq!(parse_id("+4"), Some(4));
    assert_eq!(parse_id("four"), None);
    assert_eq!(parse_id(""), None);
    assert_eq!(parse_id("1 2"), None);
}

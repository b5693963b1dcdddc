//! Tests of the join-by-code flow, the catalog helpers, the reduced state
//! machine, the input normalization and the grid borders.

use pewcraft_client::game::{
    Cell, Class, GameDefinition, GameMap, Id, IdMap, Team,
};
use pewcraft_client::grid::CellCorner;
use pewcraft_client::input::{char_to_event, TuiEvent};
use pewcraft_client::state::{
    CreateCharacterState, CreateOrJoinState, Event, ExpectedEvent, GlobalState, State, Transition,
};
use pewcraft_client::state_machine::{Input, StateMachine};
use pewcraft_client::wire::WireCreatedGame;

fn one_team(cells: &[usize]) -> Team {
    Team {
        name: "solo".to_string(),
        cells: cells.iter().map(|c| Id::<Cell>::new(*c)).collect(),
    }
}

fn small_catalog() -> GameDefinition {
    GameDefinition {
        maps: IdMap {
            items: vec![GameMap {
                name: "arena".to_string(),
                width: 3,
                height: 3,
                teams: vec![one_team(&[0]), one_team(&[8])],
            }],
        },
        classes: IdMap {
            items: vec![Class {
                name: "scout".to_string(),
                description: "fast".to_string(),
            }],
        },
    }
}

fn join_mode(s: GlobalState) -> GlobalState {
    match s.next(Event::Right) {
        Transition::Done(s2 @ GlobalState::CreateOrJoin(CreateOrJoinState::Join(_))) => s2,
        _ => panic!("navigation from create mode must reach join mode"),
    }
}

fn typed(mut s: GlobalState, text: &str) -> GlobalState {
    s = match s.next(Event::PrintableString(text.to_string())) {
        Transition::Done(s2) => s2,
        _ => panic!("typing must complete locally"),
    };
    s
}

#[test]
fn join_mode_toggles_and_cancels() {
    let s = GlobalState::new(small_catalog());
    let s = join_mode(s);
    assert!(matches!(s.expected_event(), ExpectedEvent::Char));
    match s.next(Event::Cancel) {
        Transition::Done(GlobalState::CreateOrJoin(CreateOrJoinState::Create(_))) => {}
        _ => panic!("cancel must fall back to create mode"),
    }
}

#[test]
fn mode_toggles_both_ways() {
    let s = GlobalState::new(small_catalog());
    let s = match s.next(Event::Up) {
        Transition::Done(s2 @ GlobalState::CreateOrJoin(CreateOrJoinState::Join(_))) => s2,
        _ => panic!("vertical navigation must toggle to join mode"),
    };
    match s.next(Event::Down) {
        Transition::Done(GlobalState::CreateOrJoin(CreateOrJoinState::Create(_))) => {}
        _ => panic!("vertical navigation must toggle back to create mode"),
    }
}

#[test]
fn join_buffer_ignores_backspace() {
    // The join-code buffer only grows; backspace is not interpreted there.
    let s = join_mode(GlobalState::new(small_catalog()));
    let s = typed(s, "abc");
    match s.next(Event::Backspace) {
        Transition::Done(GlobalState::CreateOrJoin(CreateOrJoinState::Join(d))) => {
            assert_eq!(d.1.login, "abc");
        }
        _ => panic!("backspace must change nothing in join mode"),
    }
}

#[test]
fn map_selection_ignores_unassigned_events() {
    let s = GlobalState::new(small_catalog());
    let mut s = match s.next(Event::Confirm) {
        Transition::Done(s2 @ GlobalState::SelectMap(_)) => s2,
        _ => panic!("confirming the create mode must open map selection"),
    };
    for e in [
        Event::Up,
        Event::Down,
        Event::Backspace,
        Event::Cancel,
        Event::Timeout,
        Event::Other,
        Event::PrintableString("zz".to_string()),
    ] {
        s = match s.next(e) {
            Transition::Done(s2) => s2,
            _ => panic!("an unassigned event must complete locally"),
        };
        match &s {
            GlobalState::SelectMap(sm) => assert_eq!(sm.1.curr_id, 0),
            _ => panic!("an unassigned event must leave map selection unchanged"),
        }
    }
}

#[test]
fn join_code_of_ten_characters_requests_a_join() {
    let s = join_mode(GlobalState::new(small_catalog()));
    let s = typed(s, "0123456789");
    match s.next(Event::Confirm) {
        Transition::JoinGame(d, code) => {
            assert_eq!(code, "0123456789");
            assert_eq!(d.1.login, "0123456789");
        }
        _ => panic!("a ten-character code must request a join"),
    }
}

#[test]
fn join_answer_absent_falls_back_to_create_mode() {
    let s = join_mode(GlobalState::new(small_catalog()));
    let s = typed(s, "0123456789");
    let d = match s.next(Event::Confirm) {
        Transition::JoinGame(d, _code) => d,
        _ => panic!("a ten-character code must request a join"),
    };
    match GlobalState::apply_joined_game(d, None) {
        GlobalState::CreateOrJoin(CreateOrJoinState::Create(d2)) => {
            assert_eq!(d2.1.login, "0123456789");
        }
        _ => panic!("an absent join answer must fall back to create mode"),
    }
}

#[test]
fn join_answer_present_opens_the_wizard() {
    let s = join_mode(GlobalState::new(small_catalog()));
    let s = typed(s, "0123456789");
    let d = match s.next(Event::Confirm) {
        Transition::JoinGame(d, _code) => d,
        _ => panic!("a ten-character code must request a join"),
    };
    let answer = WireCreatedGame {
        game_id: "G3".to_string(),
        map: Id::new(0),
    };
    match GlobalState::apply_joined_game(d, Some(answer)) {
        GlobalState::CreateCharacter(CreateCharacterState::Team(cc)) => {
            assert_eq!(cc.1.game_id, "G3");
            assert_eq!(cc.1.map.raw(), 0);
            assert_eq!(cc.1.teams.len(), 2);
        }
        _ => panic!("a present join answer must open the wizard"),
    }
}

#[test]
fn join_answer_with_unknown_map_falls_back_to_create_mode() {
    let s = join_mode(GlobalState::new(small_catalog()));
    let s = typed(s, "0123456789");
    let d = match s.next(Event::Confirm) {
        Transition::JoinGame(d, _code) => d,
        _ => panic!("a ten-character code must request a join"),
    };
    let answer = WireCreatedGame {
        game_id: "G3".to_string(),
        map: Id::new(5),
    };
    match GlobalState::apply_joined_game(d, Some(answer)) {
        GlobalState::CreateOrJoin(CreateOrJoinState::Create(d2)) => {
            assert_eq!(d2.1.login, "0123456789");
        }
        _ => panic!("an unknown map in the answer must fall back to create mode"),
    }
}

#[test]
fn join_code_with_character_part_is_split() {
    let s = join_mode(GlobalState::new(small_catalog()));
    let s = typed(s, "0123456789/abcdefghij");
    match s.next(Event::Confirm) {
        Transition::JoinGameWithChar(_d, game_id, char_id) => {
            assert_eq!(game_id, "0123456789");
            assert_eq!(char_id, "abcdefghij");
        }
        _ => panic!("a 21-character code with a slash must carry both parts"),
    }
}

#[test]
fn join_code_of_wrong_shape_falls_back_to_create_mode() {
    // 21 characters without the separating slash.
    let s = join_mode(GlobalState::new(small_catalog()));
    let s = typed(s, "012345678901234567890");
    match s.next(Event::Confirm) {
        Transition::Done(GlobalState::CreateOrJoin(CreateOrJoinState::Create(d))) => {
            assert_eq!(d.1.login, "012345678901234567890");
        }
        _ => panic!("a malformed code must fall back to create mode"),
    }

    // Any other length.
    let s = join_mode(GlobalState::new(small_catalog()));
    let s = typed(s, "abc");
    match s.next(Event::Confirm) {
        Transition::Done(GlobalState::CreateOrJoin(CreateOrJoinState::Create(d))) => {
            assert_eq!(d.1.login, "abc");
        }
        _ => panic!("a short code must fall back to create mode"),
    }
}

#[test]
fn catalog_validity_checks() {
    assert!(small_catalog().is_valid());

    let no_maps = GameDefinition {
        maps: IdMap { items: vec![] },
        classes: small_catalog().classes,
    };
    assert!(!no_maps.is_valid());

    let no_classes = GameDefinition {
        maps: small_catalog().maps,
        classes: IdMap { items: vec![] },
    };
    assert!(!no_classes.is_valid());

    let mut teamless = small_catalog();
    teamless.maps.items[0].teams.clear();
    assert!(!teamless.is_valid());

    let mut cellless = small_catalog();
    cellless.maps.items[0].teams[1].cells.clear();
    assert!(!cellless.is_valid());
}

#[test]
fn id_map_lookup_and_ids() {
    let cat = small_catalog();
    assert_eq!(cat.maps.len(), 1);
    assert!(cat.maps.get(Id::new(0)).is_some());
    assert!(cat.maps.get(Id::new(1)).is_none());
    let ids = cat.maps.ids();
    assert_eq!(ids.len(), 1);
    assert_eq!(ids[0].raw(), 0);

    let team_ids = cat.maps.get(Id::new(0)).unwrap().team_ids();
    assert_eq!(team_ids.len(), 2);
    assert_eq!(team_ids[0].raw(), 0);
    assert_eq!(team_ids[1].raw(), 1);
}

#[test]
fn reduced_machine_cycles_and_exits() {
    let ids = vec![Id::<GameMap>::new(0), Id::new(1), Id::new(2)];
    let mut m = StateMachine::SelectMap(ids, 0);
    m = m.next(Input::Right);
    m = m.next(Input::Right);
    m = m.next(Input::Right);
    match &m {
        StateMachine::SelectMap(_, curr) => assert_eq!(*curr, 0),
        _ => panic!("three rights over three maps must return to the start"),
    }
    m = m.next(Input::Left);
    match &m {
        StateMachine::SelectMap(_, curr) => assert_eq!(*curr, 2),
        _ => panic!("a left from index 0 must wrap to the last index"),
    }
    m = m.next(Input::Other);
    match &m {
        StateMachine::SelectMap(_, curr) => assert_eq!(*curr, 2),
        _ => panic!("an uninterpretable input must change nothing"),
    }
    m = m.next(Input::Exit);
    assert!(matches!(m, StateMachine::Exit));
}

#[test]
fn characters_are_text_when_text_is_expected() {
    match char_to_event('q', ExpectedEvent::Char) {
        TuiEvent::StateEvent(Event::PrintableString(s)) => assert_eq!(s, "q"),
        _ => panic!("under free text, every character is text"),
    }
    match char_to_event('h', ExpectedEvent::Char) {
        TuiEvent::StateEvent(Event::PrintableString(s)) => assert_eq!(s, "h"),
        _ => panic!("under free text, every character is text"),
    }
}

#[test]
fn characters_are_shortcuts_otherwise() {
    assert!(matches!(
        char_to_event('q', ExpectedEvent::Selection),
        TuiEvent::StateEvent(Event::Exit)
    ));
    assert!(matches!(
        char_to_event('h', ExpectedEvent::SelectionHorizontal),
        TuiEvent::StateEvent(Event::Left)
    ));
    assert!(matches!(
        char_to_event('l', ExpectedEvent::SelectionHorizontal),
        TuiEvent::StateEvent(Event::Right)
    ));
    assert!(matches!(
        char_to_event('j', ExpectedEvent::SelectionVertical),
        TuiEvent::StateEvent(Event::Down)
    ));
    assert!(matches!(
        char_to_event('k', ExpectedEvent::SelectionVertical),
        TuiEvent::StateEvent(Event::Up)
    ));
    assert!(matches!(
        char_to_event('y', ExpectedEvent::Selection),
        TuiEvent::CopyClipboard
    ));
    match char_to_event('x', ExpectedEvent::Selection) {
        TuiEvent::StateEvent(Event::PrintableString(s)) => assert_eq!(s, "x"),
        _ => panic!("an unassigned character falls through as text"),
    }
}

#[test]
fn grid_corners_of_a_single_cell_map() {
    let c = CellCorner::from_map_size(0, 0, 1, 1);
    assert_eq!(c.0, '╔');
    assert_eq!(c.1, '╗');
    assert_eq!(c.2, '╚');
    assert_eq!(c.3, '╝');
}

#[test]
fn grid_corners_inside_and_on_the_edges() {
    // Top-left cell of a 3 by 3 map.
    let c = CellCorner::from_map_size(0, 0, 3, 3);
    assert_eq!(c.0, '╔');
    assert_eq!(c.1, '╦');
    assert_eq!(c.2, '╠');
    assert_eq!(c.3, '╬');

    // The centre cell touches no edge.
    let c = CellCorner::from_map_size(1, 1, 3, 3);
    assert_eq!(c.0, '╬');
    assert_eq!(c.1, '╬');
    assert_eq!(c.2, '╬');
    assert_eq!(c.3, '╬');

    // The bottom-right cell.
    let c = CellCorner::from_map_size(2, 2, 3, 3);
    assert_eq!(c.0, '╬');
    assert_eq!(c.1, '╣');
    assert_eq!(c.2, '╩');
    assert_eq!(c.3, '╝');
}

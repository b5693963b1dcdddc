//! Scenario tests for the workflow engine, driving the verified transition
//! function and the apply functions on concrete catalogs.

use pewcraft_client::game::{
    Cell, Class, GameDefinition, GameMap, GameState, Id, IdMap, Team,
};
use pewcraft_client::state::{
    CreateCharacterState, CreateOrJoinState, Event, ExpectedEvent, GlobalState, PlayGameState,
    State, Transition,
};
use pewcraft_client::wire::{WireCreatedChar, WireCreatedGame};

fn team(name: &str, cells: &[usize]) -> Team {
    Team {
        name: name.to_string(),
        cells: cells.iter().map(|c| Id::<Cell>::new(*c)).collect(),
    }
}

fn class(name: &str) -> Class {
    Class {
        name: name.to_string(),
        description: format!("the {} class", name),
    }
}

/// Two maps: `m0` with 2 teams, `m1` with 3 teams; two classes.
fn catalog() -> GameDefinition {
    GameDefinition {
        maps: IdMap {
            items: vec![
                GameMap {
                    name: "m0".to_string(),
                    width: 4,
                    height: 4,
                    teams: vec![team("red", &[0, 1]), team("blue", &[14, 15])],
                },
                GameMap {
                    name: "m1".to_string(),
                    width: 6,
                    height: 5,
                    teams: vec![
                        team("ants", &[0, 1, 2]),
                        team("bees", &[10, 11]),
                        team("wasps", &[20, 21]),
                    ],
                },
            ],
        },
        classes: IdMap {
            items: vec![class("knight"), class("wizard")],
        },
    }
}

/// Walks from the seeded state to the map-selection screen.
fn select_map_state() -> GlobalState {
    let s = GlobalState::new(catalog());
    match s.next(Event::Confirm) {
        Transition::Done(s2 @ GlobalState::SelectMap(_)) => s2,
        _ => panic!("confirming the create mode must open map selection"),
    }
}

fn done(t: Transition) -> GlobalState {
    match t {
        Transition::Done(s) => s,
        _ => panic!("expected a locally completed transition"),
    }
}

#[test]
fn seeded_state_is_create_mode() {
    let s = GlobalState::new(catalog());
    match &s {
        GlobalState::CreateOrJoin(CreateOrJoinState::Create(d)) => {
            assert_eq!(d.1.login, "");
        }
        _ => panic!("the workflow must start on the create-or-join screen"),
    }
    assert!(matches!(s.expected_event(), ExpectedEvent::Nothing));
    assert!(!s.exit());
}

#[test]
fn end_to_end_scenario() {
    let game = catalog();
    assert!(game.is_valid());
    let s = GlobalState::new(game);

    // Open map selection: index 0 over both maps.
    let s = done(s.next(Event::Confirm));
    match &s {
        GlobalState::SelectMap(sm) => {
            assert_eq!(sm.1.map_ids.len(), 2);
            assert_eq!(sm.1.curr_id, 0);
        }
        _ => panic!("expected map selection"),
    }

    // Right: highlight m1.
    let s = done(s.next(Event::Right));
    match &s {
        GlobalState::SelectMap(sm) => assert_eq!(sm.1.curr_id, 1),
        _ => panic!("expected map selection"),
    }

    // Confirm: a create-game request for m1 with team size 2.
    let (sm, req) = match s.next(Event::Confirm) {
        Transition::CreateGame(sm, req) => (sm, req),
        _ => panic!("confirming a map must request game creation"),
    };
    assert_eq!(req.map.raw(), 1);
    assert_eq!(req.team_size, 2);

    // The backend answers G1: the wizard opens on m1's three teams.
    let created = WireCreatedGame {
        game_id: "G1".to_string(),
        map: Id::new(1),
    };
    let s = GlobalState::join_game(created, sm);
    match &s {
        GlobalState::CreateCharacter(CreateCharacterState::Team(cc)) => {
            assert_eq!(cc.1.teams.len(), 3);
            assert_eq!(cc.1.classes.len(), 2);
            assert_eq!(cc.1.team_index, 0);
            assert_eq!(cc.1.game_id, "G1");
            assert_eq!(cc.1.map.raw(), 1);
        }
        _ => panic!("the wizard must open on its team step"),
    }

    // Right, Right: highlight team 2; Confirm: class step.
    let s = done(s.next(Event::Right));
    let s = done(s.next(Event::Right));
    match &s {
        GlobalState::CreateCharacter(CreateCharacterState::Team(cc)) => {
            assert_eq!(cc.1.team_index, 2)
        }
        _ => panic!("expected the team step"),
    }
    let s = done(s.next(Event::Confirm));
    match &s {
        GlobalState::CreateCharacter(CreateCharacterState::Class(cc)) => {
            assert_eq!(cc.1.class_index, 0)
        }
        _ => panic!("expected the class step"),
    }

    // Confirm: position step over m1's team-2 spawn cells; Confirm: name.
    let s = done(s.next(Event::Confirm));
    match &s {
        GlobalState::CreateCharacter(CreateCharacterState::Position(cc)) => {
            assert_eq!(cc.1.position_index, 0)
        }
        _ => panic!("expected the position step"),
    }
    let s = done(s.next(Event::Confirm));
    match &s {
        GlobalState::CreateCharacter(CreateCharacterState::Name(cc)) => {
            assert_eq!(cc.1.name, "")
        }
        _ => panic!("expected the name step"),
    }

    // Type the name.
    let s = done(s.next(Event::PrintableString("Zed".to_string())));
    match &s {
        GlobalState::CreateCharacter(CreateCharacterState::Name(cc)) => {
            assert_eq!(cc.1.name, "Zed")
        }
        _ => panic!("expected the name step"),
    }

    // Confirm: a create-character request resolving every choice.
    let (cc, req) = match s.next(Event::Confirm) {
        Transition::CreateChar(cc, req) => (cc, req),
        _ => panic!("confirming the name must request character creation"),
    };
    assert_eq!(cc.1.game_id, "G1");
    assert_eq!(req.name, "Zed");
    assert_eq!(req.class.raw(), 0);
    assert_eq!(req.team.raw(), 2);
    // The first spawn cell of m1's team 2.
    assert_eq!(req.position.raw(), 20);

    // The backend assigns login L1 and character 7: wait for the game.
    let s = GlobalState::apply_created_char(cc, WireCreatedChar("L1".to_string(), Id::new(7)));
    let w = match s {
        GlobalState::WaitForGameCreation(w) => {
            assert_eq!(w.1.game_id, "G1");
            assert_eq!(w.1.login, "L1");
            assert_eq!(w.1.id.raw(), 7);
            assert_eq!(w.1.map.raw(), 1);
            w
        }
        _ => panic!("a created character must lead to waiting"),
    };

    // A timeout polls; an absent answer changes nothing.
    let s = GlobalState::WaitForGameCreation(w);
    assert!(matches!(s.expected_event(), ExpectedEvent::Nothing));
    let w = match s.next(Event::Timeout) {
        Transition::Poll(w) => w,
        _ => panic!("a timeout while waiting must poll"),
    };
    let s = GlobalState::apply_poll(w, None);
    let w = match s {
        GlobalState::WaitForGameCreation(w) => {
            assert_eq!(w.1.game_id, "G1");
            assert_eq!(w.1.login, "L1");
            w
        }
        _ => panic!("an absent poll must leave the waiting state"),
    };

    // A present answer starts play, out of turn, on the first cell.
    let w = match GlobalState::WaitForGameCreation(w).next(Event::Timeout) {
        Transition::Poll(w) => w,
        _ => panic!("a timeout while waiting must poll"),
    };
    let s = GlobalState::apply_poll(w, Some(GameState { map: Id::new(1) }));
    match s {
        GlobalState::PlayGame(PlayGameState::NotOurTurn(p)) => {
            assert_eq!(p.1.game_id, "G1");
            assert_eq!(p.1.login, "L1");
            assert_eq!(p.1.id.raw(), 7);
            assert_eq!(p.1.cell.raw(), 0);
            assert_eq!(p.1.game_state.map.raw(), 1);
        }
        _ => panic!("a present poll must start play out of turn"),
    }
}

#[test]
fn cyclic_navigation_on_map_selection() {
    // Two candidate maps: two rights return to the start, two lefts too,
    // and a single left from index 0 wraps to the last index.
    let s = select_map_state();
    let s = done(s.next(Event::Right));
    let s = done(s.next(Event::Right));
    match &s {
        GlobalState::SelectMap(sm) => assert_eq!(sm.1.curr_id, 0),
        _ => panic!("expected map selection"),
    }
    let s = done(s.next(Event::Left));
    match &s {
        GlobalState::SelectMap(sm) => assert_eq!(sm.1.curr_id, 1),
        _ => panic!("expected map selection"),
    }
    let s = done(s.next(Event::Left));
    match &s {
        GlobalState::SelectMap(sm) => assert_eq!(sm.1.curr_id, 0),
        _ => panic!("expected map selection"),
    }
}

/// Walks to the wizard's team step on m0 (2 teams), game id `G7`.
fn wizard_team_state() -> GlobalState {
    let s = select_map_state();
    let (sm, _req) = match s.next(Event::Confirm) {
        Transition::CreateGame(sm, req) => (sm, req),
        _ => panic!("confirming a map must request game creation"),
    };
    GlobalState::join_game(
        WireCreatedGame {
            game_id: "G7".to_string(),
            map: Id::new(0),
        },
        sm,
    )
}

#[test]
fn cyclic_navigation_on_team_step() {
    // m0 has two teams: two rights return to team 0.
    let s = wizard_team_state();
    let s = done(s.next(Event::Right));
    let s = done(s.next(Event::Right));
    match &s {
        GlobalState::CreateCharacter(CreateCharacterState::Team(cc)) => {
            assert_eq!(cc.1.team_index, 0)
        }
        _ => panic!("expected the team step"),
    }
    let s = done(s.next(Event::Left));
    match &s {
        GlobalState::CreateCharacter(CreateCharacterState::Team(cc)) => {
            assert_eq!(cc.1.team_index, 1)
        }
        _ => panic!("expected the team step"),
    }
}

#[test]
fn forward_only_at_position_step() {
    // From the position step, only Confirm changes the active step.
    let mut s = wizard_team_state();
    s = done(s.next(Event::Confirm)); // class
    s = done(s.next(Event::Confirm)); // position
    for e in [
        Event::Left,
        Event::Right,
        Event::Up,
        Event::Down,
        Event::Backspace,
        Event::Cancel,
        Event::Timeout,
        Event::Other,
        Event::PrintableString("x".to_string()),
    ] {
        s = done(s.next(e));
        match &s {
            GlobalState::CreateCharacter(CreateCharacterState::Position(_)) => {}
            _ => panic!("only Confirm may advance the position step"),
        }
    }
    s = done(s.next(Event::Confirm));
    match &s {
        GlobalState::CreateCharacter(CreateCharacterState::Name(_)) => {}
        _ => panic!("Confirm at the position step must reach the name step"),
    }
}

#[test]
fn name_buffer_appends_and_backspaces() {
    let mut s = wizard_team_state();
    s = done(s.next(Event::Confirm)); // class
    s = done(s.next(Event::Confirm)); // position
    s = done(s.next(Event::Confirm)); // name
    s = done(s.next(Event::Backspace)); // no-op on the empty buffer
    s = done(s.next(Event::PrintableString("ab".to_string())));
    s = done(s.next(Event::PrintableString("c".to_string())));
    s = done(s.next(Event::Backspace));
    match &s {
        GlobalState::CreateCharacter(CreateCharacterState::Name(cc)) => {
            assert_eq!(cc.1.name, "ab")
        }
        _ => panic!("expected the name step"),
    }
}

#[test]
fn global_exit_from_every_screen() {
    let s = GlobalState::new(catalog());
    assert!(done(s.next(Event::Exit)).exit());

    let s = select_map_state();
    assert!(done(s.next(Event::Exit)).exit());

    let s = wizard_team_state();
    assert!(done(s.next(Event::Exit)).exit());

    let mut s = wizard_team_state();
    s = done(s.next(Event::Confirm));
    s = done(s.next(Event::Confirm));
    s = done(s.next(Event::Confirm));
    s = done(s.next(Event::PrintableString("Zed".to_string())));
    assert!(done(s.next(Event::Exit)).exit());
}

#[test]
fn idempotent_waiting_many_rounds() {
    let mut s = wizard_team_state();
    s = done(s.next(Event::Confirm));
    s = done(s.next(Event::Confirm));
    s = done(s.next(Event::Confirm));
    let (cc, _req) = match s.next(Event::Confirm) {
        Transition::CreateChar(cc, req) => (cc, req),
        _ => panic!("confirming the name must request character creation"),
    };
    let mut s = GlobalState::apply_created_char(cc, WireCreatedChar("L9".to_string(), Id::new(3)));
    for _ in 0..25 {
        let w = match s.next(Event::Timeout) {
            Transition::Poll(w) => w,
            _ => panic!("a timeout while waiting must poll"),
        };
        s = GlobalState::apply_poll(w, None);
        match &s {
            GlobalState::WaitForGameCreation(w) => {
                assert_eq!(w.1.game_id, "G7");
                assert_eq!(w.1.login, "L9");
                assert_eq!(w.1.id.raw(), 3);
                assert_eq!(w.1.map.raw(), 0);
            }
            _ => panic!("absent polls must leave the waiting state unchanged"),
        }
    }
}

#[test]
fn waiting_ignores_operator_input() {
    let mut s = wizard_team_state();
    s = done(s.next(Event::Confirm));
    s = done(s.next(Event::Confirm));
    s = done(s.next(Event::Confirm));
    let (cc, _req) = match s.next(Event::Confirm) {
        Transition::CreateChar(cc, req) => (cc, req),
        _ => panic!("confirming the name must request character creation"),
    };
    let mut s = GlobalState::apply_created_char(cc, WireCreatedChar("L2".to_string(), Id::new(1)));
    for e in [
        Event::Left,
        Event::Right,
        Event::Up,
        Event::Down,
        Event::Confirm,
        Event::Backspace,
        Event::PrintableString("zzz".to_string()),
        Event::Other,
    ] {
        s = done(s.next(e));
        assert!(matches!(&s, GlobalState::WaitForGameCreation(_)));
    }
}

#[test]
fn get_game_id_through_the_session() {
    let s = select_map_state();
    assert!(s.get_game_id().is_none());

    let s = wizard_team_state();
    assert_eq!(s.get_game_id().unwrap(), "G7");

    let mut s = wizard_team_state();
    s = done(s.next(Event::Confirm));
    s = done(s.next(Event::Confirm));
    s = done(s.next(Event::Confirm));
    let (cc, _req) = match s.next(Event::Confirm) {
        Transition::CreateChar(cc, req) => (cc, req),
        _ => panic!("confirming the name must request character creation"),
    };
    let s = GlobalState::apply_created_char(cc, WireCreatedChar("L1".to_string(), Id::new(7)));
    assert_eq!(s.get_game_id().unwrap(), "G7/L1");
}

#[test]
fn expected_events_follow_the_screen() {
    let s = GlobalState::new(catalog());
    assert!(matches!(s.expected_event(), ExpectedEvent::Nothing));

    let s = select_map_state();
    assert!(matches!(s.expected_event(), ExpectedEvent::SelectionHorizontal));

    let mut s = wizard_team_state();
    assert!(matches!(s.expected_event(), ExpectedEvent::SelectionHorizontal));
    s = done(s.next(Event::Confirm));
    assert!(matches!(s.expected_event(), ExpectedEvent::SelectionHorizontal));
    s = done(s.next(Event::Confirm));
    assert!(matches!(s.expected_event(), ExpectedEvent::Selection));
    s = done(s.next(Event::Confirm));
    assert!(matches!(s.expected_event(), ExpectedEvent::Char));
}

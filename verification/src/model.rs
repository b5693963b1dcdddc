//! The mathematical model of the workflow engine.
//!
//! Every executable state type of [`crate::state`] has a view into the ghost
//! types of this module, and every executable transition is proved equal to
//! the corresponding spec function here.  The laws of [`crate::laws`] are
//! stated and proved over this model alone.

use crate::game::{catalog_wf, id_at, ids_seq, CatalogV, Cell, Character, Class, GameMap, GameStateV, Id, MapV, Team};
use crate::wire::{WireCreatedCharV, WireCreatedGameV, WireNewCharRequestV, WireNewGameRequestV};
use vstd::prelude::*;

verus! {

/// View of a normalized input event; the payload of a printable string is a
/// sequence of characters.
pub ghost enum EventV {
    Timeout,
    PrintableString(Seq<char>),
    Exit,
    Left,
    Right,
    Up,
    Down,
    Backspace,
    Cancel,
    Confirm,
    Other,
}

/// The data carried from the root of the context chain into every workflow
/// state: the immutable game catalog.
#[verifier::ext_equal]
pub ghost struct GlobalDataV {
    pub game: CatalogV,
}

/// View of the map-selection screen: the fixed, non-empty list of candidate
/// map identifiers and the currently highlighted index.
#[verifier::ext_equal]
pub ghost struct SelectMapV {
    pub map_ids: Seq<Id<GameMap>>,
    pub curr_id: int,
}

/// The active step of the character-creation wizard.
pub ghost enum WizardStep {
    Team,
    Class,
    Position,
    Name,
}

/// View of the character-creation wizard's data record, shared by all four
/// steps: the option lists, the highlighted index of each choice, the name
/// buffer, the chosen map and the remote game identifier carried forward.
#[verifier::ext_equal]
pub ghost struct CreateCharacterV {
    pub name: Seq<char>,
    pub class_index: int,
    pub team_index: int,
    pub position_index: int,
    pub classes: Seq<Id<Class>>,
    pub teams: Seq<Id<Team>>,
    pub map: Id<GameMap>,
    pub game_id: Seq<char>,
}

/// View of the passive waiting state: everything gathered so far.
#[verifier::ext_equal]
pub ghost struct WaitV {
    pub map: Id<GameMap>,
    pub game_id: Seq<char>,
    pub login: Seq<char>,
    pub id: Id<Character>,
}

/// View of the active-play boundary state.
#[verifier::ext_equal]
pub ghost struct PlayV {
    pub cell: Id<Cell>,
    pub game_state: GameStateV,
    pub map: Id<GameMap>,
    pub game_id: Seq<char>,
    pub login: Seq<char>,
    pub id: Id<Character>,
}

/// View of the whole workflow state.
#[verifier::ext_equal]
pub ghost enum GlobalV {
    CreateOrJoin { global: GlobalDataV, joining: bool, login: Seq<char> },
    SelectMap { global: GlobalDataV, data: SelectMapV },
    WaitForGameCreation { global: GlobalDataV, data: WaitV },
    CreateCharacter { global: GlobalDataV, step: WizardStep, data: CreateCharacterV },
    PlayGame { global: GlobalDataV, our_turn: bool, data: PlayV },
    Exit,
}

/// View of the outcome of one transition: either a completed step, or a
/// request the driving loop must satisfy before the next state is known.
#[verifier::ext_equal]
pub ghost enum TransitionV {
    Done(GlobalV),
    CreateGame { state: GlobalV, request: WireNewGameRequestV },
    JoinGame { state: GlobalV, code: Seq<char> },
    JoinGameWithChar { state: GlobalV, game_id: Seq<char>, char_id: Seq<char> },
    CreateChar { state: GlobalV, request: WireNewCharRequestV },
    Poll { state: GlobalV },
}

/// The map of the catalog named by `map_id`.
pub open spec fn the_map(global: GlobalDataV, map_id: Id<GameMap>) -> MapV {
    global.game.maps[map_id.index as int]
}

/// The spawn cells offered at the position step, re-derived from the map and
/// the team highlighted at wizard index `t`.
pub open spec fn team_cells(global: GlobalDataV, data: CreateCharacterV, t: int) -> Seq<Id<Cell>> {
    the_map(global, data.map).teams[t].cells
}

/// Well-formedness of a workflow state: the catalog offers what cyclic
/// selection needs, every highlighted index is a valid index of its option
/// list, and every carried map identifier points into the catalog.
pub open spec fn global_wf(s: GlobalV) -> bool {
    match s {
        GlobalV::CreateOrJoin { global, .. } => catalog_wf(global.game),
        GlobalV::SelectMap { global, data } => {
            &&& catalog_wf(global.game)
            &&& data.map_ids.len() > 0
            &&& 0 <= data.curr_id < data.map_ids.len()
            &&& forall|i: int|
                0 <= i < data.map_ids.len() ==> (#[trigger] data.map_ids[i]).index
                    < global.game.maps.len()
        },
        GlobalV::CreateCharacter { global, step, data } => {
            &&& catalog_wf(global.game)
            &&& data.map.index < global.game.maps.len()
            &&& data.teams.len() == the_map(global, data.map).teams.len()
            &&& forall|i: int| 0 <= i < data.teams.len() ==> (#[trigger] data.teams[i]).index == i
            &&& data.classes.len() > 0
            &&& 0 <= data.class_index < data.classes.len()
            &&& 0 <= data.team_index < data.teams.len()
            &&& 0 <= data.position_index < team_cells(global, data, data.team_index).len()
            &&& (step is Team ==> data.position_index == 0)
        },
        GlobalV::WaitForGameCreation { global, data } => {
            &&& catalog_wf(global.game)
            &&& data.map.index < global.game.maps.len()
        },
        GlobalV::PlayGame { global, our_turn, data } => {
            &&& catalog_wf(global.game)
            &&& data.map.index < global.game.maps.len()
        },
        GlobalV::Exit => true,
    }
}

/// One step of cyclic selection to the right in a list of `len` options:
/// the last index wraps around to the first.
pub open spec fn cycle_right(curr: int, len: int) -> int {
    if curr == len - 1 {
        0
    } else {
        curr + 1
    }
}

/// One step of cyclic selection to the left in a list of `len` options:
/// the first index wraps around to the last.
pub open spec fn cycle_left(curr: int, len: int) -> int {
    if curr == 0 {
        len - 1
    } else {
        curr - 1
    }
}

/// The state entered when a game has been created or joined on the map named
/// by `map_id`: the first step of the character-creation wizard, its option
/// lists seeded from the catalog and the chosen map, the remote game
/// identifier carried forward.
pub open spec fn enter_wizard(global: GlobalDataV, map_id: Id<GameMap>, game_id: Seq<char>) -> GlobalV {
    GlobalV::CreateCharacter {
        global,
        step: WizardStep::Team,
        data: CreateCharacterV {
            name: Seq::empty(),
            class_index: 0,
            team_index: 0,
            position_index: 0,
            classes: ids_seq(global.game.classes.len() as int),
            teams: ids_seq(the_map(global, map_id).teams.len() as int),
            map: map_id,
            game_id,
        },
    }
}

/// Transition rule of the create-or-join screen.  Horizontal or vertical
/// navigation toggles between the two modes; in join mode printable text
/// accumulates in the code buffer and `Confirm` interprets it: a code of 10
/// characters asks to join the named game, a code of 21 characters with a
/// separating slash carries a game and a character identifier, and any other
/// shape falls back to create mode with the buffer retained.  `Confirm` in
/// create mode opens the map selection screen over all maps of the catalog.
pub open spec fn create_or_join_next(
    global: GlobalDataV,
    joining: bool,
    login: Seq<char>,
    i: EventV,
) -> TransitionV {
    let same = GlobalV::CreateOrJoin { global, joining, login };
    let create = GlobalV::CreateOrJoin { global, joining: false, login };
    let join = GlobalV::CreateOrJoin { global, joining: true, login };
    if joining {
        match i {
            EventV::Right | EventV::Up | EventV::Down | EventV::Left => TransitionV::Done(create),
            EventV::PrintableString(s) => TransitionV::Done(
                GlobalV::CreateOrJoin { global, joining: true, login: login + s },
            ),
            EventV::Cancel => TransitionV::Done(create),
            EventV::Confirm => {
                if login.len() == 10 {
                    TransitionV::JoinGame { state: same, code: login }
                } else if login.len() == 21 {
                    if login[10] == '/' {
                        TransitionV::JoinGameWithChar {
                            state: same,
                            game_id: login.subrange(0, 10),
                            char_id: login.subrange(11, 21),
                        }
                    } else {
                        TransitionV::Done(create)
                    }
                } else {
                    TransitionV::Done(create)
                }
            },
            _ => TransitionV::Done(same),
        }
    } else {
        match i {
            EventV::Right | EventV::Up | EventV::Down | EventV::Left => TransitionV::Done(join),
            EventV::Confirm => TransitionV::Done(
                GlobalV::SelectMap {
                    global,
                    data: SelectMapV { map_ids: ids_seq(global.game.maps.len() as int), curr_id: 0 },
                },
            ),
            _ => TransitionV::Done(same),
        }
    }
}

/// Transition rule of the map-selection screen: `Left` and `Right` cycle the
/// highlighted index; `Confirm` requests the creation of a game on the
/// highlighted map with a fixed team size of two.
pub open spec fn select_map_next(global: GlobalDataV, data: SelectMapV, i: EventV) -> TransitionV {
    let same = GlobalV::SelectMap { global, data };
    match i {
        EventV::Right => TransitionV::Done(
            GlobalV::SelectMap {
                global,
                data: SelectMapV {
                    map_ids: data.map_ids,
                    curr_id: cycle_right(data.curr_id, data.map_ids.len() as int),
                },
            },
        ),
        EventV::Left => TransitionV::Done(
            GlobalV::SelectMap {
                global,
                data: SelectMapV {
                    map_ids: data.map_ids,
                    curr_id: cycle_left(data.curr_id, data.map_ids.len() as int),
                },
            },
        ),
        EventV::Confirm => TransitionV::CreateGame {
            state: same,
            request: WireNewGameRequestV { map: data.map_ids[data.curr_id], team_size: 2 },
        },
        _ => TransitionV::Done(same),
    }
}

/// Transition rule of the character-creation wizard: a strictly ordered,
/// forward-only sequence of steps.  `Left` and `Right` cycle the active
/// step's option list; `Confirm` advances to the next step, carrying the
/// same data record; at the name step printable text accumulates in the name
/// buffer, backspace drops its last character, and `Confirm` requests the
/// creation of the character resolved from all the choices made.
pub open spec fn create_character_next(
    global: GlobalDataV,
    step: WizardStep,
    data: CreateCharacterV,
    i: EventV,
) -> TransitionV {
    let same = GlobalV::CreateCharacter { global, step, data };
    match step {
        WizardStep::Team => match i {
            EventV::Right => TransitionV::Done(
                GlobalV::CreateCharacter {
                    global,
                    step: WizardStep::Team,
                    data: CreateCharacterV {
                        team_index: cycle_right(data.team_index, data.teams.len() as int),
                        ..data
                    },
                },
            ),
            EventV::Left => TransitionV::Done(
                GlobalV::CreateCharacter {
                    global,
                    step: WizardStep::Team,
                    data: CreateCharacterV {
                        team_index: cycle_left(data.team_index, data.teams.len() as int),
                        ..data
                    },
                },
            ),
            EventV::Confirm => TransitionV::Done(
                GlobalV::CreateCharacter { global, step: WizardStep::Class, data },
            ),
            _ => TransitionV::Done(same),
        },
        WizardStep::Class => match i {
            EventV::Right => TransitionV::Done(
                GlobalV::CreateCharacter {
                    global,
                    step: WizardStep::Class,
                    data: CreateCharacterV {
                        class_index: cycle_right(data.class_index, data.classes.len() as int),
                        ..data
                    },
                },
            ),
            EventV::Left => TransitionV::Done(
                GlobalV::CreateCharacter {
                    global,
                    step: WizardStep::Class,
                    data: CreateCharacterV {
                        class_index: cycle_left(data.class_index, data.classes.len() as int),
                        ..data
                    },
                },
            ),
            EventV::Confirm => TransitionV::Done(
                GlobalV::CreateCharacter { global, step: WizardStep::Position, data },
            ),
            _ => TransitionV::Done(same),
        },
        WizardStep::Position => match i {
            EventV::Right => TransitionV::Done(
                GlobalV::CreateCharacter {
                    global,
                    step: WizardStep::Position,
                    data: CreateCharacterV {
                        position_index: cycle_right(
                            data.position_index,
                            team_cells(global, data, data.team_index).len() as int,
                        ),
                        ..data
                    },
                },
            ),
            EventV::Left => TransitionV::Done(
                GlobalV::CreateCharacter {
                    global,
                    step: WizardStep::Position,
                    data: CreateCharacterV {
                        position_index: cycle_left(
                            data.position_index,
                            team_cells(global, data, data.team_index).len() as int,
                        ),
                        ..data
                    },
                },
            ),
            EventV::Confirm => TransitionV::Done(
                GlobalV::CreateCharacter { global, step: WizardStep::Name, data },
            ),
            _ => TransitionV::Done(same),
        },
        WizardStep::Name => match i {
            EventV::PrintableString(s) => TransitionV::Done(
                GlobalV::CreateCharacter {
                    global,
                    step: WizardStep::Name,
                    data: CreateCharacterV { name: data.name + s, ..data },
                },
            ),
            EventV::Backspace => TransitionV::Done(
                GlobalV::CreateCharacter {
                    global,
                    step: WizardStep::Name,
                    data: CreateCharacterV {
                        name: if data.name.len() == 0 {
                            data.name
                        } else {
                            data.name.drop_last()
                        },
                        ..data
                    },
                },
            ),
            EventV::Confirm => TransitionV::CreateChar {
                state: same,
                request: WireNewCharRequestV {
                    name: data.name,
                    class: data.classes[data.class_index],
                    team: data.teams[data.team_index],
                    position: the_map(global, data.map).teams[data.teams[data.team_index].index as int].cells[data.position_index],
                },
            },
            _ => TransitionV::Done(same),
        },
    }
}

/// Transition rule of the waiting state: a timeout triggers a poll of the
/// remote game; every other event is deliberately ignored while waiting.
pub open spec fn wait_next(global: GlobalDataV, data: WaitV, i: EventV) -> TransitionV {
    let same = GlobalV::WaitForGameCreation { global, data };
    match i {
        EventV::Timeout => TransitionV::Poll { state: same },
        _ => TransitionV::Done(same),
    }
}

/// Transition rule of the active-play boundary state.  The turn-taking
/// protocol is out of the workflow's scope: this is the extension point for
/// it, and until it is filled in every event leaves the state unchanged.
pub open spec fn play_game_next(
    global: GlobalDataV,
    our_turn: bool,
    data: PlayV,
    i: EventV,
) -> TransitionV {
    TransitionV::Done(GlobalV::PlayGame { global, our_turn, data })
}

/// Top-level dispatch: `Exit` unconditionally ends the workflow from every
/// state; every other event is handed to the active state's own rule.
pub open spec fn global_next(s: GlobalV, i: EventV) -> TransitionV {
    if i is Exit {
        TransitionV::Done(GlobalV::Exit)
    } else {
        match s {
            GlobalV::CreateOrJoin { global, joining, login } => create_or_join_next(
                global,
                joining,
                login,
                i,
            ),
            GlobalV::SelectMap { global, data } => select_map_next(global, data, i),
            GlobalV::CreateCharacter { global, step, data } => create_character_next(
                global,
                step,
                data,
                i,
            ),
            GlobalV::WaitForGameCreation { global, data } => wait_next(global, data, i),
            GlobalV::PlayGame { global, our_turn, data } => play_game_next(
                global,
                our_turn,
                data,
                i,
            ),
            GlobalV::Exit => TransitionV::Done(GlobalV::Exit),
        }
    }
}

/// State reached once the backend has answered a create-game request issued
/// from the map-selection screen: the wizard opens on the highlighted map,
/// carrying the remote game identifier of the answer.
pub open spec fn apply_created_game(s: GlobalV, created: WireCreatedGameV) -> GlobalV {
    match s {
        GlobalV::SelectMap { global, data } => enter_wizard(
            global,
            data.map_ids[data.curr_id],
            created.game_id,
        ),
        _ => s,
    }
}

/// State reached once the backend has answered a join-game request: absence
/// falls back to the create mode of the create-or-join screen with the code
/// buffer retained, and so does an answer naming a map the catalog does not
/// have; otherwise the wizard opens on the joined game's map.
pub open spec fn apply_joined_game(s: GlobalV, result: Option<WireCreatedGameV>) -> GlobalV {
    match s {
        GlobalV::CreateOrJoin { global, joining, login } => match result {
            Option::None => GlobalV::CreateOrJoin { global, joining: false, login },
            Option::Some(info) => {
                if info.map.index < global.game.maps.len() {
                    enter_wizard(global, info.map, info.game_id)
                } else {
                    GlobalV::CreateOrJoin { global, joining: false, login }
                }
            },
        },
        _ => s,
    }
}

/// State reached once the backend has answered a create-character request:
/// waiting for the other participants, with the assigned login and character
/// identifier, the chosen map and the remote game identifier carried forward.
pub open spec fn apply_created_char(s: GlobalV, created: WireCreatedCharV) -> GlobalV {
    match s {
        GlobalV::CreateCharacter { global, step, data } => GlobalV::WaitForGameCreation {
            global,
            data: WaitV {
                map: data.map,
                game_id: data.game_id,
                login: created.login,
                id: created.id,
            },
        },
        _ => s,
    }
}

/// State reached once the backend has answered a poll: absence leaves the
/// waiting state unchanged; a present game state starts active play out of
/// turn, with the cell selector initialized to the first cell.
pub open spec fn apply_poll(s: GlobalV, result: Option<GameStateV>) -> GlobalV {
    match s {
        GlobalV::WaitForGameCreation { global, data } => match result {
            Option::None => GlobalV::WaitForGameCreation { global, data },
            Option::Some(gs) => GlobalV::PlayGame {
                global,
                our_turn: false,
                data: PlayV {
                    cell: id_at(0),
                    game_state: gs,
                    map: data.map,
                    game_id: data.game_id,
                    login: data.login,
                    id: data.id,
                },
            },
        },
        _ => s,
    }
}

/// What the backend answers during one iteration of the driving loop, for
/// whichever request the iteration's transition may issue.
#[verifier::ext_equal]
pub ghost struct EnvV {
    pub created_game: WireCreatedGameV,
    pub joined_game: Option<WireCreatedGameV>,
    pub created_char: WireCreatedCharV,
    pub poll: Option<GameStateV>,
}

/// One full iteration of the driving loop: feed the event to the machine
/// and, when the transition asks for a remote call, apply the backend's
/// answer.  A join-with-character request is an unimplemented extension;
/// the loop leaves its retained state unchanged.
pub open spec fn loop_step(s: GlobalV, i: EventV, env: EnvV) -> GlobalV {
    match global_next(s, i) {
        TransitionV::Done(s2) => s2,
        TransitionV::CreateGame { state, .. } => apply_created_game(state, env.created_game),
        TransitionV::JoinGame { state, .. } => apply_joined_game(state, env.joined_game),
        TransitionV::JoinGameWithChar { state, .. } => state,
        TransitionV::CreateChar { state, .. } => apply_created_char(state, env.created_char),
        TransitionV::Poll { state } => apply_poll(state, env.poll),
    }
}

/// The driving loop over a whole sequence of iterations, each an input event
/// together with whatever the backend would answer at that iteration.
pub open spec fn loop_run(s: GlobalV, steps: Seq<(EventV, EnvV)>) -> GlobalV
    decreases steps.len(),
{
    if steps.len() == 0 {
        s
    } else {
        loop_run(loop_step(s, steps[0].0, steps[0].1), steps.drop_first())
    }
}

} // verus!

//! The workflow state machine.
//!
//! A [`GlobalState`] value walks the operator through the whole session
//! set-up: choosing between creating and joining a game, selecting a map,
//! creating a character, waiting for the other participants and finally
//! active play.  Exactly one state value exists at a time; every state owns
//! the full data of its predecessors through [`StateData`] pairs, so later
//! steps can recover anything gathered earlier without aliasing.
//!
//! Transitions are pure: [`State::next`] consumes the state and an [`Event`]
//! and returns a [`Transition`], which is either the completed next state or
//! a request for one of the remote operations.  The (unverified) driving
//! loop performs the request and feeds the answer back through one of the
//! `apply_*` functions.  Every transition is proved equal to the spec
//! functions of [`crate::model`].

use crate::game::{catalog_wf, GameDefinition, GameState, Cell, Character, Class, GameMap, Id, Team};
use crate::model::{
    apply_created_game, create_character_next, create_or_join_next, global_next, global_wf,
    play_game_next, CreateCharacterV, EventV, GlobalDataV, GlobalV, PlayV, SelectMapV,
    TransitionV, WaitV, WizardStep,
};
use crate::wire::{WireCreatedChar, WireCreatedGame, WireNewCharRequest, WireNewGameRequest};
use vstd::prelude::*;

verus! {

/// A normalized input event, produced by the event source from raw input or
/// from the expiry of the polling timeout.
#[derive(Debug)]
pub enum Event {
    Timeout,
    PrintableString(String),
    Exit,
    Left,
    Right,
    Up,
    Down,
    Backspace,
    Cancel,
    Confirm,
    Other,
}

impl View for Event {
    type V = EventV;

    open spec fn view(&self) -> EventV {
        match self {
            Event::Timeout => EventV::Timeout,
            Event::PrintableString(s) => EventV::PrintableString(s@),
            Event::Exit => EventV::Exit,
            Event::Left => EventV::Left,
            Event::Right => EventV::Right,
            Event::Up => EventV::Up,
            Event::Down => EventV::Down,
            Event::Backspace => EventV::Backspace,
            Event::Cancel => EventV::Cancel,
            Event::Confirm => EventV::Confirm,
            Event::Other => EventV::Other,
        }
    }
}

/// The category of input the current state is prepared to interpret.  The
/// event source consults this to decide how a raw keystroke maps to an
/// [`Event`]; the state machine itself knows nothing about input devices.
#[derive(Clone, Copy, Debug, PartialEq, Eq, Structural)]
pub enum ExpectedEvent {
    Char,
    SelectionVertical,
    SelectionHorizontal,
    Selection,
    Nothing,
}

/// A step of the workflow.  `next` consumes the state: advancing produces a
/// new state whose ancestor data is the consumed predecessor's own data, so
/// no two live states can ever share a context.
pub trait State: Sized {
    /// The type a transition of this state resolves to.
    type RootState: View<V = TransitionV>;

    /// Whether this state is well formed: every highlighted index is a valid
    /// index of its option list and every carried identifier points into the
    /// catalog.
    spec fn valid(&self) -> bool;

    /// The transition this state makes on event `i`.
    spec fn next_spec(&self, i: EventV) -> TransitionV;

    /// The category of event this state is prepared to interpret.
    spec fn expected_spec(&self) -> ExpectedEvent;

    /// The category of input this state is prepared to interpret.
    fn expected_event(&self) -> (r: ExpectedEvent)
        ensures
            r == self.expected_spec(),
    ;

    /// Feed one event to this state.
    fn next(self, i: Event) -> (r: Self::RootState)
        requires
            self.valid(),
        ensures
            r@ == self.next_spec(i@),
    ;
}

/// A workflow state's data: the full data of the preceding state paired with
/// the data specific to the present step.
#[derive(Debug)]
pub struct StateData<Prev, Curr>(pub Prev, pub Curr);

impl<P, C> StateData<P, C> {
    /// Pair the consumed predecessor data `p` with this step's own data `c`.
    pub fn new(p: P, c: C) -> (r: Self)
        ensures
            r.0 == p,
            r.1 == c,
    {
        StateData(p, c)
    }

    /// The data accumulated by every preceding step.
    pub fn prev(&self) -> (r: &P)
        ensures
            *r == self.0,
    {
        &self.0
    }

    /// This step's own data.
    pub fn curr(&self) -> (r: &C)
        ensures
            *r == self.1,
    {
        &self.1
    }

    /// Replace this step's own data, leaving the ancestor data untouched.
    pub fn curr_mut(&mut self, c: C)
        ensures
            final (self).0 == old(self).0,
            final (self).1 == c,
    {
        self.1 = c;
    }

    /// Take the pair apart, consuming it.
    pub fn split(self) -> (r: (P, C))
        ensures
            r.0 == self.0,
            r.1 == self.1,
    {
        (self.0, self.1)
    }
}

/// The root of every context chain: the immutable game catalog, loaded once
/// at start-up and owned by the workflow for its whole lifetime.
pub struct GlobalStateData {
    pub game: GameDefinition,
}

impl View for GlobalStateData {
    type V = GlobalDataV;

    open spec fn view(&self) -> GlobalDataV {
        GlobalDataV { game: self.game@ }
    }
}

/// Own data of the create-or-join screen: the accumulated join-code buffer.
#[derive(Debug)]
pub struct CreateOrJoinDataImpl {
    pub login: String,
}

/// Context chain of the create-or-join screen.
pub type CreateOrJoinData = StateData<GlobalStateData, CreateOrJoinDataImpl>;

/// The create-or-join screen: either the create mode or the join mode is
/// highlighted; both carry the same code buffer.
pub enum CreateOrJoinState {
    Create(CreateOrJoinData),
    Join(CreateOrJoinData),
}

/// Own data of the map-selection screen: the fixed, non-empty candidate list
/// and the highlighted index.
#[derive(Debug)]
pub struct SelectMapDataImpl {
    pub map_ids: Vec<Id<GameMap>>,
    pub curr_id: usize,
}

/// Context chain of the map-selection screen.
pub type SelectMapData = StateData<GlobalStateData, SelectMapDataImpl>;

/// Own data of the character-creation wizard, shared by all four steps.
#[derive(Debug)]
pub struct CreateCharacterStateDataImpl {
    pub name: String,
    pub class_index: usize,
    pub team_index: usize,
    pub position_index: usize,
    pub classes: Vec<Id<Class>>,
    pub teams: Vec<Id<Team>>,
    pub map: Id<GameMap>,
    pub game_id: String,
}

/// Context chain of the character-creation wizard.
pub type CreateCharacterStateData = StateData<GlobalStateData, CreateCharacterStateDataImpl>;

/// The character-creation wizard: a strictly ordered, forward-only sequence
/// of steps over one shared data record; only the active-step tag changes
/// when a step is confirmed.
pub enum CreateCharacterState {
    Class(CreateCharacterStateData),
    Team(CreateCharacterStateData),
    Position(CreateCharacterStateData),
    Name(CreateCharacterStateData),
}

/// Own data of the waiting state: everything gathered so far, carried
/// unchanged while the remote game is polled.
#[derive(Debug)]
pub struct WaitForGameCreationDataImpl {
    pub map: Id<GameMap>,
    pub game_id: String,
    pub login: String,
    pub id: Id<Character>,
}

/// Context chain of the waiting state.
pub type WaitForGameCreationData = StateData<GlobalStateData, WaitForGameCreationDataImpl>;

/// Own data of the active-play boundary state.
#[derive(Debug)]
pub struct PlayGameStateDataImpl {
    pub cell: Id<Cell>,
    pub game_state: GameState,
    pub map: Id<GameMap>,
    pub game_id: String,
    pub login: String,
    pub id: Id<Character>,
}

/// Context chain of the active-play boundary state.
pub type PlayGameStateData = StateData<GlobalStateData, PlayGameStateDataImpl>;

/// The active-play boundary state: whether it is our turn, over the last
/// fetched remote game state.  The turn-taking protocol itself is an
/// extension point, not part of the workflow.
pub enum PlayGameState {
    OurTurn(PlayGameStateData),
    NotOurTurn(PlayGameStateData),
}

/// The whole workflow state: exactly one value of this type is alive at any
/// time, and it is threaded exclusively through [`State::next`].
pub enum GlobalState {
    CreateOrJoin(CreateOrJoinState),
    SelectMap(SelectMapData),
    WaitForGameCreation(WaitForGameCreationData),
    CreateCharacter(CreateCharacterState),
    PlayGame(PlayGameState),
    Exit,
}

/// The outcome of feeding one event to the workflow: either the completed
/// next state, or a request for a remote operation together with the state
/// retained until the answer arrives.  The driving loop performs the request
/// and feeds the answer back through the matching `apply_*` function.
pub enum Transition {
    /// The transition completed locally.
    Done(GlobalState),
    /// Create a game; answer goes to [`GlobalState::join_game`].
    CreateGame(SelectMapData, WireNewGameRequest),
    /// Join the game named by the code; answer goes to
    /// [`GlobalState::apply_joined_game`].
    JoinGame(CreateOrJoinData, String),
    /// Join a game with an existing character: an extension point no backend
    /// operation serves yet; no apply function consumes its answer.
    JoinGameWithChar(CreateOrJoinData, String, String),
    /// Create a character; answer goes to
    /// [`GlobalState::apply_created_char`].
    CreateChar(CreateCharacterStateData, WireNewCharRequest),
    /// Poll the remote game's state; answer goes to
    /// [`GlobalState::apply_poll`].
    Poll(WaitForGameCreationData),
}

// ------------------------------------------------------------------
// Views into the model
// ------------------------------------------------------------------

/// View of a create-or-join context chain in the given mode.
pub open spec fn coj_gv(joining: bool, s: CreateOrJoinData) -> GlobalV {
    GlobalV::CreateOrJoin { global: s.0@, joining, login: s.1.login@ }
}

/// View of the map-selection screen's own data.
pub open spec fn select_map_data_v(d: SelectMapDataImpl) -> SelectMapV {
    SelectMapV { map_ids: d.map_ids@, curr_id: d.curr_id as int }
}

/// View of a map-selection context chain.
pub open spec fn select_map_gv(s: SelectMapData) -> GlobalV {
    GlobalV::SelectMap { global: s.0@, data: select_map_data_v(s.1) }
}

/// View of the character-creation wizard's own data.
pub open spec fn cc_data_v(d: CreateCharacterStateDataImpl) -> CreateCharacterV {
    CreateCharacterV {
        name: d.name@,
        class_index: d.class_index as int,
        team_index: d.team_index as int,
        position_index: d.position_index as int,
        classes: d.classes@,
        teams: d.teams@,
        map: d.map,
        game_id: d.game_id@,
    }
}

/// View of a character-creation context chain at the given wizard step.
pub open spec fn cc_gv(step: WizardStep, s: CreateCharacterStateData) -> GlobalV {
    GlobalV::CreateCharacter { global: s.0@, step, data: cc_data_v(s.1) }
}

/// View of the waiting state's own data.
pub open spec fn wait_data_v(d: WaitForGameCreationDataImpl) -> WaitV {
    WaitV { map: d.map, game_id: d.game_id@, login: d.login@, id: d.id }
}

/// View of a waiting context chain.
pub open spec fn wait_gv(s: WaitForGameCreationData) -> GlobalV {
    GlobalV::WaitForGameCreation { global: s.0@, data: wait_data_v(s.1) }
}

/// View of the active-play state's own data.
pub open spec fn play_data_v(d: PlayGameStateDataImpl) -> PlayV {
    PlayV {
        cell: d.cell,
        game_state: d.game_state@,
        map: d.map,
        game_id: d.game_id@,
        login: d.login@,
        id: d.id,
    }
}

/// View of an active-play context chain.
pub open spec fn play_gv(our_turn: bool, s: PlayGameStateData) -> GlobalV {
    GlobalV::PlayGame { global: s.0@, our_turn, data: play_data_v(s.1) }
}

impl View for CreateOrJoinState {
    type V = GlobalV;

    open spec fn view(&self) -> GlobalV {
        match self {
            CreateOrJoinState::Create(s) => coj_gv(false, *s),
            CreateOrJoinState::Join(s) => coj_gv(true, *s),
        }
    }
}

impl View for CreateCharacterState {
    type V = GlobalV;

    open spec fn view(&self) -> GlobalV {
        match self {
            CreateCharacterState::Class(s) => cc_gv(WizardStep::Class, *s),
            CreateCharacterState::Team(s) => cc_gv(WizardStep::Team, *s),
            CreateCharacterState::Position(s) => cc_gv(WizardStep::Position, *s),
            CreateCharacterState::Name(s) => cc_gv(WizardStep::Name, *s),
        }
    }
}

impl View for PlayGameState {
    type V = GlobalV;

    open spec fn view(&self) -> GlobalV {
        match self {
            PlayGameState::OurTurn(s) => play_gv(true, *s),
            PlayGameState::NotOurTurn(s) => play_gv(false, *s),
        }
    }
}

impl View for GlobalState {
    type V = GlobalV;

    open spec fn view(&self) -> GlobalV {
        match self {
            GlobalState::CreateOrJoin(s) => s@,
            GlobalState::SelectMap(s) => select_map_gv(*s),
            GlobalState::WaitForGameCreation(s) => wait_gv(*s),
            GlobalState::CreateCharacter(s) => s@,
            GlobalState::PlayGame(s) => s@,
            GlobalState::Exit => GlobalV::Exit,
        }
    }
}

impl View for Transition {
    type V = TransitionV;

    open spec fn view(&self) -> TransitionV {
        match self {
            Transition::Done(s) => TransitionV::Done(s@),
            Transition::CreateGame(s, req) => TransitionV::CreateGame {
                state: select_map_gv(*s),
                request: req@,
            },
            Transition::JoinGame(s, code) => TransitionV::JoinGame {
                state: coj_gv(true, *s),
                code: code@,
            },
            Transition::JoinGameWithChar(s, game_id, char_id) => TransitionV::JoinGameWithChar {
                state: coj_gv(true, *s),
                game_id: game_id@,
                char_id: char_id@,
            },
            Transition::CreateChar(s, req) => TransitionV::CreateChar {
                state: cc_gv(WizardStep::Name, *s),
                request: req@,
            },
            Transition::Poll(s) => TransitionV::Poll { state: wait_gv(*s) },
        }
    }
}

// ------------------------------------------------------------------
// Transitions
// ------------------------------------------------------------------

impl State for PlayGameState {
    type RootState = Transition;

    open spec fn valid(&self) -> bool {
        global_wf(self@)
    }

    open spec fn next_spec(&self, i: EventV) -> TransitionV {
        match self {
            PlayGameState::OurTurn(s) => play_game_next(s.0@, true, play_data_v(s.1), i),
            PlayGameState::NotOurTurn(s) => play_game_next(s.0@, false, play_data_v(s.1), i),
        }
    }

    open spec fn expected_spec(&self) -> ExpectedEvent {
        ExpectedEvent::Nothing
    }

    fn expected_event(&self) -> (r: ExpectedEvent) {
        ExpectedEvent::Nothing
    }

    fn next(self, i: Event) -> (r: Transition) {
        Transition::Done(GlobalState::PlayGame(self))
    }
}

impl State for CreateOrJoinState {
    type RootState = Transition;

    open spec fn valid(&self) -> bool {
        global_wf(self@)
    }

    open spec fn next_spec(&self, i: EventV) -> TransitionV {
        match self {
            CreateOrJoinState::Create(s) => create_or_join_next(s.0@, false, s.1.login@, i),
            CreateOrJoinState::Join(s) => create_or_join_next(s.0@, true, s.1.login@, i),
        }
    }

    open spec fn expected_spec(&self) -> ExpectedEvent {
        match self {
            CreateOrJoinState::Join(_) => ExpectedEvent::Char,
            CreateOrJoinState::Create(_) => ExpectedEvent::Nothing,
        }
    }

    fn expected_event(&self) -> (r: ExpectedEvent) {
        match self {
            CreateOrJoinState::Join(_) => ExpectedEvent::Char,
            CreateOrJoinState::Create(_) => ExpectedEvent::Nothing,
        }
    }

    fn next(self, i: Event) -> (r: Transition) {
        match (self, i) {
            (
                CreateOrJoinState::Join(s),
                Event::Right | Event::Up | Event::Down | Event::Left,
            ) => Transition::Done(GlobalState::CreateOrJoin(CreateOrJoinState::Create(s))),
            (CreateOrJoinState::Join(mut s), Event::PrintableString(string)) => {
                s.1.login.append(string.as_str());
                Transition::Done(GlobalState::CreateOrJoin(CreateOrJoinState::Join(s)))
            },
            (CreateOrJoinState::Join(s), Event::Cancel) => Transition::Done(
                GlobalState::CreateOrJoin(CreateOrJoinState::Create(s)),
            ),
            (CreateOrJoinState::Join(s), Event::Confirm) => {
                let l = s.1.login.unicode_len();
                if l == 10 {
                    let code = s.1.login.clone();
                    Transition::JoinGame(s, code)
                } else if l == 21 {
                    if s.1.login.as_str().get_char(10) == '/' {
                        let game_id = s.1.login.as_str().substring_char(0, 10).to_owned();
                        let char_id = s.1.login.as_str().substring_char(11, 21).to_owned();
                        Transition::JoinGameWithChar(s, game_id, char_id)
                    } else {
                        Transition::Done(GlobalState::CreateOrJoin(CreateOrJoinState::Create(s)))
                    }
                } else {
                    Transition::Done(GlobalState::CreateOrJoin(CreateOrJoinState::Create(s)))
                }
            },
            (
                CreateOrJoinState::Create(s),
                Event::Right | Event::Up | Event::Down | Event::Left,
            ) => Transition::Done(GlobalState::CreateOrJoin(CreateOrJoinState::Join(s))),
            (CreateOrJoinState::Create(s), Event::Confirm) => {
                let (global, _join) = s.split();
                let map_ids = global.game.maps.ids();
                Transition::Done(
                    GlobalState::SelectMap(
                        StateData::new(global, SelectMapDataImpl { map_ids, curr_id: 0 }),
                    ),
                )
            },
            (s, _) => Transition::Done(GlobalState::CreateOrJoin(s)),
        }
    }
}

impl State for CreateCharacterState {
    type RootState = Transition;

    open spec fn valid(&self) -> bool {
        global_wf(self@)
    }

    open spec fn next_spec(&self, i: EventV) -> TransitionV {
        match self {
            CreateCharacterState::Class(s) => create_character_next(
                s.0@,
                WizardStep::Class,
                cc_data_v(s.1),
                i,
            ),
            CreateCharacterState::Team(s) => create_character_next(
                s.0@,
                WizardStep::Team,
                cc_data_v(s.1),
                i,
            ),
            CreateCharacterState::Position(s) => create_character_next(
                s.0@,
                WizardStep::Position,
                cc_data_v(s.1),
                i,
            ),
            CreateCharacterState::Name(s) => create_character_next(
                s.0@,
                WizardStep::Name,
                cc_data_v(s.1),
                i,
            ),
        }
    }

    open spec fn expected_spec(&self) -> ExpectedEvent {
        match self {
            CreateCharacterState::Team(_) => ExpectedEvent::SelectionHorizontal,
            CreateCharacterState::Class(_) => ExpectedEvent::SelectionHorizontal,
            CreateCharacterState::Position(_) => ExpectedEvent::Selection,
            CreateCharacterState::Name(_) => ExpectedEvent::Char,
        }
    }

    fn expected_event(&self) -> (r: ExpectedEvent) {
        match self {
            CreateCharacterState::Team(_) => ExpectedEvent::SelectionHorizontal,
            CreateCharacterState::Class(_) => ExpectedEvent::SelectionHorizontal,
            CreateCharacterState::Position(_) => ExpectedEvent::Selection,
            CreateCharacterState::Name(_) => ExpectedEvent::Char,
        }
    }

    fn next(self, i: Event) -> (r: Transition) {
        match (self, i) {
            // First choose the team.
            (CreateCharacterState::Team(mut s), Event::Right) => {
                if s.1.team_index == s.1.teams.len() - 1 {
                    s.1.team_index = 0;
                } else {
                    s.1.team_index = s.1.team_index + 1;
                }
                Transition::Done(GlobalState::CreateCharacter(CreateCharacterState::Team(s)))
            },
            (CreateCharacterState::Team(mut s), Event::Left) => {
                if s.1.team_index == 0 {
                    s.1.team_index = s.1.teams.len() - 1;
                } else {
                    s.1.team_index = s.1.team_index - 1;
                }
                Transition::Done(GlobalState::CreateCharacter(CreateCharacterState::Team(s)))
            },
            (CreateCharacterState::Team(s), Event::Confirm) => Transition::Done(
                GlobalState::CreateCharacter(CreateCharacterState::Class(s)),
            ),
            // Then the class.
            (CreateCharacterState::Class(mut s), Event::Right) => {
                if s.1.class_index == s.1.classes.len() - 1 {
                    s.1.class_index = 0;
                } else {
                    s.1.class_index = s.1.class_index + 1;
                }
                Transition::Done(GlobalState::CreateCharacter(CreateCharacterState::Class(s)))
            },
            (CreateCharacterState::Class(mut s), Event::Left) => {
                if s.1.class_index == 0 {
                    s.1.class_index = s.1.classes.len() - 1;
                } else {
                    s.1.class_index = s.1.class_index - 1;
                }
                Transition::Done(GlobalState::CreateCharacter(CreateCharacterState::Class(s)))
            },
            (CreateCharacterState::Class(s), Event::Confirm) => Transition::Done(
                GlobalState::CreateCharacter(CreateCharacterState::Position(s)),
            ),
            // Then the position, over the spawn cells of the chosen team.
            (CreateCharacterState::Position(mut s), Event::Right) => {
                let m = s.0.game.maps.get(s.1.map).unwrap();
                proof {
                    assert(s.0.game@.maps[s.1.map.index as int] == s.0.game.maps.items@[s.1.map.index as int]@);
                    assert(m@.teams[s.1.team_index as int] == m.teams@[s.1.team_index as int]@);
                }
                let plen = m.teams[s.1.team_index].cells.len();
                if s.1.position_index == plen - 1 {
                    s.1.position_index = 0;
                } else {
                    s.1.position_index = s.1.position_index + 1;
                }
                Transition::Done(GlobalState::CreateCharacter(CreateCharacterState::Position(s)))
            },
            (CreateCharacterState::Position(mut s), Event::Left) => {
                let m = s.0.game.maps.get(s.1.map).unwrap();
                proof {
                    assert(s.0.game@.maps[s.1.map.index as int] == s.0.game.maps.items@[s.1.map.index as int]@);
                    assert(m@.teams[s.1.team_index as int] == m.teams@[s.1.team_index as int]@);
                }
                let plen = m.teams[s.1.team_index].cells.len();
                if s.1.position_index == 0 {
                    s.1.position_index = plen - 1;
                } else {
                    s.1.position_index = s.1.position_index - 1;
                }
                Transition::Done(GlobalState::CreateCharacter(CreateCharacterState::Position(s)))
            },
            (CreateCharacterState::Position(s), Event::Confirm) => Transition::Done(
                GlobalState::CreateCharacter(CreateCharacterState::Name(s)),
            ),
            // Then the name.
            (CreateCharacterState::Name(mut s), Event::PrintableString(string)) => {
                s.1.name.append(string.as_str());
                Transition::Done(GlobalState::CreateCharacter(CreateCharacterState::Name(s)))
            },
            (CreateCharacterState::Name(mut s), Event::Backspace) => {
                let l = s.1.name.unicode_len();
                if l > 0 {
                    let shorter = s.1.name.as_str().substring_char(0, l - 1).to_owned();
                    s.1.name = shorter;
                }
                Transition::Done(GlobalState::CreateCharacter(CreateCharacterState::Name(s)))
            },
            (CreateCharacterState::Name(s), Event::Confirm) => {
                let name = s.1.name.clone();
                let class = s.1.classes[s.1.class_index];
                let team = s.1.teams[s.1.team_index];
                let m = s.0.game.maps.get(s.1.map).unwrap();
                proof {
                    assert(s.0.game@.maps[s.1.map.index as int] == s.0.game.maps.items@[s.1.map.index as int]@);
                    assert(s.1.teams@[s.1.team_index as int].index == s.1.team_index);
                    assert(m@.teams[s.1.team_index as int] == m.teams@[s.1.team_index as int]@);
                }
                let position = m.teams[team.raw()].cells[s.1.position_index];
                let request = WireNewCharRequest { name, class, team, position };
                Transition::CreateChar(s, request)
            },
            (c, _) => Transition::Done(GlobalState::CreateCharacter(c)),
        }
    }
}

impl State for GlobalState {
    type RootState = Transition;

    open spec fn valid(&self) -> bool {
        &&& global_wf(self@)
        &&& !(self@ is Exit)
    }

    open spec fn next_spec(&self, i: EventV) -> TransitionV {
        global_next(self@, i)
    }

    open spec fn expected_spec(&self) -> ExpectedEvent {
        match self {
            GlobalState::CreateOrJoin(s) => s.expected_spec(),
            GlobalState::SelectMap(_) => ExpectedEvent::SelectionHorizontal,
            GlobalState::WaitForGameCreation(_) => ExpectedEvent::Nothing,
            GlobalState::CreateCharacter(s) => s.expected_spec(),
            GlobalState::PlayGame(s) => s.expected_spec(),
            GlobalState::Exit => ExpectedEvent::Nothing,
        }
    }

    fn expected_event(&self) -> (r: ExpectedEvent) {
        match self {
            GlobalState::CreateOrJoin(s) => s.expected_event(),
            GlobalState::SelectMap(_) => ExpectedEvent::SelectionHorizontal,
            GlobalState::WaitForGameCreation(_) => ExpectedEvent::Nothing,
            GlobalState::CreateCharacter(s) => s.expected_event(),
            GlobalState::PlayGame(s) => s.expected_event(),
            GlobalState::Exit => ExpectedEvent::Nothing,
        }
    }

    fn next(self, i: Event) -> (r: Transition) {
        match (self, i) {
            // The global exit event ends the workflow from every state.
            (_, Event::Exit) => Transition::Done(GlobalState::Exit),
            // An uninterpretable event is the identity from every state.
            (s, Event::Other) => Transition::Done(s),
            (GlobalState::CreateOrJoin(c), i) => c.next(i),
            (GlobalState::SelectMap(mut s), Event::Right) => {
                if s.1.curr_id == s.1.map_ids.len() - 1 {
                    s.1.curr_id = 0;
                } else {
                    s.1.curr_id = s.1.curr_id + 1;
                }
                Transition::Done(GlobalState::SelectMap(s))
            },
            (GlobalState::SelectMap(mut s), Event::Left) => {
                if s.1.curr_id == 0 {
                    s.1.curr_id = s.1.map_ids.len() - 1;
                } else {
                    s.1.curr_id = s.1.curr_id - 1;
                }
                Transition::Done(GlobalState::SelectMap(s))
            },
            (GlobalState::SelectMap(s), Event::Confirm) => {
                let map_id = s.1.map_ids[s.1.curr_id];
                let request = WireNewGameRequest { map: map_id, team_size: 2 };
                Transition::CreateGame(s, request)
            },
            (GlobalState::SelectMap(s), _) => Transition::Done(GlobalState::SelectMap(s)),
            (GlobalState::CreateCharacter(c), i) => c.next(i),
            (GlobalState::WaitForGameCreation(s), Event::Timeout) => Transition::Poll(s),
            (GlobalState::WaitForGameCreation(s), _) => Transition::Done(
                GlobalState::WaitForGameCreation(s),
            ),
            (GlobalState::PlayGame(p), i) => p.next(i),
            (GlobalState::Exit, _) => {
                // Statically excluded: a correct driving loop halts on `Exit`.
                proof {
                    assert(false);
                }
                Transition::Done(GlobalState::Exit)
            },
        }
    }
}

// ------------------------------------------------------------------
// Construction and the apply functions for remote answers
// ------------------------------------------------------------------

/// The identifier shown for a state, over the model: the bare remote game
/// identifier during character creation, and `game/login` once a character
/// has been registered.
pub open spec fn get_game_id_spec(s: GlobalV) -> Option<Seq<char>> {
    match s {
        GlobalV::CreateOrJoin { .. } => None,
        GlobalV::SelectMap { .. } => None,
        GlobalV::CreateCharacter { data, .. } => Some(data.game_id),
        GlobalV::WaitForGameCreation { data, .. } => Some(data.game_id + "/"@ + data.login),
        GlobalV::PlayGame { data, .. } => Some(data.game_id + "/"@ + data.login),
        GlobalV::Exit => None,
    }
}

/// View of an optional created-game answer.
pub open spec fn created_game_opt_v(o: Option<WireCreatedGame>) -> Option<
    crate::wire::WireCreatedGameV,
> {
    match o {
        Some(w) => Some(w@),
        None => None,
    }
}

/// View of an optional polled game state.
pub open spec fn game_state_opt_v(o: Option<GameState>) -> Option<crate::game::GameStateV> {
    match o {
        Some(g) => Some(g@),
        None => None,
    }
}

/// Enter the character-creation wizard on the map named by `map_id`, with
/// the remote game identifier `game_id` carried forward.
fn enter_wizard(global: GlobalStateData, map_id: Id<GameMap>, game_id: String) -> (r: GlobalState)
    requires
        map_id.index < global.game@.maps.len(),
    ensures
        r@ == crate::model::enter_wizard(global@, map_id, game_id@),
{
    let m = global.game.maps.get(map_id).unwrap();
    proof {
        assert(global.game@.maps[map_id.index as int] == global.game.maps.items@[map_id.index as int]@);
    }
    let teams = m.team_ids();
    let classes = global.game.classes.ids();
    let data = CreateCharacterStateDataImpl {
        name: String::new(),
        class_index: 0,
        team_index: 0,
        position_index: 0,
        classes,
        teams,
        map: map_id,
        game_id,
    };
    GlobalState::CreateCharacter(CreateCharacterState::Team(StateData::new(global, data)))
}

impl GlobalState {
    /// The identifier the operator may copy for the current state: `None`
    /// before a game exists, the bare remote game identifier during
    /// character creation, and `game/login` once a character has been
    /// registered.  Must not be asked of the terminal `Exit` state.
    pub fn get_game_id(&self) -> (r: Option<String>)
        requires
            self@ !is Exit,
        ensures
            r is Some <==> get_game_id_spec(self@) is Some,
            r matches Some(g) ==> get_game_id_spec(self@) == Some(g@),
    {
        match self {
            GlobalState::CreateOrJoin(_) => None,
            GlobalState::SelectMap(_) => None,
            GlobalState::CreateCharacter(c) => match c {
                CreateCharacterState::Team(s)
                | CreateCharacterState::Class(s)
                | CreateCharacterState::Position(s)
                | CreateCharacterState::Name(s) => Some(s.1.game_id.clone()),
            },
            GlobalState::WaitForGameCreation(c) => Some(
                c.1.game_id.clone().concat("/").concat(c.1.login.as_str()),
            ),
            GlobalState::PlayGame(play) => match play {
                PlayGameState::OurTurn(s) | PlayGameState::NotOurTurn(s) => Some(
                    s.1.game_id.clone().concat("/").concat(s.1.login.as_str()),
                ),
            },
            GlobalState::Exit => {
                // Statically excluded by the precondition.
                proof {
                    assert(false);
                }
                None
            },
        }
    }

    /// Whether the workflow has reached its terminal state.
    pub fn exit(&self) -> (r: bool)
        ensures
            r == (self@ is Exit),
    {
        matches!(self, GlobalState::Exit)
    }

    /// Seed the workflow: the create-or-join screen in create mode, with an
    /// empty code buffer, owning the catalog for the whole session.
    pub fn new(game: GameDefinition) -> (r: GlobalState)
        ensures
            r@ == (GlobalV::CreateOrJoin {
                global: GlobalDataV { game: game@ },
                joining: false,
                login: Seq::<char>::empty(),
            }),
            catalog_wf(game@) ==> global_wf(r@),
    {
        GlobalState::CreateOrJoin(
            CreateOrJoinState::Create(
                StateData::new(
                    GlobalStateData { game },
                    CreateOrJoinDataImpl { login: String::new() },
                ),
            ),
        )
    }

    /// Enter the wizard once the backend has answered the create-game
    /// request issued when the map-selection screen was confirmed: the
    /// wizard opens on the highlighted map, carrying the remote game
    /// identifier of the answer.
    pub fn join_game(created_game: WireCreatedGame, s: SelectMapData) -> (r: GlobalState)
        requires
            global_wf(select_map_gv(s)),
        ensures
            r@ == apply_created_game(select_map_gv(s), created_game@),
            r@ == crate::model::enter_wizard(
                s.0@,
                s.1.map_ids@[s.1.curr_id as int],
                created_game.game_id@,
            ),
    {
        let (global, data) = s.split();
        let map_id = data.map_ids[data.curr_id];
        enter_wizard(global, map_id, created_game.game_id)
    }

    /// Resolve the backend's answer to a join-game request: absence, and an
    /// answer naming a map the catalog does not have, fall back to the
    /// create mode of the create-or-join screen with the code buffer
    /// retained; otherwise the wizard opens on the joined game's map.
    pub fn apply_joined_game(s: CreateOrJoinData, result: Option<WireCreatedGame>) -> (r:
        GlobalState)
        requires
            global_wf(coj_gv(true, s)),
        ensures
            r@ == crate::model::apply_joined_game(coj_gv(true, s), created_game_opt_v(result)),
    {
        match result {
            None => GlobalState::CreateOrJoin(CreateOrJoinState::Create(s)),
            Some(info) => {
                if info.map.raw() < s.0.game.maps.len() {
                    let (global, _join) = s.split();
                    enter_wizard(global, info.map, info.game_id)
                } else {
                    GlobalState::CreateOrJoin(CreateOrJoinState::Create(s))
                }
            },
        }
    }

    /// Resolve the backend's answer to a create-character request: wait for
    /// the game to fill up, carrying the assigned login and character
    /// identifier beside the map and the remote game identifier.
    pub fn apply_created_char(s: CreateCharacterStateData, created: WireCreatedChar) -> (r:
        GlobalState)
        ensures
            r@ == crate::model::apply_created_char(cc_gv(WizardStep::Name, s), created@),
    {
        let (global, data) = s.split();
        GlobalState::WaitForGameCreation(
            StateData::new(
                global,
                WaitForGameCreationDataImpl {
                    map: data.map,
                    game_id: data.game_id,
                    login: created.0,
                    id: created.1,
                },
            ),
        )
    }

    /// Resolve the backend's answer to a poll: absence leaves the waiting
    /// state untouched; a present game state starts active play out of
    /// turn, the cell selector initialized to the first cell.
    pub fn apply_poll(s: WaitForGameCreationData, result: Option<GameState>) -> (r: GlobalState)
        ensures
            r@ == crate::model::apply_poll(wait_gv(s), game_state_opt_v(result)),
    {
        match result {
            None => GlobalState::WaitForGameCreation(s),
            Some(gs) => {
                let (global, data) = s.split();
                GlobalState::PlayGame(
                    PlayGameState::NotOurTurn(
                        StateData::new(
                            global,
                            PlayGameStateDataImpl {
                                cell: Id::new(0),
                                game_state: gs,
                                map: data.map,
                                game_id: data.game_id,
                                login: data.login,
                                id: data.id,
                            },
                        ),
                    ),
                )
            },
        }
    }
}

} // verus!

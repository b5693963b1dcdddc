//! Typed shapes of the four remote operations' requests and responses.
//!
//! The workflow engine builds request values and consumes response values;
//! encoding them on the wire and carrying them over the network belong to
//! the remote session client that drives the engine.

use crate::game::{Cell, Character, Class, GameMap, Id, Team};
use vstd::prelude::*;

verus! {

/// Request to create a new game on `map` with `team_size` characters per team.
pub struct WireNewGameRequest {
    pub map: Id<GameMap>,
    pub team_size: usize,
}

/// Mathematical view of a [`WireNewGameRequest`].
#[verifier::ext_equal]
pub ghost struct WireNewGameRequestV {
    pub map: Id<GameMap>,
    pub team_size: int,
}

impl View for WireNewGameRequest {
    type V = WireNewGameRequestV;

    open spec fn view(&self) -> WireNewGameRequestV {
        WireNewGameRequestV { map: self.map, team_size: self.team_size as int }
    }
}

/// The backend's answer to a created (or joined) game: the remote game
/// identifier and the map the game is played on.
pub struct WireCreatedGame {
    pub game_id: String,
    pub map: Id<GameMap>,
}

/// Mathematical view of a [`WireCreatedGame`].
#[verifier::ext_equal]
pub ghost struct WireCreatedGameV {
    pub game_id: Seq<char>,
    pub map: Id<GameMap>,
}

impl View for WireCreatedGame {
    type V = WireCreatedGameV;

    open spec fn view(&self) -> WireCreatedGameV {
        WireCreatedGameV { game_id: self.game_id@, map: self.map }
    }
}

/// Request to create a character in an existing game.
pub struct WireNewCharRequest {
    pub name: String,
    pub class: Id<Class>,
    pub team: Id<Team>,
    pub position: Id<Cell>,
}

/// Mathematical view of a [`WireNewCharRequest`].
#[verifier::ext_equal]
pub ghost struct WireNewCharRequestV {
    pub name: Seq<char>,
    pub class: Id<Class>,
    pub team: Id<Team>,
    pub position: Id<Cell>,
}

impl View for WireNewCharRequest {
    type V = WireNewCharRequestV;

    open spec fn view(&self) -> WireNewCharRequestV {
        WireNewCharRequestV {
            name: self.name@,
            class: self.class,
            team: self.team,
            position: self.position,
        }
    }
}

/// The backend's answer to a created character: the login under which the
/// character was registered, and its identifier.
pub struct WireCreatedChar(pub String, pub Id<Character>);

/// Mathematical view of a [`WireCreatedChar`].
#[verifier::ext_equal]
pub ghost struct WireCreatedCharV {
    pub login: Seq<char>,
    pub id: Id<Character>,
}

impl View for WireCreatedChar {
    type V = WireCreatedCharV;

    open spec fn view(&self) -> WireCreatedCharV {
        WireCreatedCharV { login: self.0@, id: self.1 }
    }
}

} // verus!

//! The static game catalog: maps, classes, teams and spawn cells.
//!
//! The catalog is loaded once at start-up and never mutated afterwards.  All
//! entity data is addressed through [`Id`] handles into dense collections
//! ([`IdMap`]); the handles themselves carry no data and are copied by value.

use core::marker::PhantomData;
use vstd::prelude::*;

verus! {

/// An opaque handle into one of the catalog's dense collections,
/// parameterized by the entity type it names.  Identifiers are stable for
/// the lifetime of the catalog and carry no data themselves.
#[derive(Debug)]
pub struct Id<T> {
    pub index: usize,
    pub marker: PhantomData<T>,
}

impl<T> Clone for Id<T> {
    fn clone(&self) -> (r: Self)
        ensures
            r == *self,
    {
        Id { index: self.index, marker: self.marker }
    }
}

impl<T> Copy for Id<T> {

}

/// The identifier whose raw index is `i`.
pub open spec fn id_at<T>(i: int) -> Id<T> {
    Id { index: i as usize, marker: PhantomData }
}

impl<T> Id<T> {
    /// The identifier with raw index `index`.
    pub fn new(index: usize) -> (r: Id<T>)
        ensures
            r == id_at::<T>(index as int),
    {
        Id { index, marker: PhantomData }
    }

    /// The raw index of this identifier.
    pub fn raw(&self) -> (r: usize)
        ensures
            r == self.index,
    {
        self.index
    }
}

/// The sequence of identifiers `0, 1, .., n - 1`.
pub open spec fn ids_seq<T>(n: int) -> Seq<Id<T>> {
    Seq::new(n as nat, |i: int| id_at::<T>(i))
}

/// A dense, immutable collection addressed by [`Id`] handles: the handle
/// with raw index `i` names the `i`-th entry.
#[derive(Debug)]
pub struct IdMap<T> {
    pub items: Vec<T>,
}

impl<T> IdMap<T> {
    /// The number of entries.
    pub fn len(&self) -> (r: usize)
        ensures
            r == self.items@.len(),
    {
        self.items.len()
    }

    /// The entry named by `id`, or `None` if `id` is out of range.
    pub fn get(&self, id: Id<T>) -> (r: Option<&T>)
        ensures
            id.index < self.items@.len() ==> (r matches Some(t) && *t == self.items@[id.index as int]),
            id.index >= self.items@.len() ==> r is None,
    {
        if id.index < self.items.len() {
            Some(&self.items[id.index])
        } else {
            None
        }
    }

    /// All identifiers of this collection, in index order.
    pub fn ids(&self) -> (r: Vec<Id<T>>)
        ensures
            r@ == ids_seq::<T>(self.items@.len() as int),
    {
        let mut out: Vec<Id<T>> = Vec::new();
        let n = self.items.len();
        let mut i: usize = 0;
        while i < n
            invariant
                i <= n,
                n == self.items@.len(),
                out@ == ids_seq::<T>(i as int),
            decreases n - i,
        {
            out.push(Id::new(i));
            proof {
                assert(out@ =~= ids_seq::<T>(i + 1));
            }
            i = i + 1;
        }
        out
    }
}

/// Marker entity for spawn-cell identifiers.
#[derive(Debug)]
pub struct Cell;

/// Marker entity for character identifiers assigned by the backend.
#[derive(Debug)]
pub struct Character;

/// One team of a map: a display name and the spawn cells that characters of
/// this team may start on.
#[derive(Debug)]
pub struct Team {
    pub name: String,
    pub cells: Vec<Id<Cell>>,
}

/// A playable character class.
#[derive(Debug)]
pub struct Class {
    pub name: String,
    pub description: String,
}

/// A map of the catalog: its display name, its dimensions in cells, and its
/// teams with their spawn cells.
#[derive(Debug)]
pub struct GameMap {
    pub name: String,
    pub width: usize,
    pub height: usize,
    pub teams: Vec<Team>,
}

/// The immutable catalog of everything the backend serves: the available
/// maps and the available character classes.
#[derive(Debug)]
pub struct GameDefinition {
    pub maps: IdMap<GameMap>,
    pub classes: IdMap<Class>,
}

/// A snapshot of a remote game's state, as returned by a poll.  The workflow
/// engine only carries it forward; interpreting it belongs to active play.
#[derive(Debug)]
pub struct GameState {
    pub map: Id<GameMap>,
}

// ------------------------------------------------------------------
// Mathematical views
// ------------------------------------------------------------------

/// Mathematical view of a [`Team`].
#[verifier::ext_equal]
pub ghost struct TeamV {
    pub name: Seq<char>,
    pub cells: Seq<Id<Cell>>,
}

impl View for Team {
    type V = TeamV;

    open spec fn view(&self) -> TeamV {
        TeamV { name: self.name@, cells: self.cells@ }
    }
}

/// Mathematical view of a [`Class`].
#[verifier::ext_equal]
pub ghost struct ClassV {
    pub name: Seq<char>,
    pub description: Seq<char>,
}

impl View for Class {
    type V = ClassV;

    open spec fn view(&self) -> ClassV {
        ClassV { name: self.name@, description: self.description@ }
    }
}

/// Mathematical view of a [`GameMap`].
#[verifier::ext_equal]
pub ghost struct MapV {
    pub name: Seq<char>,
    pub width: nat,
    pub height: nat,
    pub teams: Seq<TeamV>,
}

impl View for GameMap {
    type V = MapV;

    open spec fn view(&self) -> MapV {
        MapV {
            name: self.name@,
            width: self.width as nat,
            height: self.height as nat,
            teams: self.teams@.map_values(|t: Team| t@),
        }
    }
}

impl<T: View> View for IdMap<T> {
    type V = Seq<T::V>;

    open spec fn view(&self) -> Seq<T::V> {
        self.items@.map_values(|t: T| t@)
    }
}

/// Mathematical view of the whole catalog.
#[verifier::ext_equal]
pub ghost struct CatalogV {
    pub maps: Seq<MapV>,
    pub classes: Seq<ClassV>,
}

impl View for GameDefinition {
    type V = CatalogV;

    open spec fn view(&self) -> CatalogV {
        CatalogV { maps: self.maps@, classes: self.classes@ }
    }
}

/// Mathematical view of a remote [`GameState`] snapshot.
#[verifier::ext_equal]
pub ghost struct GameStateV {
    pub map: Id<GameMap>,
}

impl View for GameState {
    type V = GameStateV;

    open spec fn view(&self) -> GameStateV {
        GameStateV { map: self.map }
    }
}

// ------------------------------------------------------------------
// Well-formedness
// ------------------------------------------------------------------

/// A map is well formed when it has at least one team, every team has at
/// least one spawn cell — so that cyclic selection never faces an empty
/// list — and the team count fits the machine's index type.
pub open spec fn map_wf(m: MapV) -> bool {
    &&& 0 < m.teams.len() <= usize::MAX
    &&& forall|t: int| 0 <= t < m.teams.len() ==> (#[trigger] m.teams[t]).cells.len() > 0
}

/// The catalog is well formed when it offers at least one map and one class,
/// their counts fit the machine's index type, and every map is well formed.
pub open spec fn catalog_wf(c: CatalogV) -> bool {
    &&& 0 < c.maps.len() <= usize::MAX
    &&& 0 < c.classes.len() <= usize::MAX
    &&& forall|m: int| 0 <= m < c.maps.len() ==> map_wf(#[trigger] c.maps[m])
}

impl GameMap {
    /// The identifiers of this map's teams, in index order.
    pub fn team_ids(&self) -> (r: Vec<Id<Team>>)
        ensures
            r@ == ids_seq::<Team>(self.teams@.len() as int),
    {
        let mut out: Vec<Id<Team>> = Vec::new();
        let n = self.teams.len();
        let mut i: usize = 0;
        while i < n
            invariant
                i <= n,
                n == self.teams@.len(),
                out@ == ids_seq::<Team>(i as int),
            decreases n - i,
        {
            out.push(Id::new(i));
            proof {
                assert(out@ =~= ids_seq::<Team>(i + 1));
            }
            i = i + 1;
        }
        out
    }

    /// Whether this map satisfies [`map_wf`].
    pub fn is_valid(&self) -> (r: bool)
        ensures
            r == map_wf(self@),
    {
        if self.teams.len() == 0 {
            return false;
        }
        let n = self.teams.len();
        let mut t: usize = 0;
        while t < n
            invariant
                t <= n,
                n == self.teams@.len(),
                forall|j: int| 0 <= j < t ==> (#[trigger] self@.teams[j]).cells.len() > 0,
            decreases n - t,
        {
            if self.teams[t].cells.len() == 0 {
                proof {
                    assert(self@.teams[t as int] == self.teams@[t as int]@);
                }
                return false;
            }
            t = t + 1;
        }
        true
    }
}

impl GameDefinition {
    /// Whether this catalog satisfies [`catalog_wf`].  The driving loop is
    /// expected to check this once, right after loading the catalog, before
    /// seeding the workflow.
    pub fn is_valid(&self) -> (r: bool)
        ensures
            r == catalog_wf(self@),
    {
        if self.maps.items.len() == 0 || self.classes.items.len() == 0 {
            return false;
        }
        let n = self.maps.items.len();
        let mut m: usize = 0;
        while m < n
            invariant
                m <= n,
                n == self.maps.items@.len(),
                forall|j: int| 0 <= j < m ==> map_wf(#[trigger] self@.maps[j]),
            decreases n - m,
        {
            if !self.maps.items[m].is_valid() {
                proof {
                    assert(self@.maps[m as int] == self.maps.items@[m as int]@);
                }
                return false;
            }
            m = m + 1;
        }
        true
    }
}

} // verus!

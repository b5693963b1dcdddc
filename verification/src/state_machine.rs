//! An early, reduced iteration of the workflow: map selection only.
//!
//! Kept beside the full engine of [`crate::state`]; it exercises the same
//! cyclic-selection rule over a bare list of map identifiers.

use crate::game::{GameMap, Id};
use crate::model::{cycle_left, cycle_right};
use vstd::prelude::*;

verus! {

/// The reduced machine: selecting a map, or done.
pub enum StateMachine {
    SelectMap(Vec<Id<GameMap>>, usize),
    Exit,
}

/// Input alphabet of the reduced machine.
pub enum Input {
    Exit,
    Left,
    Right,
    Other,
}

/// Well-formedness: the candidate list is non-empty and the highlighted
/// index is one of its indices.
pub open spec fn sm_wf(s: StateMachine) -> bool {
    match s {
        StateMachine::SelectMap(map_ids, curr_id) => 0 < map_ids@.len() && curr_id < map_ids@.len(),
        StateMachine::Exit => true,
    }
}

/// Transition rule of the reduced machine: `Left` and `Right` cycle the
/// highlighted index, `Exit` ends it, anything else changes nothing.
pub open spec fn sm_next(s: StateMachine, i: Input) -> StateMachine {
    match s {
        StateMachine::SelectMap(map_ids, curr_id) => match i {
            Input::Exit => StateMachine::Exit,
            Input::Left => StateMachine::SelectMap(
                map_ids,
                cycle_left(curr_id as int, map_ids@.len() as int) as usize,
            ),
            Input::Right => StateMachine::SelectMap(
                map_ids,
                cycle_right(curr_id as int, map_ids@.len() as int) as usize,
            ),
            Input::Other => StateMachine::SelectMap(map_ids, curr_id),
        },
        StateMachine::Exit => StateMachine::Exit,
    }
}

impl StateMachine {
    /// Feed one input to the machine.  Must not be called once the machine
    /// has reached `Exit`: that is a logic error in the driving loop.
    pub fn next(self, i: Input) -> (r: StateMachine)
        requires
            sm_wf(self),
            !(self is Exit),
        ensures
            r == sm_next(self, i),
            sm_wf(r),
    {
        match self {
            StateMachine::SelectMap(map_ids, curr_id) => StateMachine::select_map(
                i,
                map_ids,
                curr_id,
            ),
            StateMachine::Exit => {
                // Statically excluded by the precondition.
                proof {
                    assert(false);
                }
                StateMachine::Exit
            },
        }
    }

    /// The map-selection rule of the reduced machine.
    fn select_map(i: Input, map_ids: Vec<Id<GameMap>>, curr_id: usize) -> (r: StateMachine)
        requires
            0 < map_ids@.len(),
            curr_id < map_ids@.len(),
        ensures
            r == sm_next(StateMachine::SelectMap(map_ids, curr_id), i),
            sm_wf(r),
    {
        let mut curr: usize = curr_id;
        match i {
            Input::Exit => {
                return StateMachine::Exit;
            },
            Input::Left => {
                if curr == 0 {
                    curr = map_ids.len() - 1;
                } else {
                    curr = curr - 1;
                }
            },
            Input::Right => {
                if curr == map_ids.len() - 1 {
                    curr = 0;
                } else {
                    curr = curr + 1;
                }
            },
            Input::Other => {},
        }

        StateMachine::SelectMap(map_ids, curr)
    }
}

} // verus!

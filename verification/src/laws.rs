//! The laws of the workflow engine, stated and proved over the model of
//! [`crate::model`].
//!
//! Each public proof function states one property of the engine as a whole:
//! cyclic navigation returns to its starting point, accumulated context is
//! never lost on the way to the waiting state, the wizard only moves
//! forward, the global exit event always wins, passive waiting is
//! idempotent, and every reachable state stays well formed.

use crate::game::{catalog_wf, map_wf, GameMap, Id};
use crate::model::{
    cycle_left, cycle_right, global_next, global_wf, loop_run, loop_step, the_map, EnvV, EventV,
    GlobalDataV, GlobalV, SelectMapV, TransitionV, WizardStep,
};
use vstd::arithmetic::div_mod::{
    lemma_fundamental_div_mod, lemma_fundamental_div_mod_converse, lemma_mod_add_multiples_vanish,
    lemma_small_mod,
};
use vstd::prelude::*;

verus! {

// ------------------------------------------------------------------
// Cyclic navigation (pure form)
// ------------------------------------------------------------------

/// The highlighted index after `n` single steps to the right.
pub open spec fn cycle_right_n(curr: int, len: int, n: nat) -> int
    decreases n,
{
    if n == 0 {
        curr
    } else {
        cycle_right(cycle_right_n(curr, len, (n - 1) as nat), len)
    }
}

/// The highlighted index after `n` single steps to the left.
pub open spec fn cycle_left_n(curr: int, len: int, n: nat) -> int
    decreases n,
{
    if n == 0 {
        curr
    } else {
        cycle_left(cycle_left_n(curr, len, (n - 1) as nat), len)
    }
}

/// Incrementing under a modulus: the successor either steps up or wraps.
proof fn lemma_mod_succ(a: int, m: int)
    requires
        m > 0,
        a >= 0,
    ensures
        (a + 1) % m == if a % m == m - 1 {
            0int
        } else {
            a % m + 1
        },
{
    let q = a / m;
    let r = a % m;
    lemma_fundamental_div_mod(a, m);
    if r == m - 1 {
        assert((q + 1) * m == q * m + m) by (nonlinear_arith);
        lemma_fundamental_div_mod_converse(a + 1, m, q + 1, 0);
    } else {
        lemma_fundamental_div_mod_converse(a + 1, m, q, r + 1);
    }
}

/// After `n` right steps from `curr`, the highlighted index is
/// `(curr + n) % len`, and in particular still in range.
pub proof fn lemma_cycle_right_n_mod(curr: int, len: int, n: nat)
    requires
        0 <= curr < len,
    ensures
        0 <= cycle_right_n(curr, len, n) < len,
        cycle_right_n(curr, len, n) == (curr + n) % len,
    decreases n,
{
    if n == 0 {
        lemma_small_mod(curr as nat, len as nat);
    } else {
        lemma_cycle_right_n_mod(curr, len, (n - 1) as nat);
        lemma_mod_succ(curr + n - 1, len);
    }
}

/// Stepping right commutes with iteration: iterating `n` steps from `curr`
/// is one step from `curr` followed by `n - 1` steps.
proof fn lemma_cycle_right_n_comm(curr: int, len: int, n: nat)
    requires
        n >= 1,
    ensures
        cycle_right_n(curr, len, n) == cycle_right_n(cycle_right(curr, len), len, (n - 1) as nat),
    decreases n,
{
    if n == 1 {
        assert(cycle_right_n(curr, len, 1) == cycle_right(cycle_right_n(curr, len, 0), len));
        assert(cycle_right_n(cycle_right(curr, len), len, 0) == cycle_right(curr, len));
    } else {
        lemma_cycle_right_n_comm(curr, len, (n - 1) as nat);
        assert(cycle_right_n(curr, len, n) == cycle_right(cycle_right_n(curr, len, (n - 1) as nat), len));
        assert(cycle_right_n(cycle_right(curr, len), len, (n - 1) as nat) == cycle_right(
            cycle_right_n(cycle_right(curr, len), len, (n - 2) as nat),
            len,
        ));
    }
}

/// The same, for stepping left.
proof fn lemma_cycle_left_n_comm(curr: int, len: int, n: nat)
    requires
        n >= 1,
    ensures
        cycle_left_n(curr, len, n) == cycle_left_n(cycle_left(curr, len), len, (n - 1) as nat),
    decreases n,
{
    if n == 1 {
        assert(cycle_left_n(curr, len, 1) == cycle_left(cycle_left_n(curr, len, 0), len));
        assert(cycle_left_n(cycle_left(curr, len), len, 0) == cycle_left(curr, len));
    } else {
        lemma_cycle_left_n_comm(curr, len, (n - 1) as nat);
        assert(cycle_left_n(curr, len, n) == cycle_left(cycle_left_n(curr, len, (n - 1) as nat), len));
        assert(cycle_left_n(cycle_left(curr, len), len, (n - 1) as nat) == cycle_left(
            cycle_left_n(cycle_left(curr, len), len, (n - 2) as nat),
            len,
        ));
    }
}

/// One step left and one step right cancel, in either order.
proof fn lemma_cycle_inverse(c: int, len: int)
    requires
        0 <= c < len,
    ensures
        0 <= cycle_left(c, len) < len,
        0 <= cycle_right(c, len) < len,
        cycle_right(cycle_left(c, len), len) == c,
        cycle_left(cycle_right(c, len), len) == c,
{
}

/// `n` right steps undo `n` left steps.
proof fn lemma_cycle_cancel(c: int, len: int, n: nat)
    requires
        0 <= c < len,
    ensures
        0 <= cycle_left_n(c, len, n) < len,
        cycle_right_n(cycle_left_n(c, len, n), len, n) == c,
    decreases n,
{
    if n > 0 {
        lemma_cycle_cancel(c, len, (n - 1) as nat);
        let l1 = cycle_left_n(c, len, (n - 1) as nat);
        let l = cycle_left(l1, len);
        lemma_cycle_inverse(l1, len);
        lemma_cycle_right_n_comm(l, len, n);
    }
}

/// Cyclic navigation, right half: in a non-empty option list of length
/// `len`, repeating a right step `len` times from any index returns to that
/// index.
pub proof fn lemma_cycle_right_roundtrip(curr: int, len: int)
    requires
        0 <= curr < len,
    ensures
        cycle_right_n(curr, len, len as nat) == curr,
{
    lemma_cycle_right_n_mod(curr, len, len as nat);
    lemma_mod_add_multiples_vanish(curr, len);
    lemma_small_mod(curr as nat, len as nat);
}

/// Cyclic navigation, left half: in a non-empty option list of length
/// `len`, repeating a left step `len` times from any index returns to that
/// index.
pub proof fn lemma_cycle_left_roundtrip(curr: int, len: int)
    requires
        0 <= curr < len,
    ensures
        cycle_left_n(curr, len, len as nat) == curr,
{
    lemma_cycle_cancel(curr, len, len as nat);
    let l = cycle_left_n(curr, len, len as nat);
    lemma_cycle_right_roundtrip(l, len);
}

// ------------------------------------------------------------------
// Cyclic navigation, through the driving loop
// ------------------------------------------------------------------

/// The steps of a driving loop that feeds the same event at every
/// iteration, with the backend answering `envs[k]` at iteration `k`.
pub open spec fn const_steps(e: EventV, envs: Seq<EnvV>) -> Seq<(EventV, EnvV)> {
    Seq::new(envs.len(), |k: int| (e, envs[k]))
}

/// Running `envs.len()` navigation steps on the map-selection screen
/// cycles the highlighted index and changes nothing else.
proof fn lemma_select_map_run(global: GlobalDataV, data: SelectMapV, envs: Seq<EnvV>, right: bool)
    requires
        0 <= data.curr_id < data.map_ids.len(),
    ensures
        loop_run(
            GlobalV::SelectMap { global, data },
            const_steps(if right {
                EventV::Right
            } else {
                EventV::Left
            }, envs),
        ) == (GlobalV::SelectMap {
            global,
            data: SelectMapV {
                map_ids: data.map_ids,
                curr_id: if right {
                    cycle_right_n(data.curr_id, data.map_ids.len() as int, envs.len())
                } else {
                    cycle_left_n(data.curr_id, data.map_ids.len() as int, envs.len())
                },
            },
        }),
    decreases envs.len(),
{
    let e = if right {
        EventV::Right
    } else {
        EventV::Left
    };
    let len = data.map_ids.len() as int;
    if envs.len() == 0 {
        assert(loop_run(GlobalV::SelectMap { global, data }, const_steps(e, envs))
            == GlobalV::SelectMap { global, data });
        assert(SelectMapV { map_ids: data.map_ids, curr_id: data.curr_id } == data);
    } else {
        let c1 = if right {
            cycle_right(data.curr_id, len)
        } else {
            cycle_left(data.curr_id, len)
        };
        let data1 = SelectMapV { map_ids: data.map_ids, curr_id: c1 };
        lemma_cycle_inverse(data.curr_id, len);
        lemma_select_map_run(global, data1, envs.drop_first(), right);
        if right {
            lemma_cycle_right_n_comm(data.curr_id, len, envs.len());
        } else {
            lemma_cycle_left_n_comm(data.curr_id, len, envs.len());
        }
        assert(const_steps(e, envs).drop_first() =~= const_steps(e, envs.drop_first()));
        assert(loop_step(GlobalV::SelectMap { global, data }, e, envs[0])
            == GlobalV::SelectMap { global, data: data1 });
    }
}

/// Cyclic navigation on the map-selection screen: one `Right` per candidate
/// map — whatever the backend would have answered at each iteration —
/// returns exactly the original state; so does one `Left` per candidate.
pub proof fn lemma_cyclic_navigation_select_map(s: GlobalV, envs: Seq<EnvV>)
    requires
        global_wf(s),
        s is SelectMap,
        envs.len() == s->SelectMap_data.map_ids.len(),
    ensures
        loop_run(s, const_steps(EventV::Right, envs)) == s,
        loop_run(s, const_steps(EventV::Left, envs)) == s,
{
    let global = s->SelectMap_global;
    let data = s->SelectMap_data;
    let len = data.map_ids.len() as int;
    lemma_select_map_run(global, data, envs, true);
    lemma_select_map_run(global, data, envs, false);
    lemma_cycle_right_roundtrip(data.curr_id, len);
    lemma_cycle_left_roundtrip(data.curr_id, len);
    assert(SelectMapV { map_ids: data.map_ids, curr_id: data.curr_id } == data);
    assert(GlobalV::SelectMap { global, data } == s);
}

/// Running `envs.len()` navigation steps on the team step of the wizard
/// cycles the highlighted team and changes nothing else.
proof fn lemma_team_run(
    global: GlobalDataV,
    data: crate::model::CreateCharacterV,
    envs: Seq<EnvV>,
    right: bool,
)
    requires
        0 <= data.team_index < data.teams.len(),
    ensures
        loop_run(
            GlobalV::CreateCharacter { global, step: WizardStep::Team, data },
            const_steps(if right {
                EventV::Right
            } else {
                EventV::Left
            }, envs),
        ) == (GlobalV::CreateCharacter {
            global,
            step: WizardStep::Team,
            data: crate::model::CreateCharacterV {
                team_index: if right {
                    cycle_right_n(data.team_index, data.teams.len() as int, envs.len())
                } else {
                    cycle_left_n(data.team_index, data.teams.len() as int, envs.len())
                },
                ..data
            },
        }),
    decreases envs.len(),
{
    let e = if right {
        EventV::Right
    } else {
        EventV::Left
    };
    let len = data.teams.len() as int;
    if envs.len() == 0 {
        assert(crate::model::CreateCharacterV { team_index: data.team_index, ..data } == data);
    } else {
        let c1 = if right {
            cycle_right(data.team_index, len)
        } else {
            cycle_left(data.team_index, len)
        };
        let data1 = crate::model::CreateCharacterV { team_index: c1, ..data };
        lemma_cycle_inverse(data.team_index, len);
        lemma_team_run(global, data1, envs.drop_first(), right);
        if right {
            lemma_cycle_right_n_comm(data.team_index, len, envs.len());
        } else {
            lemma_cycle_left_n_comm(data.team_index, len, envs.len());
        }
        assert(const_steps(e, envs).drop_first() =~= const_steps(e, envs.drop_first()));
        assert(loop_step(GlobalV::CreateCharacter { global, step: WizardStep::Team, data }, e, envs[0])
            == GlobalV::CreateCharacter { global, step: WizardStep::Team, data: data1 });
    }
}

/// Cyclic navigation on the team step of the wizard: one `Right` per team
/// of the chosen map returns exactly the original state; so does one
/// `Left` per team.
pub proof fn lemma_cyclic_navigation_team(s: GlobalV, envs: Seq<EnvV>)
    requires
        global_wf(s),
        s matches GlobalV::CreateCharacter { step: WizardStep::Team, .. },
        envs.len() == s->CreateCharacter_data.teams.len(),
    ensures
        loop_run(s, const_steps(EventV::Right, envs)) == s,
        loop_run(s, const_steps(EventV::Left, envs)) == s,
{
    let global = s->CreateCharacter_global;
    let data = s->CreateCharacter_data;
    let len = data.teams.len() as int;
    lemma_team_run(global, data, envs, true);
    lemma_team_run(global, data, envs, false);
    lemma_cycle_right_roundtrip(data.team_index, len);
    lemma_cycle_left_roundtrip(data.team_index, len);
    assert(crate::model::CreateCharacterV { team_index: data.team_index, ..data } == data);
    assert(GlobalV::CreateCharacter { global, step: WizardStep::Team, data } == s);
}

// ------------------------------------------------------------------
// Context preservation
// ------------------------------------------------------------------

/// Whether `t` still carries the session context `game_id` and `map`
/// gathered when the game was created or joined — or has already left the
/// session for the terminal state.
pub open spec fn carries_session(t: GlobalV, game_id: Seq<char>, map: Id<GameMap>) -> bool {
    ||| (t matches GlobalV::CreateCharacter { data, .. } && data.game_id == game_id && data.map
        == map)
    ||| (t matches GlobalV::WaitForGameCreation { data, .. } && data.game_id == game_id
        && data.map == map)
    ||| (t matches GlobalV::PlayGame { data, .. } && data.game_id == game_id && data.map == map)
    ||| t is Exit
}

/// One driving-loop iteration never loses the session context.
proof fn lemma_carries_session_step(
    t: GlobalV,
    game_id: Seq<char>,
    map: Id<GameMap>,
    i: EventV,
    env: EnvV,
)
    requires
        carries_session(t, game_id, map),
    ensures
        carries_session(loop_step(t, i, env), game_id, map),
{
}

/// However many iterations the driving loop makes, the session context is
/// never lost.
proof fn lemma_carries_session_run(
    t: GlobalV,
    game_id: Seq<char>,
    map: Id<GameMap>,
    steps: Seq<(EventV, EnvV)>,
)
    requires
        carries_session(t, game_id, map),
    ensures
        carries_session(loop_run(t, steps), game_id, map),
    decreases steps.len(),
{
    if steps.len() > 0 {
        lemma_carries_session_step(t, game_id, map, steps[0].0, steps[0].1);
        lemma_carries_session_run(
            loop_step(t, steps[0].0, steps[0].1),
            game_id,
            map,
            steps.drop_first(),
        );
    }
}

/// Context preservation: from any wizard state, however the driving loop
/// continues — through the name step's confirmation into waiting and on
/// into play — every later state still carries the same remote game
/// identifier and the same map.
pub proof fn lemma_context_preservation(s: GlobalV, steps: Seq<(EventV, EnvV)>)
    requires
        s is CreateCharacter,
    ensures
        carries_session(
            loop_run(s, steps),
            s->CreateCharacter_data.game_id,
            s->CreateCharacter_data.map,
        ),
{
    lemma_carries_session_run(
        s,
        s->CreateCharacter_data.game_id,
        s->CreateCharacter_data.map,
        steps,
    );
}

/// Leaving the map-selection screen: `Confirm` issues a create-game request
/// for the highlighted map with a team size of two, retaining the screen's
/// state; once the backend answers, the wizard opens on its first step
/// carrying exactly the answered remote game identifier.
pub proof fn lemma_create_game_carries_answer(s: GlobalV, env: EnvV)
    requires
        s is SelectMap,
    ensures
        (global_next(s, EventV::Confirm) matches TransitionV::CreateGame { state, request }
            && state == s && request.map
            == s->SelectMap_data.map_ids[s->SelectMap_data.curr_id] && request.team_size == 2),
        (loop_step(s, EventV::Confirm, env) matches GlobalV::CreateCharacter { step, data, .. }
            && step is Team && data.game_id == env.created_game.game_id && data.map
            == s->SelectMap_data.map_ids[s->SelectMap_data.curr_id]),
{
}

/// Context preservation, end to end: leave the map-selection screen by
/// confirming the highlighted map; whatever the driving loop does
/// afterwards, every wizard, waiting or playing state it reaches still
/// carries the remote game identifier that the create-game call answered,
/// and the map that was highlighted.
pub proof fn lemma_session_keeps_created_game_id(
    s: GlobalV,
    env: EnvV,
    steps: Seq<(EventV, EnvV)>,
)
    requires
        s is SelectMap,
    ensures
        carries_session(
            loop_run(loop_step(s, EventV::Confirm, env), steps),
            env.created_game.game_id,
            s->SelectMap_data.map_ids[s->SelectMap_data.curr_id],
        ),
{
    let s1 = loop_step(s, EventV::Confirm, env);
    lemma_create_game_carries_answer(s, env);
    lemma_carries_session_run(
        s1,
        env.created_game.game_id,
        s->SelectMap_data.map_ids[s->SelectMap_data.curr_id],
        steps,
    );
}

// ------------------------------------------------------------------
// Forward-only wizard
// ------------------------------------------------------------------

/// Forward-only wizard: from the position step, `Confirm` advances the step
/// (to the name step), and no other single event that completes locally
/// moves the wizard to a different step.
pub proof fn lemma_forward_only_wizard(s: GlobalV, i: EventV)
    requires
        s matches GlobalV::CreateCharacter { step: WizardStep::Position, .. },
    ensures
        i is Confirm ==> global_next(s, i) == (TransitionV::Done(
            GlobalV::CreateCharacter {
                global: s->CreateCharacter_global,
                step: WizardStep::Name,
                data: s->CreateCharacter_data,
            },
        )),
        !(i is Confirm) ==> (global_next(s, i) matches TransitionV::Done(t2) ==> (
        t2 matches GlobalV::CreateCharacter { step: st, .. } ==> st is Position)),
{
}

// ------------------------------------------------------------------
// Global exit
// ------------------------------------------------------------------

/// Appending one iteration to a driving-loop run performs it on the run's
/// final state.
proof fn lemma_loop_run_push(s: GlobalV, steps: Seq<(EventV, EnvV)>, p: (EventV, EnvV))
    ensures
        loop_run(s, steps.push(p)) == loop_step(loop_run(s, steps), p.0, p.1),
    decreases steps.len(),
{
    if steps.len() == 0 {
        let q = steps.push(p).drop_first();
        assert(q =~= Seq::<(EventV, EnvV)>::empty());
        assert(steps.push(p)[0] == p);
        assert(loop_run(s, steps.push(p)) == loop_run(loop_step(s, p.0, p.1), q));
        assert(loop_run(loop_step(s, p.0, p.1), q) == loop_step(s, p.0, p.1));
        assert(loop_run(s, steps) == s);
    } else {
        let s1 = loop_step(s, steps[0].0, steps[0].1);
        assert(steps.push(p)[0] == steps[0]);
        assert(steps.push(p).drop_first() =~= steps.drop_first().push(p));
        assert(loop_run(s, steps.push(p)) == loop_run(s1, steps.drop_first().push(p)));
        lemma_loop_run_push(s1, steps.drop_first(), p);
        assert(loop_run(s, steps) == loop_run(s1, steps.drop_first()));
    }
}

/// Global exit: the exit event ends the workflow from every state, so after
/// any sequence of driving-loop iterations whatsoever, one exit event ends
/// the session.
pub proof fn lemma_global_exit(s: GlobalV, steps: Seq<(EventV, EnvV)>, env: EnvV)
    ensures
        loop_step(s, EventV::Exit, env) is Exit,
        loop_run(s, steps.push((EventV::Exit, env))) is Exit,
{
    lemma_loop_run_push(s, steps, (EventV::Exit, env));
}

/// The terminal state absorbs every event: a correct driving loop halts on
/// it, and even if it were stepped further nothing would change.
pub proof fn lemma_exit_absorbing(i: EventV, env: EnvV)
    ensures
        loop_step(GlobalV::Exit, i, env) == GlobalV::Exit,
{
}

// ------------------------------------------------------------------
// Idempotent waiting
// ------------------------------------------------------------------

/// Idempotent waiting: while every poll comes back absent, any number of
/// timeout-driven iterations leaves the waiting state — all of its carried
/// data included — exactly unchanged.
pub proof fn lemma_idempotent_waiting(s: GlobalV, envs: Seq<EnvV>)
    requires
        s is WaitForGameCreation,
        forall|k: int| 0 <= k < envs.len() ==> (#[trigger] envs[k]).poll is None,
    ensures
        loop_run(s, const_steps(EventV::Timeout, envs)) == s,
    decreases envs.len(),
{
    if envs.len() > 0 {
        assert(envs[0].poll is None);
        assert(loop_step(s, EventV::Timeout, envs[0]) == s);
        assert(const_steps(EventV::Timeout, envs).drop_first() =~= const_steps(
            EventV::Timeout,
            envs.drop_first(),
        ));
        lemma_idempotent_waiting(s, envs.drop_first());
    }
}

// ------------------------------------------------------------------
// Well-formedness preservation
// ------------------------------------------------------------------

/// Entering the wizard from a well-formed catalog on a valid map yields a
/// well-formed state.
proof fn lemma_enter_wizard_wf(global: GlobalDataV, map_id: Id<GameMap>, game_id: Seq<char>)
    requires
        catalog_wf(global.game),
        map_id.index < global.game.maps.len(),
    ensures
        global_wf(crate::model::enter_wizard(global, map_id, game_id)),
{
    assert(map_wf(global.game.maps[map_id.index as int]));
    let m = the_map(global, map_id);
    assert(m.teams[0].cells.len() > 0);
    assert forall|k: int| 0 <= k < m.teams.len() implies (#[trigger] crate::game::ids_seq::<
        crate::game::Team,
    >(m.teams.len() as int)[k]).index == k by {
        assert(crate::game::ids_seq::<crate::game::Team>(m.teams.len() as int)[k]
            == crate::game::id_at::<crate::game::Team>(k));
    }
}

/// Every driving-loop iteration preserves well-formedness: the indices of a
/// reachable state are always valid indices of their option lists.
pub proof fn lemma_loop_step_preserves_wf(s: GlobalV, i: EventV, env: EnvV)
    requires
        global_wf(s),
    ensures
        global_wf(loop_step(s, i, env)),
{
    if i is Exit {
    } else {
        match s {
            GlobalV::CreateOrJoin { global, joining, login } => {
                if joining && i is Confirm {
                    match env.joined_game {
                        Some(info) => {
                            if info.map.index < global.game.maps.len() {
                                lemma_enter_wizard_wf(global, info.map, info.game_id);
                            }
                        },
                        None => {},
                    }
                }
                if !joining && i is Confirm {
                    let n = global.game.maps.len() as int;
                    assert forall|k: int| 0 <= k < n implies (#[trigger] crate::game::ids_seq::<
                        GameMap,
                    >(n)[k]).index < global.game.maps.len() by {
                        assert(crate::game::ids_seq::<GameMap>(n)[k] == crate::game::id_at::<
                            GameMap,
                        >(k));
                    }
                }
            },
            GlobalV::SelectMap { global, data } => {
                if i is Confirm {
                    lemma_enter_wizard_wf(
                        global,
                        data.map_ids[data.curr_id],
                        env.created_game.game_id,
                    );
                }
            },
            GlobalV::CreateCharacter { global, step, data } => {
                assert(map_wf(the_map(global, data.map)));
            },
            GlobalV::WaitForGameCreation { global, data } => {},
            GlobalV::PlayGame { global, our_turn, data } => {},
            GlobalV::Exit => {},
        }
    }
}

/// However many iterations the driving loop makes from a well-formed state,
/// it only ever reaches well-formed states.
pub proof fn lemma_loop_run_preserves_wf(s: GlobalV, steps: Seq<(EventV, EnvV)>)
    requires
        global_wf(s),
    ensures
        global_wf(loop_run(s, steps)),
    decreases steps.len(),
{
    if steps.len() > 0 {
        lemma_loop_step_preserves_wf(s, steps[0].0, steps[0].1);
        lemma_loop_run_preserves_wf(loop_step(s, steps[0].0, steps[0].1), steps.drop_first());
    }
}

} // verus!

//! The general laws of the engine, stated and proved once over the
//! mathematical model of the game.

use vstd::prelude::*;
use crate::engine::take_turn_spec;
use crate::engine::GameStateModel;

verus! {

/// A turn preserves well-formedness: the game keeps its four players, the
/// turn marker stays within range, and nobody leaves the board.
pub proof fn lemma_take_turn_preserves_wf(s: GameStateModel, roll: int)
    requires
        s.well_formed(),
        !s.finished,
        1 <= roll <= 6,
    ensures
        take_turn_spec(s, roll).well_formed(),
{
}

/// Turn rotation: a turn that does not end the game passes the turn to
/// the next player cyclically, and a turn that ends it leaves the turn
/// marker unchanged.
pub proof fn lemma_turn_advance(s: GameStateModel, roll: int)
    requires
        s.well_formed(),
        !s.finished,
        1 <= roll <= 6,
    ensures
        !take_turn_spec(s, roll).finished ==> take_turn_spec(s, roll).current_turn == (
        s.current_turn + 1) % 4,
        take_turn_spec(s, roll).finished ==> take_turn_spec(s, roll).current_turn
            == s.current_turn,
{
}

/// Turn rotation over a whole round: starting with player 0 to move, four
/// consecutive turns of which none ends the game hand the turn back to
/// player 0.
pub proof fn lemma_turn_rotation(s0: GameStateModel, r1: int, r2: int, r3: int, r4: int)
    requires
        s0.well_formed(),
        s0.current_turn == 0,
        !s0.finished,
        1 <= r1 <= 6,
        1 <= r2 <= 6,
        1 <= r3 <= 6,
        1 <= r4 <= 6,
        !take_turn_spec(s0, r1).finished,
        !take_turn_spec(take_turn_spec(s0, r1), r2).finished,
        !take_turn_spec(take_turn_spec(take_turn_spec(s0, r1), r2), r3).finished,
        !take_turn_spec(take_turn_spec(take_turn_spec(take_turn_spec(s0, r1), r2), r3),
            r4,
        ).finished,
    ensures
        take_turn_spec(take_turn_spec(take_turn_spec(take_turn_spec(s0, r1), r2), r3),
            r4,
        ).current_turn == 0,
{
    let s1 = take_turn_spec(s0, r1);
    let s2 = take_turn_spec(s1, r2);
    let s3 = take_turn_spec(s2, r3);
    lemma_take_turn_preserves_wf(s0, r1);
    lemma_turn_advance(s0, r1);
    lemma_take_turn_preserves_wf(s1, r2);
    lemma_turn_advance(s1, r2);
    lemma_take_turn_preserves_wf(s2, r3);
    lemma_turn_advance(s2, r3);
    lemma_take_turn_preserves_wf(s3, r4);
    lemma_turn_advance(s3, r4);
}

/// The accepted, non-winning move of this turn lands on a setback cell (a
/// multiple of 5), so the player is moved back two cells.
pub open spec fn setback_applies(s: GameStateModel, roll: int) -> bool {
    let target = s.players[s.current_turn].cell + roll;
    target <= 62 && target % 5 == 0
}

/// The accepted, non-winning move of this turn lands on a bonus cell — a
/// multiple of 7 that is not a multiple of 5, since the setback rule is
/// checked first — so the player is moved forward two cells.
pub open spec fn bonus_applies(s: GameStateModel, roll: int) -> bool {
    let target = s.players[s.current_turn].cell + roll;
    target <= 62 && target % 5 != 0 && target % 7 == 0
}

/// Mutual exclusivity of the special-cell effects: in any one turn the
/// setback and the bonus adjustment never both apply; the position moves
/// back two cells exactly under `setback_applies` and forward two exactly
/// under `bonus_applies`.
pub proof fn lemma_adjustments_mutually_exclusive(s: GameStateModel, roll: int)
    requires
        s.well_formed(),
        !s.finished,
        1 <= roll <= 6,
    ensures
        !(setback_applies(s, roll) && bonus_applies(s, roll)),
        setback_applies(s, roll) ==> take_turn_spec(s, roll).players[s.current_turn].cell
            == s.players[s.current_turn].cell + roll - 2,
        bonus_applies(s, roll) ==> take_turn_spec(s, roll).players[s.current_turn].cell
            == s.players[s.current_turn].cell + roll + 2,
{
}

/// Only the player whose turn it is can move: a turn keeps the set of
/// players and leaves every other player untouched, and even the moving
/// player keeps their name.
pub proof fn lemma_only_current_player_moves(s: GameStateModel, roll: int)
    requires
        s.well_formed(),
        !s.finished,
        1 <= roll <= 6,
    ensures
        take_turn_spec(s, roll).players.len() == s.players.len(),
        forall|j: int|
            0 <= j < s.players.len() && j != s.current_turn ==> take_turn_spec(s, roll).players[j]
                == s.players[j],
        take_turn_spec(s, roll).players[s.current_turn].name
            == s.players[s.current_turn].name,
{
}

/// Win detection: a turn ends the game exactly when the current player's
/// move lands on cell 63; it then records that player as the winner, and
/// otherwise leaves the outcome fields untouched.
pub proof fn lemma_win_detection(s: GameStateModel, roll: int)
    requires
        s.well_formed(),
        !s.finished,
        1 <= roll <= 6,
    ensures
        take_turn_spec(s, roll).finished <==> s.players[s.current_turn].cell + roll == 63,
        take_turn_spec(s, roll).finished ==> take_turn_spec(s, roll).winner
            == s.players[s.current_turn].name,
        !take_turn_spec(s, roll).finished ==> take_turn_spec(s, roll).winner == s.winner,
{
}

/// The log is append-only: a turn logs at least one message, and every
/// entry already present stays unchanged, at its place.
pub proof fn lemma_log_append_only(s: GameStateModel, roll: int)
    requires
        s.well_formed(),
        !s.finished,
        1 <= roll <= 6,
    ensures
        s.log.len() < take_turn_spec(s, roll).log.len(),
        forall|i: int| 0 <= i < s.log.len() ==> take_turn_spec(s, roll).log[i] == s.log[i],
{
}

/// Display order of the log: in a reversed view of a non-empty log — one
/// whose entry `i` is the stored entry `len - 1 - i` — the newest stored
/// entry is shown first and the oldest last.
pub proof fn lemma_display_order(log: Seq<Seq<char>>, rev: Seq<Seq<char>>)
    requires
        rev.len() == log.len(),
        forall|i: int| 0 <= i < rev.len() ==> #[trigger] rev[i] == log[log.len() - 1 - i],
        log.len() > 0,
    ensures
        rev[0] == log[log.len() - 1],
        rev[rev.len() - 1] == log[0],
{
}

} // verus!

//! The game engine: players, game state, and the turn transition.
//!
//! The engine owns all mutable state of a run. It performs no input or
//! output and draws no randomness of its own: the die value is an argument
//! of `take_turn`, so every transition is a pure function of the previous
//! state and the roll, stated by `take_turn_spec`.

use vstd::prelude::*;
use crate::messages::bonus_message;
use crate::messages::build_bonus_message;
use crate::messages::build_overshoot_message;
use crate::messages::build_roll_message;
use crate::messages::build_setback_message;
use crate::messages::build_win_message;
use crate::messages::overshoot_message;
use crate::messages::roll_message;
use crate::messages::setback_message;
use crate::messages::win_message;
use crate::LAST_CELL;

verus! {

/// Mathematical model of a player: a name and a cell index.
#[verifier::ext_equal]
pub ghost struct PlayerModel {
    pub name: Seq<char>,
    pub cell: int,
}

/// A player: an immutable display name and the current cell.
pub struct Player {
    pub name: String,
    pub cell: i16,
}

impl View for Player {
    type V = PlayerModel;

    open spec fn view(&self) -> PlayerModel {
        PlayerModel { name: self.name@, cell: self.cell as int }
    }
}

impl Player {
    /// The player's display name.
    pub fn get_name(&self) -> (r: String)
        ensures
            r@ == self@.name,
    {
        self.name.clone()
    }
}

/// Creates a player at the given cell.
pub fn init_player(username: String, cell: i16) -> (p: Player)
    ensures
        p@ == (PlayerModel { name: username@, cell: cell as int }),
{
    Player { name: username, cell: cell }
}

/// Mathematical model of the whole game state.
#[verifier::ext_equal]
pub ghost struct GameStateModel {
    pub players: Seq<PlayerModel>,
    pub current_turn: int,
    pub log: Seq<Seq<char>>,
    pub finished: bool,
    pub winner: Seq<char>,
}

impl GameStateModel {
    /// The state is well formed: four players in turn order, the turn
    /// index within range, and every player on the board.
    pub open spec fn well_formed(self) -> bool {
        &&& self.players.len() == 4
        &&& 0 <= self.current_turn < 4
        &&& forall|i: int|
            0 <= i < self.players.len() ==> 0 <= (#[trigger] self.players[i]).cell <= 63
    }
}

/// The aggregate game state: players in turn order, whose turn it is, the
/// log of turn outcomes, and the outcome of the game.
pub struct GameState {
    pub players: Vec<Player>,
    pub current_turn: i16,
    pub log: Vec<String>,
    pub finished: bool,
    pub winner: String,
}

impl View for GameState {
    type V = GameStateModel;

    open spec fn view(&self) -> GameStateModel {
        GameStateModel {
            players: self.players@.map_values(|p: Player| p@),
            current_turn: self.current_turn as int,
            log: self.log@.map_values(|m: String| m@),
            finished: self.finished,
            winner: self.winner@,
        }
    }
}

/// The state every game starts from: four players named J1 to J4, all on
/// the start cell, with player J1 to move, an empty log and no winner.
pub open spec fn initial_state() -> GameStateModel {
    GameStateModel {
        players: seq![
            PlayerModel { name: "J1"@, cell: 0 },
            PlayerModel { name: "J2"@, cell: 0 },
            PlayerModel { name: "J3"@, cell: 0 },
            PlayerModel { name: "J4"@, cell: 0 },
        ],
        current_turn: 0,
        log: Seq::empty(),
        finished: false,
        winner: ""@,
    }
}

/// Where the turn marker moves after a turn that did not end the game.
pub open spec fn next_turn(turn: int) -> int {
    if turn >= 3 {
        0
    } else {
        turn + 1
    }
}

/// One turn of the game, as a pure function of the previous state and the
/// die roll. The current player tries to advance by `roll` cells:
/// a move past cell 63 is rejected (only a message is logged); landing
/// exactly on cell 63 wins and freezes the state; landing on a multiple
/// of 5 moves the player back 2; landing on a multiple of 7 that is not a
/// multiple of 5 moves the player forward 2; otherwise the move stands.
/// Unless the game just ended, the turn passes to the next player.
pub open spec fn take_turn_spec(s: GameStateModel, roll: int) -> GameStateModel {
    let p = s.players[s.current_turn];
    let target = p.cell + roll;
    if target > 63 {
        GameStateModel {
            log: s.log + seq![overshoot_message(p.name, roll, 63 - p.cell)],
            current_turn: next_turn(s.current_turn),
            ..s
        }
    } else if target == 63 {
        GameStateModel {
            players: s.players.update(s.current_turn, PlayerModel { cell: 63, ..p }),
            log: s.log + seq![roll_message(p.name, roll), win_message(p.name)],
            finished: true,
            winner: p.name,
            ..s
        }
    } else if target % 5 == 0 {
        GameStateModel {
            players: s.players.update(s.current_turn, PlayerModel { cell: target - 2, ..p }),
            log: s.log + seq![roll_message(p.name, roll), setback_message(p.name)],
            current_turn: next_turn(s.current_turn),
            ..s
        }
    } else if target % 7 == 0 {
        GameStateModel {
            players: s.players.update(s.current_turn, PlayerModel { cell: target + 2, ..p }),
            log: s.log + seq![roll_message(p.name, roll), bonus_message(p.name)],
            current_turn: next_turn(s.current_turn),
            ..s
        }
    } else {
        GameStateModel {
            players: s.players.update(s.current_turn, PlayerModel { cell: target, ..p }),
            log: s.log + seq![roll_message(p.name, roll)],
            current_turn: next_turn(s.current_turn),
            ..s
        }
    }
}

/// A bonus cell reachable without winning lies at 56 or below, so the
/// two-cell bonus never leaves the board.
proof fn lemma_bonus_cell_bound(target: int)
    requires
        0 <= target <= 62,
        target % 7 == 0,
    ensures
        target <= 56,
{
    assert(target <= 56) by (nonlinear_arith)
        requires
            0 <= target <= 62,
            target % 7 == 0,
    ;
}

impl GameState {
    /// Whether the state is well formed.
    pub open spec fn well_formed(&self) -> bool {
        self@.well_formed()
    }

    /// The state at the start of a game.
    pub fn default() -> (r: GameState)
        ensures
            r@ == initial_state(),
            r.well_formed(),
    {
        let mut players: Vec<Player> = Vec::new();
        players.push(init_player(String::from_str("J1"), 0));
        players.push(init_player(String::from_str("J2"), 0));
        players.push(init_player(String::from_str("J3"), 0));
        players.push(init_player(String::from_str("J4"), 0));
        let r = GameState {
            players: players,
            current_turn: 0,
            log: Vec::new(),
            finished: false,
            winner: String::new(),
        };
        proof {
            reveal_strlit("");
            assert(r@.winner =~= initial_state().winner);
            assert(r@.players =~= initial_state().players);
            assert(r@.log =~= initial_state().log);
            assert(r@ =~= initial_state());
        }
        r
    }

    /// The current player rolls `roll` and takes their turn; the whole
    /// resulting state is `take_turn_spec` of the previous state.
    pub fn take_turn(&mut self, roll: i16)
        requires
            old(self).well_formed(),
            !old(self).finished,
            1 <= roll <= 6,
        ensures
            final(self)@ == take_turn_spec(old(self)@, roll as int),
            final(self).well_formed(),
    {
        let idx = self.current_turn as usize;
        let player_name = self.players[idx].get_name();
        let ghost s0: GameStateModel = self@;
        proof {
            assert(0 <= s0.players[idx as int].cell <= 63);
        }
        let target = self.players[idx].cell + roll;
        if target > LAST_CELL {
            let needed = LAST_CELL - self.players[idx].cell;
            let msg = build_overshoot_message(player_name.as_str(), roll, needed);
            self.log.push(msg);
            proof {
                assert(self@.players =~= take_turn_spec(s0, roll as int).players);
                assert(self@.log =~= take_turn_spec(s0, roll as int).log);
            }
        } else {
            self.players[idx].cell = target;
            let msg = build_roll_message(player_name.as_str(), roll);
            self.log.push(msg);
            if target == LAST_CELL {
                self.winner = player_name.clone();
                let msg = build_win_message(player_name.as_str());
                self.log.push(msg);
                self.finished = true;
                proof {
                    assert(self@.players =~= take_turn_spec(s0, roll as int).players);
                    assert(self@.log =~= take_turn_spec(s0, roll as int).log);
                    assert(self@ =~= take_turn_spec(s0, roll as int));
                }
                return;
            }
            if target % 5 == 0 {
                self.players[idx].cell = target - 2;
                let msg = build_setback_message(player_name.as_str());
                self.log.push(msg);
            } else if target % 7 == 0 {
                self.players[idx].cell = target + 2;
                let msg = build_bonus_message(player_name.as_str());
                self.log.push(msg);
                proof {
                    lemma_bonus_cell_bound(target as int);
                }
            }
            proof {
                assert(self@.players =~= take_turn_spec(s0, roll as int).players);
                assert(self@.log =~= take_turn_spec(s0, roll as int).log);
            }
        }
        if self.current_turn >= 3 {
            self.current_turn = 0;
        } else {
            self.current_turn = self.current_turn + 1;
        }
        proof {
            assert(self@ =~= take_turn_spec(s0, roll as int));
        }
    }

    /// The player at `index` in turn order.
    pub fn get_player(&self, index: i16) -> (r: &Player)
        requires
            0 <= index < self@.players.len(),
        ensures
            r@ == self@.players[index as int],
    {
        &self.players[index as usize]
    }

    /// The log as the renderer displays it: most recent entry first. The
    /// stored log keeps insertion order; only this view is reversed.
    pub fn log_rev(&self) -> (r: Vec<String>)
        ensures
            r@.len() == self@.log.len(),
            forall|i: int|
                0 <= i < r@.len() ==> (#[trigger] r@[i])@ == self@.log[self@.log.len() - 1 - i],
    {
        let n = self.log.len();
        let mut r: Vec<String> = Vec::new();
        let mut k: usize = 0;
        while k < n
            invariant
                n == self.log.len(),
                k <= n,
                r@.len() == k,
                forall|i: int|
                    0 <= i < k ==> (#[trigger] r@[i])@ == self@.log[n - 1 - i],
            decreases n - k,
        {
            let entry = self.log[n - 1 - k].clone();
            r.push(entry);
            k = k + 1;
        }
        r
    }

    /// The text shown inside the cell at `cell`: the names of the players
    /// standing there, in turn order, each preceded by a space.
    pub fn names_on(&self, cell: i16) -> (r: String)
        ensures
            r@ == names_on_cell(self@.players, cell as int),
    {
        let n = self.players.len();
        let mut text = String::new();
        let mut k: usize = 0;
        while k < n
            invariant
                n == self.players.len(),
                k <= n,
                text@ == names_on_cell(self@.players.take(k as int), cell as int),
            decreases n - k,
        {
            if self.players[k].cell == cell {
                text.append(" ");
                text.append(self.players[k].name.as_str());
            }
            proof {
                assert(self@.players.take(k + 1).drop_last() =~= self@.players.take(k as int));
                assert(self@.players.take(k + 1).last() == self@.players[k as int]);
            }
            k = k + 1;
        }
        proof {
            assert(self@.players.take(n as int) =~= self@.players);
        }
        text
    }

    /// The banner of the winner screen, naming the winning player.
    pub fn winner_banner(&self) -> (r: String)
        ensures
            r@ == winner_banner_text(self@.winner),
    {
        let mut s = String::from_str("Ganó el jugador ");
        s.append(self.winner.as_str());
        s
    }
}

/// The names of the players of `players` standing on `cell`, in order,
/// each preceded by a space; empty when the cell is empty.
pub open spec fn names_on_cell(players: Seq<PlayerModel>, cell: int) -> Seq<char>
    decreases players.len(),
{
    if players.len() == 0 {
        Seq::empty()
    } else if players.last().cell == cell {
        names_on_cell(players.drop_last(), cell) + " "@ + players.last().name
    } else {
        names_on_cell(players.drop_last(), cell)
    }
}

/// The text of the winner screen's banner.
pub open spec fn winner_banner_text(name: Seq<char>) -> Seq<char> {
    "Ganó el jugador "@ + name
}

} // verus!

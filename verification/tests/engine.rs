use oca::engine::init_player;
use oca::engine::GameState;
use oca::engine::Player;

fn state_with_positions(cells: [i16; 4]) -> GameState {
    let mut players: Vec<Player> = Vec::new();
    for (i, c) in cells.iter().enumerate() {
        players.push(init_player(format!("J{}", i + 1), *c));
    }
    GameState {
        players,
        current_turn: 0,
        log: Vec::new(),
        finished: false,
        winner: String::new(),
    }
}

#[test]
fn initial_state_shape() {
    let g = GameState::default();
    assert_eq!(g.players.len(), 4);
    assert_eq!(g.current_turn, 0);
    assert!(g.log.is_empty());
    assert!(!g.finished);
    assert_eq!(g.winner, "");
    for (i, p) in g.players.iter().enumerate() {
        assert_eq!(p.cell, 0);
        assert_eq!(p.name, format!("J{}", i + 1));
    }
    assert_eq!(g.get_player(2).name, "J3");
    assert_eq!(g.get_player(2).get_name(), "J3");
}

#[test]
fn four_turns_rotate_back_to_first_player() {
    let mut g = GameState::default();
    assert_eq!(g.current_turn, 0);
    for roll in [1, 2, 3, 1] {
        g.take_turn(roll);
        assert!(!g.finished);
    }
    assert_eq!(g.current_turn, 0);
}

#[test]
fn normal_move_advances_and_logs() {
    let mut g = GameState::default();
    g.take_turn(3);
    assert_eq!(g.players[0].cell, 3);
    assert_eq!(g.current_turn, 1);
    assert_eq!(g.log.len(), 1);
    assert_eq!(g.log[0], " El J1 acaba de sacar el numero 3.");
    assert!(!g.finished);
}

#[test]
fn overshoot_rejects_move_but_advances_turn() {
    let mut g = state_with_positions([60, 0, 0, 0]);
    g.take_turn(5);
    assert_eq!(g.players[0].cell, 60);
    assert_eq!(g.current_turn, 1);
    assert_eq!(g.log.len(), 1);
    assert_eq!(
        g.log[0],
        " El J1 acaba de sacar el numero 5. Pero necesita un 3 para ganar."
    );
    assert!(!g.finished);
}

#[test]
fn exact_landing_on_last_cell_wins() {
    let mut g = state_with_positions([61, 0, 0, 0]);
    g.take_turn(2);
    assert_eq!(g.players[0].cell, 63);
    assert!(g.finished);
    assert_eq!(g.winner, "J1");
    // 63 is a multiple of 7, yet no bonus is applied on a win.
    assert_eq!(g.log.len(), 2);
    assert_eq!(g.log[0], " El J1 acaba de sacar el numero 2.");
    assert_eq!(g.log[1], "El jugador J1 ganó.");
    // The turn does not advance when the game ends.
    assert_eq!(g.current_turn, 0);
}

#[test]
fn landing_on_multiple_of_five_sets_back() {
    let mut g = state_with_positions([8, 0, 0, 0]);
    g.take_turn(2);
    assert_eq!(g.players[0].cell, 8);
    assert_eq!(g.log.len(), 2);
    assert_eq!(g.log[0], " El J1 acaba de sacar el numero 2.");
    assert_eq!(
        g.log[1],
        " El J1 esta en un casillero de castigo. Retrocede 2 casilleros."
    );
    assert_eq!(g.current_turn, 1);
}

#[test]
fn landing_on_multiple_of_seven_grants_bonus() {
    let mut g = state_with_positions([5, 0, 0, 0]);
    g.take_turn(2);
    assert_eq!(g.players[0].cell, 9);
    assert_eq!(g.log.len(), 2);
    assert_eq!(g.log[0], " El J1 acaba de sacar el numero 2.");
    assert_eq!(
        g.log[1],
        " El J1 esta en un casillero de castigo. Avanza 2 casilleros."
    );
    assert_eq!(g.current_turn, 1);
}

#[test]
fn setback_wins_over_bonus_on_cell_35() {
    // Landing on 35, a multiple of both 5 and 7: only the setback applies.
    let mut g = state_with_positions([30, 0, 0, 0]);
    g.take_turn(5);
    assert_eq!(g.players[0].cell, 33);
    assert_eq!(g.log.len(), 2);
    assert_eq!(
        g.log[1],
        " El J1 esta en un casillero de castigo. Retrocede 2 casilleros."
    );
}

#[test]
fn log_is_append_only_and_reversed_for_display() {
    let mut g = GameState::default();
    g.take_turn(1); // J1 to 1
    let first = g.log[0].clone();
    g.take_turn(2); // J2 to 2
    g.take_turn(3); // J3 to 3
    assert_eq!(g.log[0], first);
    assert_eq!(g.log.len(), 3);
    let rev = g.log_rev();
    assert_eq!(rev.len(), 3);
    // The newest message is shown first, the oldest last.
    assert_eq!(rev[0], g.log[2]);
    assert_eq!(rev[1], g.log[1]);
    assert_eq!(rev[2], g.log[0]);
}

#[test]
fn names_on_lists_players_on_a_cell() {
    let g = state_with_positions([4, 9, 4, 0]);
    assert_eq!(g.names_on(4), " J1 J3");
    assert_eq!(g.names_on(9), " J2");
    assert_eq!(g.names_on(5), "");
}

#[test]
fn winner_banner_names_the_winner() {
    let mut g = state_with_positions([61, 0, 0, 0]);
    g.take_turn(2);
    assert_eq!(g.winner_banner(), "Ganó el jugador J1");
}

#[test]
fn other_players_do_not_move() {
    let mut g = state_with_positions([1, 20, 30, 40]);
    g.take_turn(2);
    assert_eq!(g.players[0].cell, 3);
    assert_eq!(g.players[1].cell, 20);
    assert_eq!(g.players[2].cell, 30);
    assert_eq!(g.players[3].cell, 40);
    assert_eq!(g.players[0].name, "J1");
}

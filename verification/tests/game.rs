use tic_tac_toe::{Game, GameOutcome, PlayOutcome, Player, Square};

#[test]
fn fresh_game_has_no_occupied_square() {
    let game = Game::new();
    let squares = [
        Square::A,
        Square::B,
        Square::C,
        Square::D,
        Square::E,
        Square::F,
        Square::G,
        Square::H,
        Square::I,
    ];
    for sq in squares.iter() {
        assert!(!game.square_occupied(sq));
    }
    assert!(!game.is_complete());
    assert!(!game.has_winner());
    assert!(!game.is_draw());
}

#[test]
fn top_row_win_for_x() {
    // Moves A(X), D(O), B(X), E(O), C(X): X completes the top row A-B-C.
    let mut game = Game::new();
    assert_eq!(game.execute(Player::X, Square::A), PlayOutcome::Next(Player::O));
    assert_eq!(game.execute(Player::O, Square::D), PlayOutcome::Next(Player::X));
    assert_eq!(game.execute(Player::X, Square::B), PlayOutcome::Next(Player::O));
    assert_eq!(game.execute(Player::O, Square::E), PlayOutcome::Next(Player::X));
    assert_eq!(game.execute(Player::X, Square::C), PlayOutcome::Win(Player::X));
    assert!(game.has_winner());
    assert!(game.player_won(Player::X));
    assert!(!game.player_won(Player::O));
}

#[test]
fn full_board_without_alignment_is_draw() {
    // Nine moves filling the board with no winning triple for either player:
    //   X O X
    //   X O O
    //   O X X
    let mut game = Game::new();
    assert_eq!(game.execute(Player::X, Square::A), PlayOutcome::Next(Player::O));
    assert_eq!(game.execute(Player::O, Square::B), PlayOutcome::Next(Player::X));
    assert_eq!(game.execute(Player::X, Square::C), PlayOutcome::Next(Player::O));
    assert_eq!(game.execute(Player::O, Square::E), PlayOutcome::Next(Player::X));
    assert_eq!(game.execute(Player::X, Square::D), PlayOutcome::Next(Player::O));
    assert_eq!(game.execute(Player::O, Square::F), PlayOutcome::Next(Player::X));
    assert_eq!(game.execute(Player::X, Square::H), PlayOutcome::Next(Player::O));
    assert_eq!(game.execute(Player::O, Square::G), PlayOutcome::Next(Player::X));
    assert_eq!(game.execute(Player::X, Square::I), PlayOutcome::Draw);
    assert!(game.is_complete());
    assert!(game.is_draw());
    assert!(!game.has_winner());
}

#[test]
fn winning_move_on_full_board_is_a_win_not_a_draw() {
    // The ninth move both fills the board and completes the top row for X:
    //   X X X
    //   O O X
    //   O X O
    let mut game = Game::new();
    assert_eq!(game.execute(Player::X, Square::A), PlayOutcome::Next(Player::O));
    assert_eq!(game.execute(Player::O, Square::D), PlayOutcome::Next(Player::X));
    assert_eq!(game.execute(Player::X, Square::B), PlayOutcome::Next(Player::O));
    assert_eq!(game.execute(Player::O, Square::E), PlayOutcome::Next(Player::X));
    assert_eq!(game.execute(Player::X, Square::F), PlayOutcome::Next(Player::O));
    assert_eq!(game.execute(Player::O, Square::G), PlayOutcome::Next(Player::X));
    assert_eq!(game.execute(Player::X, Square::H), PlayOutcome::Next(Player::O));
    assert_eq!(game.execute(Player::O, Square::I), PlayOutcome::Next(Player::X));
    assert_eq!(game.execute(Player::X, Square::C), PlayOutcome::Win(Player::X));
    assert!(game.is_complete());
    assert!(!game.is_draw());
}

#[test]
fn column_win_for_o() {
    // O completes the right column C-F-I.
    let mut game = Game::new();
    assert_eq!(game.execute(Player::X, Square::A), PlayOutcome::Next(Player::O));
    assert_eq!(game.execute(Player::O, Square::C), PlayOutcome::Next(Player::X));
    assert_eq!(game.execute(Player::X, Square::B), PlayOutcome::Next(Player::O));
    assert_eq!(game.execute(Player::O, Square::F), PlayOutcome::Next(Player::X));
    assert_eq!(game.execute(Player::X, Square::D), PlayOutcome::Next(Player::O));
    assert_eq!(game.execute(Player::O, Square::I), PlayOutcome::Win(Player::O));
    assert!(game.player_won(Player::O));
}

#[test]
fn diagonal_win_for_x() {
    // X completes the diagonal A-E-I.
    let mut game = Game::new();
    assert_eq!(game.execute(Player::X, Square::E), PlayOutcome::Next(Player::O));
    assert_eq!(game.execute(Player::O, Square::B), PlayOutcome::Next(Player::X));
    assert_eq!(game.execute(Player::X, Square::A), PlayOutcome::Next(Player::O));
    assert_eq!(game.execute(Player::O, Square::C), PlayOutcome::Next(Player::X));
    assert_eq!(game.execute(Player::X, Square::I), PlayOutcome::Win(Player::X));
}

#[test]
fn execute_marks_square_and_records_last_move() {
    let mut game = Game::new();
    assert!(!game.square_occupied(&Square::E));
    game.execute(Player::X, Square::E);
    assert!(game.square_occupied(&Square::E));
    assert!(!game.square_occupied(&Square::A));
}

#[test]
fn occupied_squares_keep_their_player() {
    // After A(X), B(O), both squares stay occupied by their players.
    let mut game = Game::new();
    game.execute(Player::X, Square::A);
    game.execute(Player::O, Square::B);
    game.execute(Player::X, Square::E);
    assert_eq!(game.player_squares(Player::X), vec![Square::A, Square::E]);
    assert_eq!(game.player_squares(Player::O), vec![Square::B]);
}

#[test]
fn player_squares_of_fresh_game_is_empty() {
    let game = Game::new();
    assert_eq!(game.player_squares(Player::X), vec![]);
    assert_eq!(game.player_squares(Player::O), vec![]);
}

#[test]
fn player_squares_comes_in_row_major_order() {
    let mut game = Game::new();
    game.execute(Player::X, Square::I);
    game.execute(Player::O, Square::E);
    game.execute(Player::X, Square::A);
    game.execute(Player::O, Square::B);
    game.execute(Player::X, Square::D);
    assert_eq!(game.player_squares(Player::X), vec![Square::A, Square::D, Square::I]);
    assert_eq!(game.player_squares(Player::O), vec![Square::B, Square::E]);
}

#[test]
fn turn_order_starts_with_x_and_alternates() {
    assert_eq!(Player::for_turn(0), Player::X);
    assert_eq!(Player::for_turn(1), Player::O);
    assert_eq!(Player::for_turn(2), Player::X);
    assert_eq!(Player::for_turn(3), Player::O);
    assert_eq!(Player::X.next(), Player::O);
    assert_eq!(Player::O.next(), Player::X);
    assert_eq!(Player::X.next().next(), Player::X);
}

#[test]
fn outcome_messages() {
    assert_eq!(GameOutcome::Winner(Player::X).message(), "X wins!");
    assert_eq!(GameOutcome::Winner(Player::O).message(), "O wins!");
    assert_eq!(GameOutcome::Draw.message(), "Draw");
}

#[test]
fn player_and_square_names() {
    assert_eq!(Player::X.name(), "X");
    assert_eq!(Player::O.name(), "O");
    assert_eq!(Square::A.name(), "A");
    assert_eq!(Square::E.name(), "E");
    assert_eq!(Square::I.name(), "I");
}

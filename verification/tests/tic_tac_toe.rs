use sdop_game::assets::StaticImage;
use sdop_game::tic_tac_toe::{
    BestMoveSearch, BitBoard, Board, BoardStatus, Side, Square, TicTacToeGame, TicTacToeOpponent,
    WinInfo,
};

const A1: Square = Square(0);
const B1: Square = Square(1);
const C1: Square = Square(2);
const A2: Square = Square(3);
const B2: Square = Square(4);
const C2: Square = Square(5);
const A3: Square = Square(6);
const B3: Square = Square(7);
const C3: Square = Square(8);

#[test]
fn test_possible_moves_blank_board() {
    let board: Board = Board::default();

    let moves = board.possible_moves();

    assert_eq!(moves.set_bits().len(), 9);
}

#[test]
fn test_possible_moves_xox_x_xo_o() {
    let mut board: Board = Board::default();

    board.set_pieces(Side::X, BitBoard(0b101010000));
    board.set_pieces(Side::O, BitBoard(0b010000101));

    let moves = board.possible_moves();

    assert_eq!(moves.set_bits().len(), 3);
}

#[test]
fn test_win_x() {
    let mut board: Board = Board::default();

    board.set_pieces(Side::X, BitBoard(0b111000000));
    board.set_pieces(Side::O, BitBoard(0b000101010));

    assert_eq!(
        board.calc_status(),
        BoardStatus::Win(WinInfo::new(Side::X, BitBoard(0b111000000)))
    );
}

#[test]
fn test_win_o() {
    let mut board: Board = Board::default();

    board.set_pieces(Side::X, BitBoard(0b000101010));
    board.set_pieces(Side::O, BitBoard(0b111000000));

    assert_eq!(
        board.calc_status(),
        BoardStatus::Win(WinInfo::new(Side::O, BitBoard(0b111000000)))
    );
}

#[test]
fn test_make_move() {
    let board: Board = Board::default();

    let updated_board = board.make_move_new(A1);

    assert_eq!(updated_board.pieces(Side::X), BitBoard(0b000000001));
}

#[test]
fn test_game_stalemate() {
    let mut game: TicTacToeGame = TicTacToeGame::new();

    let moves: [Square; 9] = [A1, B2, C1, B1, B3, A2, C2, C3, A3];

    for (i, m) in moves.iter().enumerate() {
        game.make_move(*m);

        if i < 8 {
            assert_eq!(game.board().calc_status(), BoardStatus::InProgress);
        }
    }

    assert_eq!(game.board().calc_status(), BoardStatus::Draw);
}

#[test]
fn test_get_square() {
    let mut board: Board = Board::default();

    board.set_pieces(Side::X, BitBoard(0b000000001));
    board.set_pieces(Side::O, BitBoard(0b000000010));

    assert_eq!(board.get_square(A1), Some(Side::X));
    assert_eq!(board.get_square(B1), Some(Side::O));
}

#[test]
fn new_board_is_empty_with_x_to_move() {
    let board = Board::new();
    assert_eq!(board.size(), 9);
    assert_eq!(board.side_to_move(), Side::X);
    assert_eq!(board.status(), BoardStatus::InProgress);
    assert_eq!(board.pieces(Side::X), BitBoard(0));
    assert_eq!(board.pieces(Side::O), BitBoard(0));
    for i in 0..9u8 {
        assert_eq!(board.get_square(Square::new(i)), None);
    }
}

#[test]
fn make_move_places_piece_and_passes_turn() {
    let board = Board::new().make_move_new(B2);
    assert_eq!(board.get_square(B2), Some(Side::X));
    assert_eq!(board.side_to_move(), Side::O);
    let board = board.make_move_new(C3);
    assert_eq!(board.get_square(C3), Some(Side::O));
    assert_eq!(board.get_square(B2), Some(Side::X));
    assert_eq!(board.pieces(Side::O), BitBoard(0b100000000));
    assert_eq!(board.side_to_move(), Side::X);
    assert_eq!(board.possible_moves().set_bits(), vec![0, 1, 2, 3, 5, 6, 7]);
}

#[test]
fn winning_move_sets_status_and_clears_moves() {
    let mut game = TicTacToeGame::default();
    for m in [A1, A2, B1, B2, C1] {
        game.make_move(m);
    }
    let expected = BoardStatus::Win(WinInfo::new(Side::X, BitBoard(0b000000111)));
    assert_eq!(game.board().status(), expected);
    assert_eq!(game.board().calc_status(), expected);
    assert!(game.board().win_position());
    assert!(game.board().possible_moves().is_empty());
}

#[test]
fn first_line_in_order_wins() {
    let mut board = Board::new();
    // X holds the top row and the left column; the top row comes first.
    board.set_pieces(Side::X, BitBoard(0b001001111));
    assert_eq!(
        board.calc_status(),
        BoardStatus::Win(WinInfo::new(Side::X, BitBoard(0b000000111)))
    );
    // X is looked at before O.
    board.set_pieces(Side::O, BitBoard(0b111000000));
    assert_eq!(
        board.calc_status(),
        BoardStatus::Win(WinInfo::new(Side::X, BitBoard(0b000000111)))
    );
}

#[test]
fn get_square_prefers_x() {
    let mut board = Board::new();
    board.set_pieces(Side::X, BitBoard(0b10000));
    board.set_pieces(Side::O, BitBoard(0b10000));
    assert_eq!(board.get_square(B2), Some(Side::X));
}

#[test]
fn side_helpers() {
    assert_eq!(Side::X.other(), Side::O);
    assert_eq!(Side::O.other(), Side::X);
    assert_eq!(Side::X.to_index(), 0);
    assert_eq!(Side::O.to_index(), 1);
    assert_eq!(Side::from_index(0), Side::X);
    assert_eq!(Side::from_index(1), Side::O);
    assert_eq!(Side::X.get_image(), StaticImage::TicTacToeCross);
    assert_eq!(Side::O.get_image(), StaticImage::TicTacToeCircle);
    assert_eq!(BitBoard::from_square(C3), BitBoard(0b100000000));
    let opponent = TicTacToeOpponent::new(7, 40);
    assert_eq!(opponent.pet_def_id, 7);
    assert_eq!(opponent.strength, 40);
}

fn run_search(board: Board, depth: i32, chunk: usize) -> Vec<usize> {
    let mut search = BestMoveSearch::new(board, depth);
    let mut rounds = 0;
    while !search.step(chunk) {
        rounds += 1;
        assert!(rounds < 100);
    }
    search.best_moves().set_bits()
}

#[test]
fn search_takes_the_winning_move() {
    // X: A1 B1, O: A2 B2, X to move; C1 wins at once.
    let mut board = Board::new();
    board.set_pieces(Side::X, BitBoard(0b000000011));
    board.set_pieces(Side::O, BitBoard(0b000011000));
    assert_eq!(run_search(board, 0, 1), vec![2]);
    assert_eq!(run_search(board, 1, 2), vec![2]);
    assert_eq!(run_search(board, 1, 100), vec![2]);
}

#[test]
fn search_blocks_the_opponent() {
    // X: A1 C3, O: B2 A2, X to move; O threatens C2, which X must take.
    let mut board = Board::new();
    board.set_pieces(Side::X, BitBoard(0b100000001));
    board.set_pieces(Side::O, BitBoard(0b000011000));
    assert_eq!(run_search(board, 1, 3), vec![5]);
}

#[test]
fn search_on_empty_board_rates_all_moves_equal_at_depth_zero() {
    assert_eq!(run_search(Board::new(), 0, 4), vec![0, 1, 2, 3, 4, 5, 6, 7, 8]);
}

#[test]
fn search_on_finished_board_finds_nothing() {
    let mut board = Board::new();
    board.set_pieces(Side::X, BitBoard(0b111));
    let mut search = BestMoveSearch::new(board, 2);
    assert!(search.step(1));
    assert!(search.best_moves().is_empty());
}

#[test]
fn default_search_is_done_at_once() {
    let mut search = BestMoveSearch::default();
    assert!(search.step(5));
    assert!(search.best_moves().is_empty());
}

#[test]
fn search_with_zero_chunk_does_nothing() {
    let mut search = BestMoveSearch::new(Board::new(), 1);
    assert!(!search.step(0));
    assert!(search.best_moves().is_empty());
}

#[test]
fn alternate_play_keeps_turns_and_counts() {
    let squares = [B2, A1, C3, A3, A2, C1];
    let mut board = Board::default();
    for (n, sq) in squares.iter().enumerate() {
        let made = n;
        let expected = if made % 2 == 0 { Side::X } else { Side::O };
        assert_eq!(board.side_to_move(), expected);
        assert_eq!(board.pieces(Side::X).0.count_ones() as usize, (made + 1) / 2);
        assert_eq!(board.pieces(Side::O).0.count_ones() as usize, made / 2);
        assert_eq!(board.pieces(Side::X).0 & board.pieces(Side::O).0, 0);
        board = board.make_move_new(*sq);
    }
    assert_eq!(board.side_to_move(), Side::X);
    assert_eq!(board.pieces(Side::X).0.count_ones(), 3);
    assert_eq!(board.pieces(Side::O).0.count_ones(), 3);
}

#[test]
fn search_finishes_within_the_expected_calls_and_any_split_agrees() {
    // Empty board: nine moves. With chunks of 2: ceil(9 / 2) + 1 = 6 calls at most.
    let mut search = BestMoveSearch::new(Board::new(), 1);
    let mut calls = 0;
    loop {
        calls += 1;
        if search.step(2) {
            break;
        }
    }
    assert!(calls <= 6);
    let mut whole = BestMoveSearch::new(Board::new(), 1);
    assert!(whole.step(usize::MAX));
    assert_eq!(search.best_moves().set_bits(), whole.best_moves().set_bits());
    // Once finished, further steps report it again and change nothing.
    assert!(search.step(3));
    assert_eq!(search.best_moves().set_bits(), whole.best_moves().set_bits());
    // Best moves are legal moves.
    for m in search.best_moves().set_bits() {
        assert!(Board::new().possible_moves().get_bit(m));
    }
}

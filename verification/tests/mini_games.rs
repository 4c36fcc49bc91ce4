use sdop_game::assets::StaticImage;
use sdop_game::bit_array::PossibleMoves;
use sdop_game::mini_games::{
    link_four_cursor, next_garbage_lane, opponent_move, opponent_move_for_roll, pick_garbage_lane,
    plays_best, random_set_bit,
    tic_tac_toe_cursor,
    tic_tac_toe_reward, GarbageKinds, Lane, DODGE_WIN_REWARD,
};
use sdop_game::tic_tac_toe::{BitBoard, BoardStatus, Side, WinInfo};

#[test]
fn lanes_move_and_stop_at_edges() {
    assert_eq!(Lane::Left.left(), Lane::Left);
    assert_eq!(Lane::Center.left(), Lane::Left);
    assert_eq!(Lane::Right.left(), Lane::Center);
    assert_eq!(Lane::Left.right(), Lane::Center);
    assert_eq!(Lane::Center.right(), Lane::Right);
    assert_eq!(Lane::Right.right(), Lane::Right);
}

#[test]
fn random_lanes_and_garbage() {
    let mut rng = fastrand::Rng::with_seed(7);
    let mut seen = [false; 3];
    for _ in 0..200 {
        match Lane::random(&mut rng) {
            Lane::Left => seen[0] = true,
            Lane::Center => seen[1] = true,
            Lane::Right => seen[2] = true,
        }
    }
    assert_eq!(seen, [true, true, true]);
    let mut kinds = [false; 3];
    for _ in 0..200 {
        match GarbageKinds::random(&mut rng) {
            GarbageKinds::Handheld => kinds[0] = true,
            GarbageKinds::Branch => kinds[1] = true,
            GarbageKinds::Brick => kinds[2] = true,
        }
    }
    assert_eq!(kinds, [true, true, true]);
    assert_eq!(GarbageKinds::Brick.image(), StaticImage::Brick);
    assert_eq!(DODGE_WIN_REWARD, 6000);
}

#[test]
fn next_lane_differs_from_center() {
    let mut rng = fastrand::Rng::with_seed(11);
    for _ in 0..200 {
        assert_ne!(next_garbage_lane(&mut rng, Lane::Center), Lane::Center);
    }
}

#[test]
fn cursors_wrap() {
    assert_eq!(tic_tac_toe_cursor(0, true, false, 9), 9);
    assert_eq!(tic_tac_toe_cursor(8, false, true, 9), 0);
    assert_eq!(tic_tac_toe_cursor(4, true, true, 9), 4);
    assert_eq!(tic_tac_toe_cursor(4, false, false, 9), 4);
    assert_eq!(link_four_cursor(0, true, false), 6);
    assert_eq!(link_four_cursor(6, false, true), 0);
    assert_eq!(link_four_cursor(3, false, true), 4);
}

#[test]
fn rewards() {
    let win_x = BoardStatus::Win(WinInfo::new(Side::X, BitBoard(0b111)));
    assert_eq!(tic_tac_toe_reward(win_x, Side::X), (true, 5000));
    assert_eq!(tic_tac_toe_reward(win_x, Side::O), (false, 1000));
    assert_eq!(tic_tac_toe_reward(BoardStatus::Draw, Side::O), (false, 200));
}

#[test]
fn random_set_bit_picks_a_member() {
    let mut rng = fastrand::Rng::with_seed(3);
    let empty = PossibleMoves::new();
    assert_eq!(random_set_bit(&empty, &mut rng), None);
    let mut moves = PossibleMoves::new();
    moves.set_bit(4, true);
    moves.set_bit(12, true);
    let mut seen = [false; 2];
    for _ in 0..100 {
        match random_set_bit(&moves, &mut rng) {
            Some(4) => seen[0] = true,
            Some(12) => seen[1] = true,
            other => panic!("unexpected {:?}", other),
        }
    }
    assert_eq!(seen, [true, true]);
}

#[test]
fn opponent_picks_best_or_possible() {
    let mut rng = fastrand::Rng::with_seed(5);
    let mut possible = PossibleMoves::new();
    possible.set_bit(1, true);
    possible.set_bit(2, true);
    let mut best = PossibleMoves::new();
    best.set_bit(2, true);
    for _ in 0..50 {
        // A strength of 100 always beats the roll: only best moves are picked.
        assert_eq!(opponent_move(&mut rng, 100, &possible, &best), Some(2));
        let m = opponent_move(&mut rng, -1, &possible, &best).unwrap();
        assert!(m == 1 || m == 2);
        let m = opponent_move(&mut rng, 100, &possible, &PossibleMoves::new()).unwrap();
        assert!(m == 1 || m == 2);
    }
    assert_eq!(opponent_move(&mut rng, 50, &PossibleMoves::new(), &PossibleMoves::new()), None);
}

#[test]
fn rolls_map_to_lanes_and_kinds() {
    assert_eq!(Lane::from_roll(0), Lane::Left);
    assert_eq!(Lane::from_roll(1), Lane::Center);
    assert_eq!(Lane::from_roll(2), Lane::Right);
    assert_eq!(GarbageKinds::from_roll(0), GarbageKinds::Handheld);
    assert_eq!(GarbageKinds::from_roll(1), GarbageKinds::Branch);
    assert_eq!(GarbageKinds::from_roll(2), GarbageKinds::Brick);
    assert_eq!(pick_garbage_lane(Lane::Right, Lane::Left, true), Lane::Right);
    assert_eq!(pick_garbage_lane(Lane::Center, Lane::Center, true), Lane::Left);
    assert_eq!(pick_garbage_lane(Lane::Center, Lane::Center, false), Lane::Right);
    assert_eq!(pick_garbage_lane(Lane::Left, Lane::Left, true), Lane::Left);
}

#[test]
fn roll_against_strength_decides_the_move_set() {
    assert!(plays_best(40, 40, false));
    assert!(!plays_best(41, 40, false));
    assert!(!plays_best(0, 40, true));
    let mut rng = fastrand::Rng::with_seed(9);
    let mut possible = PossibleMoves::new();
    possible.set_bit(1, true);
    possible.set_bit(2, true);
    let mut best = PossibleMoves::new();
    best.set_bit(2, true);
    for _ in 0..30 {
        assert_eq!(opponent_move_for_roll(&mut rng, 10, 40, &possible, &best), Some(2));
        let m = opponent_move_for_roll(&mut rng, 90, 40, &possible, &best).unwrap();
        assert!(m == 1 || m == 2);
    }
    // A roll above the strength draws from all legal moves: move 1 comes up.
    let mut seen_other = false;
    for _ in 0..100 {
        if opponent_move_for_roll(&mut rng, 90, 40, &possible, &best) == Some(1) {
            seen_other = true;
        }
    }
    assert!(seen_other);
}

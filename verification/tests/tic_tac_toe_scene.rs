use sdop_game::tic_tac_toe::TicTacToeOpponent;
use sdop_game::tic_tac_toe_scene::{MgTicTacToeScene, PetAnimation};

#[test]
fn setup_picks_an_offered_opponent() {
    let opponents = [TicTacToeOpponent::new(1, 40), TicTacToeOpponent::new(2, 60)];
    let mut rng = fastrand::Rng::with_seed(9);
    let mut scene = MgTicTacToeScene::new(opponents[0]);
    let (a, b, offset) = scene.setup(&mut rng, &opponents);
    assert!(
        (a, b) == (PetAnimation::Happy, PetAnimation::Normal)
            || (a, b) == (PetAnimation::Normal, PetAnimation::Happy)
    );
    assert!(offset < 2000);
}

#[test]
fn opponent_moves_first_when_player_is_o() {
    let mut rng = fastrand::Rng::with_seed(1);
    let mut scene = MgTicTacToeScene::new(TicTacToeOpponent::new(1, 40));
    // The player plays O; X (the opponent) has no thinking time before its first move.
    let out = scene.tick(false, false, false, 0, 16, &mut rng);
    assert_eq!(out.animations, Some((PetAnimation::Happy, PetAnimation::Normal)));
    assert!(out.fanfare.is_none());
    // Now it is the player's turn: nothing happens without a button.
    let out = scene.tick(false, false, false, 16, 16, &mut rng);
    assert!(out.animations.is_none());
}

#[test]
fn full_game_ends_with_fanfare() {
    let mut rng = fastrand::Rng::with_seed(4);
    let mut scene = MgTicTacToeScene::new(TicTacToeOpponent::new(1, 60));
    let mut timestamp = 0u64;
    let mut fanfare = None;
    let mut ended = false;
    for _ in 0..400 {
        timestamp += 100;
        // Move right and try to play wherever the cursor lands.
        let out = scene.tick(false, true, true, timestamp, 100, &mut rng);
        if let Some(looks) = out.animations {
            if looks.0 == PetAnimation::Sad || looks.1 == PetAnimation::Sad {
                ended = true;
            }
        }
        if let Some(f) = out.fanfare {
            fanfare = Some(f);
            break;
        }
    }
    let (won, amount) = fanfare.expect("the game ends");
    assert!(ended);
    assert!((won && amount == 5000) || (!won && (amount == 1000 || amount == 200)));
}

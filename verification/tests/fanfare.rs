use sdop_game::fanfare::{FanfareSong, MgFanFareScene};

#[test]
fn fanfare_runs_then_goes_home() {
    let mut scene = MgFanFareScene::new(true, 25, 4);
    assert_eq!(scene.setup(1000), FanfareSong::FanFare);
    assert!(!scene.tick(4000, 16)); // exactly 3000 ms: still the result
    assert!(!scene.tick(4001, 16)); // now the total, from 4001
    assert!(!scene.tick(6001, 16));
    assert!(scene.tick(6002, 16));
    assert_eq!(scene.teardown(), 25);
    let mut lost = MgFanFareScene::new(false, 0, 4);
    assert_eq!(lost.setup(0), FanfareSong::Lost);
}

#[test]
fn earned_money_flashes() {
    let mut scene = MgFanFareScene::new(true, 5, 1);
    scene.setup(0);
    assert!(scene.earned_visible());
    scene.tick(100, 300);
    assert!(scene.earned_visible());
    scene.tick(101, 1);
    assert!(!scene.earned_visible());
    scene.tick(500, 301);
    assert!(scene.earned_visible());
}

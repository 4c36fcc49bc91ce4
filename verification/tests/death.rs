use sdop_game::death::{DeathCause, DeathScene, DeathStage, DeathTick};

fn run(scene: &mut DeathScene, ms: u64, step: u64) {
    let mut t = 0;
    while t < ms {
        assert_eq!(scene.tick(step, true), DeathTick { new_pet: false });
        t += step;
    }
}

#[test]
fn starvation_reaches_the_tombstone() {
    let mut scene = DeathScene::new(DeathCause::Starvation);
    // 3000 ms of introduction is not yet past it.
    run(&mut scene, 3000, 100);
    // The next frame moves on to the cause's scene; it runs past 5000 ms.
    run(&mut scene, 100, 100);
    run(&mut scene, 5100, 100);
    // At the tombstone a button asks for a new pet.
    assert_eq!(scene.tick(16, false), DeathTick { new_pet: false });
    assert_eq!(scene.tick(16, true), DeathTick { new_pet: true });
}

#[test]
fn leaving_never_reaches_the_tombstone() {
    let mut scene = DeathScene::new(DeathCause::Leaving);
    run(&mut scene, 100_000, 1000);
}

#[test]
fn old_age_runs_within_ten_seconds() {
    let mut scene = DeathScene::new(DeathCause::OldAge);
    run(&mut scene, 3100, 100);
    run(&mut scene, 10_100, 100);
    assert_eq!(scene.tick(16, true), DeathTick { new_pet: true });
}

#[test]
fn old_age_clock_speeds_up() {
    let mut scene = DeathScene::new(DeathCause::OldAge);
    scene.tick(3001, false);
    assert_eq!(scene.current_stage(), DeathStage::Specific);
    assert_eq!(scene.clock_time(), 0);
    // Speed 1200 + 3 * 100 = 1500 times real time: 100 ms show 150 s.
    scene.tick(100, false);
    assert_eq!(scene.clock_time(), 150_000_000);
    // Speed 1800: 100 ms show 180 s more.
    scene.tick(100, false);
    assert_eq!(scene.clock_time(), 330_000_000);
}

#[test]
fn snow_shaking_switches_sides() {
    let mut scene = DeathScene::new(DeathCause::Hypothermia);
    scene.tick(3001, false);
    assert!(!scene.shaking_left());
    scene.tick(200, false);
    assert!(!scene.shaking_left());
    scene.tick(1, false);
    assert!(scene.shaking_left());
}

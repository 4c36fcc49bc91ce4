use sdop_game::heal::{HealScene, HealStep, HEAL_TIME_MAX_MS, HEAL_TIME_MIN_MS};
use sdop_game::suiter::{Suiter, SuitersScene, SuitersStep};

fn suiter() -> Suiter {
    Suiter { pet_def_id: 3, upid: 77, name: String::from("BOB"), waiting: 0 }
}

#[test]
fn suiter_is_embraced_by_default() {
    let mut scene = SuitersScene::new(suiter());
    assert_eq!(scene.tick(16, false, false, false, true), SuitersStep::Stay);
    assert_eq!(scene.tick(16, true, false, false, true), SuitersStep::Stay);
    // Waits 2000 ms; the question comes after more than that.
    assert_eq!(scene.tick(2000, false, false, false, true), SuitersStep::Stay);
    assert_eq!(scene.tick(1, false, false, false, false), SuitersStep::Stay);
    assert_eq!(scene.tick(16, false, false, false, true), SuitersStep::Breed);
    assert_eq!(scene.suiter().upid, 77);
}

#[test]
fn suiter_can_be_sent_away() {
    let mut scene = SuitersScene::new(suiter());
    scene.tick(16, true, false, false, false);
    scene.tick(2001, false, false, false, false);
    assert_eq!(scene.tick(16, false, true, false, true), SuitersStep::Home);
}

#[test]
fn doctor_visit() {
    let mut rng = fastrand::Rng::with_seed(3);
    let mut scene = HealScene::new();
    scene.setup(&mut rng);
    assert_eq!(scene.tick(16, true, false, false, false, false, 10, 5), HealStep::Stay);
    // Cannot pay: home.
    assert_eq!(scene.tick(16, false, false, false, false, true, 10, 5), HealStep::Home);
    let mut scene = HealScene::new();
    scene.setup(&mut rng);
    scene.tick(16, true, false, false, false, false, 10, 50);
    assert_eq!(scene.tick(16, false, false, true, false, true, 10, 50), HealStep::Stay);
    // In the hospital for at most the longest stay.
    assert_eq!(scene.tick(HEAL_TIME_MAX_MS, false, false, false, false, false, 10, 50), HealStep::Stay);
    assert_eq!(scene.tick(16, false, false, false, false, false, 10, 50), HealStep::Stay);
    assert_eq!(scene.tick(16, false, true, false, false, false, 10, 50), HealStep::Home);
    assert!(HEAL_TIME_MIN_MS < HEAL_TIME_MAX_MS);
}

use sdop_game::shop_scene::{ShopInput, ShopItemInfo, ShopScene, ShopSound, ShopState, SIGN_SHAKE_MS};

const OPEN: u32 = 9 * 3600;
const CLOSE: u32 = 17 * 3600;
const NOON: u32 = 12 * 3600;

fn input(left: bool, right: bool, middle: bool) -> ShopInput {
    ShopInput { left, right, middle, any: left || right || middle }
}

fn item(cost: u64) -> ShopItemInfo {
    ShopItemInfo { cost, unique: false, owned: false }
}

#[test]
fn closed_outside_opening_hours() {
    let mut scene = ShopScene::new();
    scene.setup(vec![1, 2], 8 * 3600, OPEN, CLOSE, false);
    let mut money = 10;
    let t = scene.tick(16, input(false, false, false), 8 * 3600, OPEN, CLOSE, false, false, item(1), &mut money);
    assert!(!t.go_home);
    assert_eq!(t.sounds, vec![ShopSound::ClosedMusic]);
    // Opens once the time is inside the hours.
    let t = scene.tick(16, input(false, false, false), NOON, OPEN, CLOSE, false, true, item(1), &mut money);
    assert!(t.sounds.is_empty());
    assert_eq!(scene.selected_item(), None);
    // Any button while closed goes home.
    let mut scene = ShopScene::new();
    scene.setup(vec![1], NOON, OPEN, CLOSE, true);
    let t = scene.tick(16, input(true, false, false), NOON, OPEN, CLOSE, true, true, item(1), &mut money);
    assert!(t.go_home);
    assert_eq!(money, 10);
}

#[test]
fn buying_and_refusing() {
    let mut scene = ShopScene::new();
    scene.setup(vec![7, 8], NOON, OPEN, CLOSE, false);
    let mut money: u64 = 10;
    let t = scene.tick(16, input(false, true, false), NOON, OPEN, CLOSE, false, false, item(1), &mut money);
    assert_eq!(t.sounds, vec![ShopSound::ShopMusic, ShopSound::Clear]);
    assert_eq!(scene.selected_item(), Some(7));
    // Costs 4: bought.
    let t = scene.tick(16, input(false, false, true), NOON, OPEN, CLOSE, false, false, item(4), &mut money);
    assert!(t.bought);
    assert_eq!(money, 6);
    assert_eq!(t.sounds, vec![ShopSound::BuyChime]);
    // Costs exactly the money left: refused (the money must exceed the price).
    let t = scene.tick(16, input(false, false, true), NOON, OPEN, CLOSE, false, false, item(6), &mut money);
    assert!(!t.bought);
    assert_eq!(money, 6);
    assert_eq!(t.sounds, vec![ShopSound::Error]);
    // A unique item already owned is refused.
    let owned = ShopItemInfo { cost: 1, unique: true, owned: true };
    let t = scene.tick(16, input(false, false, true), NOON, OPEN, CLOSE, false, false, owned, &mut money);
    assert!(!t.bought);
    // Right to the second item, right again past the end back to the shop keeper.
    scene.tick(16, input(false, true, false), NOON, OPEN, CLOSE, false, false, item(1), &mut money);
    assert_eq!(scene.selected_item(), Some(8));
    scene.tick(16, input(false, true, false), NOON, OPEN, CLOSE, false, false, item(1), &mut money);
    assert_eq!(scene.selected_item(), None);
    // Left at the shop keeper goes home.
    let t = scene.tick(16, input(true, false, false), NOON, OPEN, CLOSE, false, true, item(1), &mut money);
    assert!(t.go_home);
    let _ = (ShopState::Closed, SIGN_SHAKE_MS);
}

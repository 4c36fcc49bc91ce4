use sdop_game::shop::{add_drawn, ItemId, Shop, MAX_SHOP_ITEMS};

fn groups() -> (Vec<Vec<ItemId>>, Vec<Vec<ItemId>>, Vec<Vec<ItemId>>) {
    (
        vec![vec![10, 11, 12], vec![20, 21]],
        vec![vec![30], vec![40, 41, 42], vec![50, 51]],
        vec![vec![60, 61, 62, 99]],
    )
}

/// The drawing written out directly with the generator, for comparison.
fn expected(shop: &Shop, seed: u64, excluded: ItemId) -> Vec<ItemId> {
    let (g0, g1, g2) = groups();
    let mut rng = fastrand::Rng::with_seed(seed);
    let mut result: Vec<ItemId> = Vec::new();
    let counts = [shop.get_item_count(), 2, 1];
    for (catas, count) in [(g0, counts[0]), (g1, counts[1]), (g2, counts[2])] {
        let all: Vec<ItemId> = catas.iter().flatten().copied().collect();
        let mut added = 0;
        for _ in 0..all.len() {
            let item = all[rng.usize(0..all.len())];
            if !result.contains(&item) && item != excluded {
                result.push(item);
                added += 1;
            }
            if added >= count {
                break;
            }
        }
    }
    result
}

#[test]
fn item_set_draws_from_each_group() {
    let shop = Shop::new();
    let (g0, g1, g2) = groups();
    for seed in 0..50u64 {
        let items = shop.item_set(seed, &g0, &g1, &g2, 99);
        assert_eq!(items, expected(&shop, seed, 99));
        assert!(items.len() <= MAX_SHOP_ITEMS);
        assert!(!items.contains(&99));
        for (i, a) in items.iter().enumerate() {
            for b in &items[i + 1..] {
                assert_ne!(a, b);
            }
        }
        // The same day gives the same items.
        assert_eq!(items, shop.item_set(seed, &g0, &g1, &g2, 99));
    }
}

#[test]
fn item_count_changes_the_first_group() {
    let mut shop = Shop::new();
    shop.set_item_count(5);
    assert_eq!(shop.get_item_count(), 5);
    let (g0, g1, g2) = groups();
    let items = shop.item_set(7, &g0, &g1, &g2, 99);
    assert_eq!(items, expected(&shop, 7, 99));
    assert_eq!(Shop::default().get_item_count(), 2);
}

#[test]
fn fresh_group_always_gives_an_item() {
    // With every count at zero, each group still gives its first draw when all its items
    // are new and none is excluded.
    let mut shop = Shop::new();
    shop.set_item_count(0);
    let (g0, g1, g2) = groups();
    for seed in 0..20u64 {
        let items = shop.item_set(seed, &g0, &g1, &g2, 1000);
        assert!(items.len() >= 3);
    }
}

#[test]
fn one_draw_adds_the_item_at_the_flat_index() {
    let catas = vec![vec![10u16, 11], vec![20, 99]];
    let mut result = vec![11u16];
    assert!(add_drawn(&catas, 0, 99, &mut result));
    assert_eq!(result, vec![11, 10]);
    // Already chosen, or excluded: nothing is added.
    assert!(!add_drawn(&catas, 1, 99, &mut result));
    assert!(!add_drawn(&catas, 3, 99, &mut result));
    assert!(add_drawn(&catas, 2, 99, &mut result));
    assert_eq!(result, vec![11, 10, 20]);
}

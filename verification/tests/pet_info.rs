use sdop_game::pet_info::{records_tick, PetInfoPage};

#[test]
fn pet_info_pages_cycle() {
    assert_eq!(PetInfoPage::Main.tick(false, true), Some(PetInfoPage::LifeStages));
    assert_eq!(PetInfoPage::Parents.tick(false, true), Some(PetInfoPage::Main));
    assert_eq!(PetInfoPage::LifeStages.tick(true, false), Some(PetInfoPage::Main));
    assert_eq!(PetInfoPage::Parents.tick(true, false), Some(PetInfoPage::LifeStages));
    // Left on the main page goes home.
    assert_eq!(PetInfoPage::Main.tick(true, false), None);
    assert_eq!(PetInfoPage::Parents.tick(true, true), Some(PetInfoPage::Parents));
    assert_eq!(PetInfoPage::Parents.index(), 2);
}

#[test]
fn records_cursor() {
    assert_eq!(records_tick(0, true, false, 3), None);
    assert_eq!(records_tick(0, false, true, 3), Some(1));
    assert_eq!(records_tick(2, false, true, 3), Some(0));
    assert_eq!(records_tick(2, true, false, 3), Some(1));
    assert_eq!(records_tick(1, true, true, 3), Some(1));
    assert_eq!(records_tick(0, false, false, 0), Some(0));
}

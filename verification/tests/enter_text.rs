use sdop_game::enter_text::{
    enterable_char, find_enterable, EnterTextAction, EnterTextScene, ENTERABLE_COUNT,
};

#[test]
fn alphabet_order() {
    let all: Vec<u8> = (0..ENTERABLE_COUNT).map(enterable_char).collect();
    assert_eq!(all, b"abcdefghijklmnopqrstuvwxyz0123456789$ ".to_vec());
    for (i, c) in all.iter().enumerate() {
        assert_eq!(find_enterable(*c), Some(i));
    }
    assert_eq!(find_enterable(b'A'), None);
}

#[test]
fn new_screen_is_blank_and_capped() {
    let scene = EnterTextScene::new(3, String::from("NAME?"));
    assert_eq!(scene.text(), &b"   ".to_vec());
    let scene = EnterTextScene::new(40, String::from("NAME?"));
    assert_eq!(scene.text().len(), 31);
}

#[test]
fn typing_a_name() {
    let mut scene = EnterTextScene::new(2, String::from("NAME?"));
    // Slot 0: blank starts at 'a'; one step right gives 'b'.
    assert_eq!(scene.tick(false, false, true, true), EnterTextAction::Stay);
    assert_eq!(scene.tick(false, true, true, true), EnterTextAction::Stay);
    assert_eq!(scene.text(), &b"b ".to_vec());
    // Slot 1: left from 'a' wraps to the space... then one more left gives '$'.
    assert_eq!(scene.tick(false, true, false, true), EnterTextAction::Stay);
    assert_eq!(scene.tick(false, false, true, true), EnterTextAction::Stay);
    assert_eq!(scene.tick(true, false, false, true), EnterTextAction::Stay);
    assert_eq!(scene.tick(true, false, true, true), EnterTextAction::Stay);
    assert_eq!(scene.text(), &b"b$".to_vec());
    // Move to submit and hand the text back.
    assert_eq!(scene.tick(false, true, true, true), EnterTextAction::Done(b"b$".to_vec()));
}

#[test]
fn submit_is_skipped_while_the_text_is_not_valid() {
    let mut scene = EnterTextScene::new(2, String::from("NAME?"));
    // Left from the first slot would land on submit; not valid, so the cursor goes to slot 0,
    // and the middle button starts picking a character instead of submitting.
    assert_eq!(scene.tick(true, false, true, false), EnterTextAction::Stay);
    // Picking: pick 'a' for slot 0.
    assert_eq!(scene.tick(false, false, true, false), EnterTextAction::Stay);
    assert_eq!(scene.text(), &b"a ".to_vec());
    // Now valid: left from slot 0 goes to submit.
    assert_eq!(scene.tick(true, false, true, true), EnterTextAction::Done(b"a ".to_vec()));
}

#[test]
fn picking_keeps_the_character_of_the_slot() {
    let mut scene = EnterTextScene::new(1, String::from("NAME?")).with_show_pet(3);
    scene.tick(false, false, true, true);
    // Both buttons: a step back and a step forward.
    scene.tick(true, true, false, true);
    for _ in 0..27 {
        scene.tick(false, true, false, true);
    }
    scene.tick(false, false, true, true);
    assert_eq!(scene.text(), &b"1".to_vec());
    // Picking again starts from '1'.
    scene.tick(false, false, true, true);
    scene.tick(false, true, true, true);
    assert_eq!(scene.text(), &b"2".to_vec());
}

use sdop_game::scene::{SceneManger, SceneOutput, SceneSteps};

#[test]
fn first_tick_sets_up_active_scene() {
    let mut manager = SceneManger::new("home");
    let steps = manager.tick();
    assert_eq!(steps, SceneSteps { setup_first: true, switched: false });
    assert_eq!(*manager.scene_enum(), "home");
    let steps = manager.tick();
    assert_eq!(steps, SceneSteps { setup_first: false, switched: false });
}

#[test]
fn switch_keeps_last_scene() {
    let mut manager = SceneManger::new("home");
    manager.set_next("shop");
    let steps = manager.tick();
    assert_eq!(steps, SceneSteps { setup_first: true, switched: true });
    assert_eq!(*manager.scene_enum(), "shop");
    let last = manager.take_last_scene();
    assert_eq!(last, Some("home"));
    assert_eq!(manager.take_last_scene(), None);
    manager.restore_last_scene(last);
    assert_eq!(manager.take_last_scene(), Some("home"));
    *manager.scene_enum_mut() = "settings";
    assert_eq!(*manager.scene_enum(), "settings");
}

#[test]
fn scene_output_holds_next_scene() {
    let out = SceneOutput::new(5u8);
    assert_eq!(out.next_scene, Some(5));
    let none: SceneOutput<u8> = SceneOutput::none();
    assert_eq!(none.next_scene, None);
}

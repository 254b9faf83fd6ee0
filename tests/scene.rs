use engine::renderer::ShaderId;
use engine::runtime_id::RuntimeId;
use engine::runtime_id::RuntimeIdSource;
use engine::scene::Scene;

#[test]
fn only_objects_with_logic_are_active() {
    let mut scene: Scene<&str> = Scene::new();
    scene.add_game_object().add_logic_component("first");
    scene.add_game_object();
    scene.add_game_object().add_logic_component("third");
    assert_eq!(3, scene.game_objects().len());
    assert_eq!(vec![0, 2], scene.active_game_objects());
    assert_eq!(Some(&"third"), scene.game_objects()[2].logic_component());
    assert_eq!(None, scene.game_objects()[1].logic_component());
}

#[test]
fn removing_logic_deactivates_an_object() {
    let mut scene: Scene<u8> = Scene::new();
    scene.add_game_object().add_logic_component(1);
    scene.add_game_object().add_logic_component(2);
    scene.game_object_mut(0).remove_logic_component();
    assert_eq!(vec![1], scene.active_game_objects());
    scene.game_object_mut(1).add_logic_component(5);
    assert_eq!(Some(&5), scene.game_objects()[1].logic_component());
}

#[test]
fn empty_scene_has_no_active_objects() {
    let scene: Scene<u8> = Scene::new();
    assert!(scene.active_game_objects().is_empty());
}

#[test]
fn runtime_ids_are_distinct_and_increasing() {
    let mut source = RuntimeIdSource::new();
    let a = RuntimeId::generate(&mut source);
    let b = RuntimeId::generate(&mut source);
    assert!(a < b);
    assert_ne!(a, b);
    assert_eq!(0, a.value());
    assert_eq!(1, b.value());
}

#[test]
fn shader_ids_compare_by_name() {
    assert_eq!(ShaderId::Custom(String::from("x")), ShaderId::Custom(String::from("x")));
    assert_ne!(ShaderId::BuiltIn, ShaderId::Custom(String::from("x")));
}

use entity_assembly::components::animation::{
    Animation, AnimationLoad, AnimationLoader, Rectangle, Sprite, ANIMATION_FILE_ID,
};
use entity_assembly::components::player_control::{PlayerControl, PLAYER_CONTROL_FILE_ID};
use entity_assembly::components::position::{Position, POSITION_FILE_ID};
use entity_assembly::game::BasicTestGameWrapper;
use entity_assembly::globals::TestGlobalError;
use entity_assembly::input::{ButtonState, Event, TestCustomInput};
use entity_assembly::scenes::SceneStack;
use entity_assembly::value::JsonNumber;
use entity_assembly::world::{AudioController, FontDict, ImageDict, World};
use std::collections::HashSet;

fn key_set(keys: &[u32]) -> HashSet<u32> {
    keys.iter().copied().collect()
}

#[test]
fn pressed_key_counts_once_until_it_is_held() {
    let mut input = TestCustomInput::new();
    input.update(Event::Keyboard { key_code: 10, state: ButtonState::Pressed });
    input.update(Event::Other);
    assert_eq!(input.get_keys_pressed(), &key_set(&[10]));
    assert_eq!(input.get_keys_held(), &key_set(&[]));
    input.clear();
    assert_eq!(input.get_keys_pressed(), &key_set(&[]));
    assert_eq!(input.get_keys_held(), &key_set(&[10]));
    input.update(Event::Keyboard { key_code: 10, state: ButtonState::Pressed });
    input.update(Event::Keyboard { key_code: 11, state: ButtonState::Pressed });
    assert_eq!(input.get_keys_pressed(), &key_set(&[11]));
    input.update(Event::Keyboard { key_code: 10, state: ButtonState::Released });
    assert_eq!(input.get_keys_released(), &key_set(&[10]));
    assert_eq!(input.get_keys_held(), &key_set(&[]));
    input.clear();
    assert_eq!(input.get_keys_held(), &key_set(&[11]));
    assert_eq!(input.get_keys_released(), &key_set(&[]));
    assert_eq!(input.get_keys_pressed(), &key_set(&[]));
}

fn walking() -> AnimationLoader {
    AnimationLoader {
        image: "hero".to_string(),
        current_frame: 1,
        start_frame: 1,
        end_frame: 4,
        total_frames: 4,
        dimensions_x: 130,
        dimensions_y: 48,
        scale_x: JsonNumber::PosInt(2),
        scale_y: JsonNumber::PosInt(3),
    }
}

fn world_with_images(images: Vec<(String, u64)>) -> World {
    let mut world = World::new();
    BasicTestGameWrapper::load(
        &mut world,
        Ok(FontDict { fonts: vec![] }),
        Ok(ImageDict { images }),
        Ok(AudioController { handle: 0 }),
        Ok(SceneStack { scenes: vec![] }),
    )
    .unwrap();
    world
}

#[test]
fn animation_uses_the_catalogued_image_or_asks_for_a_fresh_load() {
    let world = world_with_images(vec![("hero".to_string(), 5)]);
    let expected = Animation {
        image: 5,
        current_frame: 1,
        start_frame: 1,
        end_frame: 4,
        total_frames: 4,
        dimensions: (130, 48),
        scale: (JsonNumber::PosInt(2), JsonNumber::PosInt(3)),
    };
    assert_eq!(walking().load_component(&world), AnimationLoad::Ready(expected));
    let empty = world_with_images(vec![]);
    assert_eq!(
        walking().load_component(&empty),
        AnimationLoad::LoadImage { path: "hero".to_string(), loader: walking() }
    );
    assert_eq!(walking().with_image(8).image, 8);
}

#[test]
fn animation_asks_for_a_fresh_load_while_the_catalogs_are_not_published() {
    assert_eq!(
        walking().load_component(&World::new()),
        AnimationLoad::LoadImage { path: "hero".to_string(), loader: walking() }
    );
}

#[test]
fn freshly_loaded_image_is_filed_in_the_catalog() {
    let mut images = ImageDict { images: vec![("villain".to_string(), 3)] };
    let animation = walking().finish_load(&mut images, Ok(7)).unwrap();
    assert_eq!(animation, walking().with_image(7));
    assert_eq!(
        images,
        ImageDict { images: vec![("villain".to_string(), 3), ("hero".to_string(), 7)] }
    );
    assert_eq!(entity_assembly::world::find_handle(&images.images, "hero"), Some(7));
    let failed = walking().finish_load(
        &mut images,
        Err(TestGlobalError::ResourceError { source_string: "no such file".to_string() }),
    );
    assert_eq!(
        failed,
        Err(TestGlobalError::ResourceError { source_string: "no such file".to_string() })
    );
    assert_eq!(images.images.len(), 2);
}

#[test]
fn sprite_is_cut_from_the_current_frame() {
    let mut animation = walking().with_image(5);
    let pos = Position { x: 7, y: 9 };
    let first = animation.create_sprite(&pos);
    assert_eq!(
        first,
        Sprite {
            source: Rectangle { x: 0, y: 9, width: 32, height: 48 },
            position: (7, 9),
            scale: (JsonNumber::PosInt(2), JsonNumber::PosInt(3)),
        }
    );
    assert_eq!(animation.current_frame, 2);
    let second = animation.create_sprite(&pos);
    assert_eq!(second.source, Rectangle { x: 32, y: 9, width: 32, height: 48 });
    assert_eq!(animation.current_frame, 3);
}

#[test]
fn position_and_player_control_load_as_themselves() {
    assert_eq!(Position { x: 1, y: 2 }.load_component(), Position { x: 1, y: 2 });
    assert_eq!(PlayerControl {}.load_component(), PlayerControl {});
    assert_eq!(POSITION_FILE_ID, "position");
    assert_eq!(PLAYER_CONTROL_FILE_ID, "player_control");
    assert_eq!(ANIMATION_FILE_ID, "animation");
}

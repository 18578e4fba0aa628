use entity_assembly::globals::{DecodeError, TestGlobalError};
use entity_assembly::input::{ButtonState, Event, TestCustomInput, KEY_Q};
use entity_assembly::load::{EntityFile, JSONLoad};
use entity_assembly::scenes::basic_test_scene::{
    BasicTestSceneLoader, DrawPlan, SceneTransition, BASIC_TEST_SCENE_FILE_ID, LAST_FRAME,
};
use entity_assembly::scenes::{
    load_scene_file, load_scene_stack, scene_factory, Scene, SceneFile, SceneLoader,
};
use entity_assembly::value::{JsonNumber, JsonValue};
use entity_assembly::world::{Entity, World};

fn scene_object(fields: Vec<(&str, JsonValue)>) -> JsonValue {
    JsonValue::Object(fields.into_iter().map(|(name, value)| (name.to_string(), value)).collect())
}

fn scene_payload(paths: Vec<&str>, frame: u64) -> JsonValue {
    scene_object(vec![
        (
            "entity_paths",
            JsonValue::List(paths.into_iter().map(|p| JsonValue::Text(p.to_string())).collect()),
        ),
        (
            "scene_values",
            scene_object(vec![
                ("text", JsonValue::Text("HELLO".to_string())),
                ("frame", JsonValue::Number(JsonNumber::PosInt(frame))),
                ("quit_flag", JsonValue::Bool(false)),
            ]),
        ),
    ])
}

fn scene_envelope(payload: JsonValue) -> JSONLoad {
    JSONLoad { load_type_id: "basic_test_scene".to_string(), actual_value: payload }
}

fn scene_entity(path: &str, number: u64) -> EntityFile {
    EntityFile {
        path: path.to_string(),
        components: vec![JSONLoad {
            load_type_id: "basic_number_test_component".to_string(),
            actual_value: scene_object(vec![(
                "number",
                JsonValue::Number(JsonNumber::PosInt(number)),
            )]),
        }],
    }
}

#[test]
fn scene_loader_is_made_from_its_own_tag_only() {
    assert_eq!(BASIC_TEST_SCENE_FILE_ID, "basic_test_scene");
    assert!(BasicTestSceneLoader::new(scene_envelope(JsonValue::Null)).is_ok());
    assert_eq!(
        BasicTestSceneLoader::new(JSONLoad {
            load_type_id: "other_scene".to_string(),
            actual_value: JsonValue::Null,
        })
        .err(),
        Some(TestGlobalError::LoadIDMatchError {
            expected_id: "basic_test_scene".to_string(),
            actual_id: "other_scene".to_string(),
        })
    );
}

#[test]
fn scene_registry_refuses_unknown_scene() {
    assert!(matches!(
        scene_factory(scene_envelope(JsonValue::Null)),
        Ok(SceneLoader::BasicTest(_))
    ));
    assert_eq!(
        scene_factory(JSONLoad {
            load_type_id: "other_scene".to_string(),
            actual_value: JsonValue::Null,
        })
        .err(),
        Some(TestGlobalError::UnknownTypeId {
            actual_id: "other_scene".to_string(),
            known_ids: vec!["basic_test_scene".to_string()],
        })
    );
}

#[test]
fn scene_loader_names_its_entity_files() {
    let loader = BasicTestSceneLoader::new(scene_envelope(scene_payload(
        vec!["entities/a.json", "entities/b.json"],
        0,
    )))
    .unwrap();
    assert_eq!(
        loader.entity_paths(),
        Ok(vec!["entities/a.json".to_string(), "entities/b.json".to_string()])
    );
    let broken = BasicTestSceneLoader::new(scene_envelope(JsonValue::Null)).unwrap();
    assert_eq!(
        broken.entity_paths().err(),
        Some(TestGlobalError::ConvertJSONError {
            value: JsonValue::Null,
            into_type: "SceneLoaderJSON".to_string(),
            source: DecodeError::InvalidType,
        })
    );
}

#[test]
fn scene_is_built_after_its_entities() {
    let mut world = World::new();
    let loader =
        BasicTestSceneLoader::new(scene_envelope(scene_payload(vec!["a.json", "b.json"], 5)))
            .unwrap();
    let scene = loader
        .load_scene(&mut world, vec![scene_entity("a.json", 1), scene_entity("b.json", 2)])
        .unwrap();
    assert_eq!(world.entity_count(), 2);
    assert_eq!(scene.entities(), &vec![Entity { index: 0 }, Entity { index: 1 }]);
    assert_eq!(scene.text(), "HELLO");
    assert_eq!(scene.frame(), 5);
    assert_eq!(scene.is_finished(), Ok(false));
    assert_eq!(scene.get_name(), "BASIC TEST SCENE");
}

#[test]
fn scene_values_that_do_not_decode_are_an_error_and_leave_the_world_alone() {
    let mut world = World::new();
    let payload = scene_object(vec![
        ("entity_paths", JsonValue::List(vec![])),
        ("scene_values", scene_object(vec![("text", JsonValue::Text("x".to_string()))])),
    ]);
    let loader = BasicTestSceneLoader::new(scene_envelope(payload)).unwrap();
    let refused = loader.load_scene(&mut world, vec![scene_entity("a.json", 1)]);
    assert_eq!(world.entity_count(), 0);
    assert_eq!(
        refused.err(),
        Some(TestGlobalError::ConvertJSONError {
            value: scene_object(vec![("text", JsonValue::Text("x".to_string()))]),
            into_type: "BasicTestSceneJSON".to_string(),
            source: DecodeError::MissingField,
        })
    );
}

#[test]
fn entity_files_must_be_the_files_that_the_scene_names() {
    let mut world = World::new();
    let loader =
        BasicTestSceneLoader::new(scene_envelope(scene_payload(vec!["a.json", "b.json"], 5)))
            .unwrap();
    let refused = loader
        .load_scene(&mut world, vec![scene_entity("b.json", 2), scene_entity("a.json", 1)]);
    assert_eq!(world.entity_count(), 0);
    assert_eq!(
        refused.err(),
        Some(TestGlobalError::EntityPathMismatch {
            expected_paths: vec!["a.json".to_string(), "b.json".to_string()],
            actual_paths: vec!["b.json".to_string(), "a.json".to_string()],
        })
    );
    let too_few = loader.load_scene(&mut world, vec![scene_entity("a.json", 1)]);
    assert!(matches!(too_few, Err(TestGlobalError::EntityPathMismatch { .. })));
    assert_eq!(world.entity_count(), 0);
}

#[test]
fn scene_ticks() {
    let mut world = World::new();
    let loader =
        BasicTestSceneLoader::new(scene_envelope(scene_payload(vec![], LAST_FRAME as u64 - 1)))
            .unwrap();
    let mut scene = loader.load_scene(&mut world, vec![]).unwrap();
    assert_eq!(
        scene.draw(),
        Ok(DrawPlan { report_frames: false, print_components: false })
    );
    assert_eq!(scene.update(), Ok(SceneTransition::NONE));
    assert_eq!(scene.frame(), 300);
    assert_eq!(scene.draw(), Ok(DrawPlan { report_frames: true, print_components: true }));
    assert_eq!(scene.update(), Ok(SceneTransition::NONE));
    assert_eq!(
        scene.draw(),
        Ok(DrawPlan { report_frames: false, print_components: false })
    );
    let mut input = TestCustomInput::new();
    assert_eq!(scene.interact(&input), Ok(()));
    assert_eq!(scene.is_finished(), Ok(false));
    input.update(Event::Keyboard { key_code: KEY_Q, state: ButtonState::Pressed });
    assert_eq!(scene.interact(&input), Ok(()));
    assert_eq!(scene.is_finished(), Ok(true));
    input.clear();
    assert_eq!(scene.interact(&input), Ok(()));
    assert_eq!(scene.is_finished(), Ok(false));
}

#[test]
fn scene_stack_is_loaded_in_order() {
    let mut world = World::new();
    let stack = load_scene_stack(
        &mut world,
        vec![
            SceneFile {
                path: "scenes/one.json".to_string(),
                scene: scene_envelope(scene_payload(vec!["a.json"], 1)),
                entities: vec![scene_entity("a.json", 1)],
            },
            SceneFile {
                path: "scenes/two.json".to_string(),
                scene: scene_envelope(scene_payload(vec!["b.json", "c.json"], 2)),
                entities: vec![scene_entity("b.json", 2), scene_entity("c.json", 3)],
            },
        ],
    )
    .unwrap();
    assert_eq!(world.entity_count(), 3);
    assert_eq!(stack.scenes.len(), 2);
    match &stack.scenes[0] {
        Scene::BasicTest(scene) => {
            assert_eq!(scene.frame(), 1);
            assert_eq!(scene.entities(), &vec![Entity { index: 0 }]);
        },
    }
    match &stack.scenes[1] {
        Scene::BasicTest(scene) => {
            assert_eq!(scene.frame(), 2);
            assert_eq!(scene.entities(), &vec![Entity { index: 1 }, Entity { index: 2 }]);
        },
    }
}

#[test]
fn scene_stack_stops_at_the_first_scene_that_fails() {
    let mut world = World::new();
    let refused = load_scene_stack(
        &mut world,
        vec![
            SceneFile {
                path: "scenes/one.json".to_string(),
                scene: scene_envelope(scene_payload(vec!["a.json"], 1)),
                entities: vec![scene_entity("a.json", 1)],
            },
            SceneFile {
                path: "scenes/bad.json".to_string(),
                scene: JSONLoad {
                    load_type_id: "other_scene".to_string(),
                    actual_value: JsonValue::Null,
                },
                entities: vec![scene_entity("b.json", 2)],
            },
            SceneFile {
                path: "scenes/three.json".to_string(),
                scene: scene_envelope(scene_payload(vec!["c.json"], 3)),
                entities: vec![scene_entity("c.json", 3)],
            },
        ],
    );
    assert_eq!(world.entity_count(), 1);
    match refused {
        Err(error) => assert_eq!(
            error.report(),
            "Failed to load json from: scenes/bad.json: load_type_id: \"other_scene\" is not one of the known IDs: \"basic_test_scene\""
        ),
        Ok(_) => panic!("the stack was loaded"),
    }
}

#[test]
fn scene_file_failure_names_scene_and_entity_file() {
    let mut world = World::new();
    let refused = load_scene_file(
        &mut world,
        SceneFile {
            path: "scenes/one.json".to_string(),
            scene: scene_envelope(scene_payload(vec!["a.json"], 1)),
            entities: vec![EntityFile {
                path: "a.json".to_string(),
                components: vec![JSONLoad {
                    load_type_id: "nothing".to_string(),
                    actual_value: JsonValue::Null,
                }],
            }],
        },
    );
    match refused {
        Err(TestGlobalError::JSONLoadError { file_path, source }) => {
            assert_eq!(file_path, "scenes/one.json");
            match *source {
                TestGlobalError::JSONLoadError { file_path, .. } => assert_eq!(file_path, "a.json"),
                other => panic!("unexpected cause {:?}", other),
            }
        },
        other => panic!("unexpected outcome {:?}", other.map(|_| ())),
    }
}

use entity_assembly::components::basic_map_test::BasicMapTest;
use entity_assembly::components::basic_number_test::BasicNumberTest;
use entity_assembly::components::basic_text_test::BasicTextTest;
use entity_assembly::components::basic_vec_test::BasicVectorTest;
use entity_assembly::components::mesh_graphic::{MeshGraphicJSON, MeshGraphicLoader};
use entity_assembly::components::text_display::{
    HorizontalAlignment, TextDisplayLoader, VerticalAlignment,
};
use entity_assembly::components::{
    poison_message, BasicTestComponentLoader, BasicTestComponentMux, Component, ComponentError,
    ComponentLoader,
};
use entity_assembly::globals::{
    join_texts, mismatch_message, path_mismatch_message, quote_all, unknown_id_message,
    DecodeError, TestGlobalError,
};
use entity_assembly::load::JSONLoad;
use entity_assembly::value::{JsonNumber, JsonValue};
use entity_assembly::world::{EntityBuilder, World};

fn loader_object(fields: Vec<(&str, JsonValue)>) -> JsonValue {
    JsonValue::Object(fields.into_iter().map(|(name, value)| (name.to_string(), value)).collect())
}

fn loader_envelope(id: &str, payload: JsonValue) -> JSONLoad {
    JSONLoad { load_type_id: id.to_string(), actual_value: payload }
}

fn loader_number(n: u64) -> JsonValue {
    JsonValue::Number(JsonNumber::PosInt(n))
}

fn attached_components(loader: &ComponentLoader) -> Vec<Component> {
    let world = World::new();
    let mut target = World::new();
    let builder = loader.load_component(EntityBuilder::new(), &world).unwrap();
    let entity = builder.build(&mut target);
    let mut out = Vec::new();
    for kind_index in 0..target.components(entity).unwrap().len() {
        let attached = &target.components(entity).unwrap()[kind_index];
        out.push(match attached {
            Component::Number(c) => Component::Number(BasicNumberTest { number: c.number }),
            Component::Text(c) => Component::Text(BasicTextTest { text: c.text.clone() }),
            Component::Vector(c) => Component::Vector(BasicVectorTest { vector: c.vector.clone() }),
            Component::Mapping(c) => Component::Mapping(BasicMapTest { map: c.map.clone() }),
            other => panic!("unexpected component {:?}", other),
        });
    }
    out
}

#[test]
fn generic_loader_is_made_from_its_own_tag_and_a_payload_that_decodes() {
    let made = BasicTestComponentLoader::<BasicNumberTest>::from_json(loader_envelope(
        "basic_number_test_component",
        loader_object(vec![("number", loader_number(7))]),
    ));
    assert_eq!(made.unwrap().get_component_name(), "basic_number_test_component");
    let refused = BasicTestComponentLoader::<BasicNumberTest>::from_json(loader_envelope(
        "basic_number_test_component",
        loader_object(vec![("number", JsonValue::Text("seven".to_string()))]),
    ));
    assert_eq!(
        refused.err(),
        Some(TestGlobalError::ConvertJSONError {
            value: loader_object(vec![("number", JsonValue::Text("seven".to_string()))]),
            into_type: "BasicNumberTest".to_string(),
            source: DecodeError::InvalidType,
        })
    );
    let other_tag = BasicTestComponentLoader::<BasicNumberTest>::from_json(loader_envelope(
        "basic_text_test_component",
        JsonValue::Null,
    ));
    assert_eq!(
        other_tag.err(),
        Some(TestGlobalError::LoadIDMatchError {
            expected_id: "basic_number_test_component".to_string(),
            actual_id: "basic_text_test_component".to_string(),
        })
    );
}

#[test]
fn registry_picks_the_loader_by_the_tag_alone() {
    let refused = BasicTestComponentMux::map_json_to_loader(loader_envelope(
        "basic_boolean_test_component",
        loader_object(vec![("number", loader_number(7))]),
    ));
    assert_eq!(
        refused.err(),
        Some(TestGlobalError::ConvertJSONError {
            value: loader_object(vec![("number", loader_number(7))]),
            into_type: "BasicBooleanTest".to_string(),
            source: DecodeError::MissingField,
        })
    );
}

#[test]
fn generic_loader_reports_replaced_payload_that_does_not_decode_when_attaching() {
    let mut loader = BasicTestComponentLoader::<BasicNumberTest>::from_json(loader_envelope(
        "basic_number_test_component",
        loader_object(vec![("number", loader_number(7))]),
    ))
    .unwrap();
    assert!(loader
        .set_value(loader_envelope(
            "basic_number_test_component",
            loader_object(vec![("number", JsonValue::Text("seven".to_string()))]),
        ))
        .is_ok());
    let world = World::new();
    let refused = loader.load_component(EntityBuilder::new(), &world);
    assert_eq!(
        refused.err(),
        Some(TestGlobalError::ConvertJSONError {
            value: loader_object(vec![("number", JsonValue::Text("seven".to_string()))]),
            into_type: "BasicNumberTest".to_string(),
            source: DecodeError::InvalidType,
        })
    );
}

#[test]
fn registry_refuses_unknown_id_and_names_the_known_ones() {
    let refused = BasicTestComponentMux::map_json_to_loader(loader_envelope(
        "mesh_graphic",
        JsonValue::Null,
    ));
    assert_eq!(
        refused.err(),
        Some(TestGlobalError::UnknownTypeId {
            actual_id: "mesh_graphic".to_string(),
            known_ids: vec![
                "basic_number_test_component".to_string(),
                "basic_boolean_test_component".to_string(),
                "basic_text_test_component".to_string(),
                "basic_vector_test_component".to_string(),
                "basic_map_test_component".to_string(),
            ],
        })
    );
    assert_eq!(BasicTestComponentMux::known_id_list().len(), 5);
}

#[test]
fn registry_hands_out_a_loader_for_every_known_id() {
    let payloads = vec![
        loader_object(vec![("number", loader_number(1))]),
        loader_object(vec![("boolean", JsonValue::Bool(true))]),
        loader_object(vec![("text", JsonValue::Text("t".to_string()))]),
        loader_object(vec![("vector", JsonValue::List(vec![]))]),
        loader_object(vec![("map", JsonValue::Object(vec![]))]),
    ];
    for (id, payload) in BasicTestComponentMux::known_id_list().into_iter().zip(payloads) {
        let loader = BasicTestComponentMux::map_json_to_loader(loader_envelope(&id, payload));
        assert_eq!(loader.unwrap().get_component_name(), id);
    }
    for id in BasicTestComponentMux::known_id_list() {
        let refused =
            BasicTestComponentMux::map_json_to_loader(loader_envelope(&id, JsonValue::Null));
        assert!(matches!(refused, Err(TestGlobalError::ConvertJSONError { .. })));
    }
}

#[test]
fn set_value_with_other_tag_leaves_cached_payload_unchanged() {
    let mut loader = BasicTestComponentMux::map_json_to_loader(loader_envelope(
        "basic_number_test_component",
        loader_object(vec![("number", loader_number(7))]),
    ))
    .unwrap();
    let refused = loader.set_value(loader_envelope(
        "basic_text_test_component",
        loader_object(vec![("number", loader_number(8))]),
    ));
    assert_eq!(
        refused.err(),
        Some(TestGlobalError::LoadIDMatchError {
            expected_id: "basic_number_test_component".to_string(),
            actual_id: "basic_text_test_component".to_string(),
        })
    );
    assert_eq!(
        attached_components(&loader),
        vec![Component::Number(BasicNumberTest { number: 7 })]
    );
}

#[test]
fn set_value_with_own_tag_replaces_cached_payload() {
    let mut loader = BasicTestComponentMux::map_json_to_loader(loader_envelope(
        "basic_number_test_component",
        loader_object(vec![("number", loader_number(7))]),
    ))
    .unwrap();
    assert!(loader
        .set_value(loader_envelope(
            "basic_number_test_component",
            loader_object(vec![("number", loader_number(8))]),
        ))
        .is_ok());
    assert_eq!(
        attached_components(&loader),
        vec![Component::Number(BasicNumberTest { number: 8 })]
    );
}

#[test]
fn mismatch_message_quotes_both_ids() {
    let error = TestGlobalError::LoadIDMatchError {
        expected_id: "basic_boolean_test_component".to_string(),
        actual_id: "basic_number_test_component".to_string(),
    };
    assert_eq!(
        error.message(),
        "load_type_id: \"basic_number_test_component\" did not match expected ID: \"basic_boolean_test_component\""
    );
}

#[test]
fn unknown_id_message_lists_known_ids() {
    let error = TestGlobalError::UnknownTypeId {
        actual_id: "x\"y".to_string(),
        known_ids: vec!["a".to_string(), "b".to_string()],
    };
    assert_eq!(
        error.message(),
        "load_type_id: \"x\\\"y\" is not one of the known IDs: \"a\", \"b\""
    );
}

#[test]
fn report_names_the_file_and_the_cause() {
    let error = TestGlobalError::JSONLoadError {
        file_path: "assets/json/entities/one.json".to_string(),
        source: Box::new(TestGlobalError::ConvertJSONError {
            value: JsonValue::Null,
            into_type: "BasicNumberTest".to_string(),
            source: DecodeError::MissingField,
        }),
    };
    assert_eq!(error.message(), "Failed to load json from: assets/json/entities/one.json");
    assert_eq!(
        error.report(),
        "Failed to load json from: assets/json/entities/one.json: Error converting JSON value into BasicNumberTest: missing field"
    );
}

#[test]
fn lock_and_resource_messages() {
    assert_eq!(
        TestGlobalError::ECSWriteError { source_string: "poisoned".to_string() }.message(),
        "Error getting write lock for ECS"
    );
    assert_eq!(
        TestGlobalError::ECSReadError { source_string: "poisoned".to_string() }.message(),
        "Error getting read lock for ECS"
    );
    assert_eq!(
        TestGlobalError::ResourceError { source_string: "no device".to_string() }.message(),
        "no device"
    );
    assert_eq!(
        ComponentError::ComponentPoisonError {
            var_name: "ecs".to_string(),
            source_string: "poisoned".to_string(),
        }
        .message(),
        "Failed to get lock of variable: \"ecs\"."
    );
}

#[test]
fn messages_are_joined_from_quoted_texts() {
    assert_eq!(
        mismatch_message("<a>", "<b>"),
        "load_type_id: <a> did not match expected ID: <b>"
    );
    assert_eq!(
        unknown_id_message("<a>", &vec!["<b>".to_string(), "<c>".to_string()]),
        "load_type_id: <a> is not one of the known IDs: <b>, <c>"
    );
    assert_eq!(
        path_mismatch_message(&vec!["<a>".to_string()], &vec![]),
        "entity files: <a> are not the files that the scene names: "
    );
    assert_eq!(join_texts(&vec![]), "");
    assert_eq!(join_texts(&vec!["x".to_string()]), "x");
    assert_eq!(join_texts(&vec!["x".to_string(), "y".to_string(), "z".to_string()]), "x, y, z");
    assert_eq!(
        quote_all(&vec!["a\nb".to_string(), "c".to_string()]),
        vec!["\"a\\nb\"".to_string(), "\"c\"".to_string()]
    );
    assert_eq!(poison_message("<v>"), "Failed to get lock of variable: <v>.");
    assert_eq!(
        TestGlobalError::EntityPathMismatch {
            expected_paths: vec!["a.json".to_string(), "b.json".to_string()],
            actual_paths: vec!["b.json".to_string()],
        }
        .message(),
        "entity files: \"b.json\" are not the files that the scene names: \"a.json\", \"b.json\""
    );
}

#[test]
fn decode_error_messages() {
    assert_eq!(DecodeError::InvalidType.message(), "invalid type");
    assert_eq!(DecodeError::InvalidLength.message(), "invalid length");
    assert_eq!(DecodeError::MissingField.message(), "missing field");
    assert_eq!(DecodeError::OutOfRange.message(), "number out of range");
    assert_eq!(DecodeError::InvalidKey.message(), "invalid key");
}

fn mesh_payload() -> JsonValue {
    loader_object(vec![
        ("x", loader_number(1)),
        ("y", loader_number(2)),
        ("width", loader_number(30)),
        ("height", loader_number(40)),
        ("r", JsonValue::Number(JsonNumber::Float(0x3fe0000000000000))),
        ("g", loader_number(0)),
        ("b", loader_number(1)),
        ("a", loader_number(1)),
        ("stroke_width", JsonValue::Number(JsonNumber::NegInt(-1))),
    ])
}

#[test]
fn mesh_loader_decodes_when_made_and_attaches_the_description() {
    let loader =
        MeshGraphicLoader::from_json(loader_envelope("mesh_graphic", mesh_payload())).unwrap();
    assert_eq!(loader.get_component_name(), "Mesh Graphic");
    let world = World::new();
    let mut target = World::new();
    let entity = loader.load_component(EntityBuilder::new(), &world).unwrap().build(&mut target);
    match &target.components(entity).unwrap()[0] {
        Component::MeshGraphic(graphic) => assert_eq!(
            graphic.mesh,
            MeshGraphicJSON {
                x: JsonNumber::PosInt(1),
                y: JsonNumber::PosInt(2),
                width: JsonNumber::PosInt(30),
                height: JsonNumber::PosInt(40),
                r: JsonNumber::Float(0x3fe0000000000000),
                g: JsonNumber::PosInt(0),
                b: JsonNumber::PosInt(1),
                a: JsonNumber::PosInt(1),
                stroke_width: JsonNumber::NegInt(-1),
            }
        ),
        other => panic!("unexpected component {:?}", other),
    }
}

#[test]
fn mesh_loader_looks_at_the_tag_before_the_payload() {
    assert_eq!(
        MeshGraphicLoader::from_json(loader_envelope("text_display", JsonValue::Null)).err(),
        Some(TestGlobalError::LoadIDMatchError {
            expected_id: "mesh_graphic".to_string(),
            actual_id: "text_display".to_string(),
        })
    );
    assert_eq!(
        MeshGraphicLoader::from_json(loader_envelope(
            "mesh_graphic",
            loader_object(vec![("x", loader_number(1))])
        ))
        .err(),
        Some(TestGlobalError::ConvertJSONError {
            value: loader_object(vec![("x", loader_number(1))]),
            into_type: "MeshGraphicJSON".to_string(),
            source: DecodeError::MissingField,
        })
    );
}

#[test]
fn mesh_loader_keeps_its_fields_when_replacement_fails() {
    let mut loader =
        MeshGraphicLoader::from_json(loader_envelope("mesh_graphic", mesh_payload())).unwrap();
    assert!(loader.set_value(loader_envelope("mesh_graphic", JsonValue::Bool(true))).is_err());
    assert!(loader.set_value(loader_envelope("other", mesh_payload())).is_err());
    let world = World::new();
    let mut target = World::new();
    let entity = loader.load_component(EntityBuilder::new(), &world).unwrap().build(&mut target);
    match &target.components(entity).unwrap()[0] {
        Component::MeshGraphic(graphic) => assert_eq!(graphic.mesh.width, JsonNumber::PosInt(30)),
        other => panic!("unexpected component {:?}", other),
    }
}

fn text_display_payload() -> JsonValue {
    loader_object(vec![
        ("content", JsonValue::List(vec![JsonValue::Text("Hello".to_string())])),
        ("position_x", loader_number(10)),
        ("position_y", loader_number(20)),
        ("bounds_x", loader_number(300)),
        ("bounds_y", loader_number(400)),
        ("size", loader_number(16)),
        ("r", loader_number(1)),
        ("g", loader_number(0)),
        ("b", loader_number(0)),
        ("a", loader_number(1)),
        ("font", JsonValue::Text("astron_boy".to_string())),
    ])
}

#[test]
fn text_display_loader_groups_the_fields_and_centres_the_text() {
    let loader =
        TextDisplayLoader::from_json(loader_envelope("text_display", text_display_payload()))
            .unwrap();
    assert_eq!(loader.get_component_name(), "text_display");
    let world = World::new();
    let mut target = World::new();
    let entity = loader.load_component(EntityBuilder::new(), &world).unwrap().build(&mut target);
    match &target.components(entity).unwrap()[0] {
        Component::TextDisplay(display) => {
            assert_eq!(display.content, vec!["Hello".to_string()]);
            assert_eq!(display.position, (JsonNumber::PosInt(10), JsonNumber::PosInt(20)));
            assert_eq!(display.bounds, (JsonNumber::PosInt(300), JsonNumber::PosInt(400)));
            assert_eq!(display.size, JsonNumber::PosInt(16));
            assert_eq!(
                display.color,
                (
                    JsonNumber::PosInt(1),
                    JsonNumber::PosInt(0),
                    JsonNumber::PosInt(0),
                    JsonNumber::PosInt(1)
                )
            );
            assert_eq!(display.h_align, HorizontalAlignment::Center);
            assert_eq!(display.v_align, VerticalAlignment::Center);
            assert_eq!(display.font, "astron_boy");
        },
        other => panic!("unexpected component {:?}", other),
    }
}

#[test]
fn text_display_loader_names_the_target_type_of_a_failed_decode() {
    match TextDisplayLoader::from_json(loader_envelope("text_display", JsonValue::Null)) {
        Err(TestGlobalError::ConvertJSONError { into_type, source, .. }) => {
            assert_eq!(into_type, "TextDisplayJSON");
            assert_eq!(source, DecodeError::InvalidType);
        },
        other => panic!("unexpected outcome {:?}", other.map(|_| ())),
    }
    let mut loader =
        TextDisplayLoader::from_json(loader_envelope("text_display", text_display_payload()))
            .unwrap();
    match loader.set_value(loader_envelope("text_display", JsonValue::List(vec![]))) {
        Err(TestGlobalError::ConvertJSONError { into_type, source, .. }) => {
            assert_eq!(into_type, "TextDisplayJSON");
            assert_eq!(source, DecodeError::InvalidLength);
        },
        other => panic!("unexpected outcome {:?}", other),
    }
}

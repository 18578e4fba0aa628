use entity_assembly::components::basic_number_test::BasicNumberTest;
use entity_assembly::components::basic_text_test::BasicTextTest;
use entity_assembly::components::{Component, ComponentKind};
use entity_assembly::globals::{DecodeError, TestGlobalError};
use entity_assembly::load::{load_entity, load_entity_vec, EntityFile, JSONLoad};
use entity_assembly::systems::print_basic_components::PrintBasicComponents;
use entity_assembly::value::{JsonNumber, JsonValue};
use entity_assembly::world::{Entity, EntityBuilder, World};

fn assembly_envelope(id: &str, field: &str, value: JsonValue) -> JSONLoad {
    JSONLoad {
        load_type_id: id.to_string(),
        actual_value: JsonValue::Object(vec![(field.to_string(), value)]),
    }
}

fn assembly_number(n: u64) -> JSONLoad {
    assembly_envelope(
        "basic_number_test_component",
        "number",
        JsonValue::Number(JsonNumber::PosInt(n)),
    )
}

fn assembly_text(text: &str) -> JSONLoad {
    assembly_envelope("basic_text_test_component", "text", JsonValue::Text(text.to_string()))
}

fn assembly_file(path: &str, components: Vec<JSONLoad>) -> EntityFile {
    EntityFile { path: path.to_string(), components }
}

fn assembly_numbers_of(world: &World, entity: Entity) -> Vec<u32> {
    world
        .components(entity)
        .unwrap()
        .iter()
        .map(|component| match component {
            Component::Number(number) => number.number,
            other => panic!("unexpected component {:?}", other),
        })
        .collect()
}

#[test]
fn components_are_attached_in_the_order_of_the_envelopes() {
    let mut world = World::new();
    let entity = load_entity(
        &mut world,
        assembly_file(
            "a.json",
            vec![
                assembly_text("t"),
                assembly_number(3),
                assembly_envelope("basic_vector_test_component", "vector", JsonValue::List(vec![])),
            ],
        ),
    )
    .unwrap();
    let kinds: Vec<ComponentKind> =
        world.components(entity).unwrap().iter().map(|c| c.kind()).collect();
    assert_eq!(kinds, vec![ComponentKind::Text, ComponentKind::Number, ComponentKind::Vector]);
}

#[test]
fn later_component_of_a_kind_replaces_the_earlier_one() {
    let mut world = World::new();
    let entity = load_entity(
        &mut world,
        assembly_file("a.json", vec![assembly_number(1), assembly_number(2)]),
    )
    .unwrap();
    assert_eq!(assembly_numbers_of(&world, entity), vec![2]);
    let mixed = load_entity(
        &mut world,
        assembly_file(
            "b.json",
            vec![assembly_number(1), assembly_text("a"), assembly_number(2), assembly_text("b")],
        ),
    )
    .unwrap();
    let components = world.components(mixed).unwrap();
    assert_eq!(components.len(), 2);
    match (&components[0], &components[1]) {
        (Component::Number(number), Component::Text(text)) => {
            assert_eq!(number.number, 2);
            assert_eq!(text.text, "b");
        },
        other => panic!("unexpected components {:?}", other),
    }
}

#[test]
fn entities_come_out_in_the_order_of_the_files() {
    let mut world = World::new();
    let first = load_entity(&mut world, assembly_file("zero.json", vec![])).unwrap();
    assert_eq!(first.index, 0);
    let entities = load_entity_vec(
        &mut world,
        vec![
            assembly_file("a.json", vec![assembly_number(10)]),
            assembly_file("b.json", vec![assembly_number(20), assembly_number(21)]),
            assembly_file("c.json", vec![]),
        ],
    )
    .unwrap();
    assert_eq!(entities, vec![Entity { index: 1 }, Entity { index: 2 }, Entity { index: 3 }]);
    assert_eq!(world.entity_count(), 4);
    assert_eq!(assembly_numbers_of(&world, entities[0]), vec![10]);
    assert_eq!(assembly_numbers_of(&world, entities[1]), vec![21]);
    assert_eq!(assembly_numbers_of(&world, entities[2]), Vec::<u32>::new());
}

#[test]
fn failing_envelope_makes_no_entity_and_names_the_file() {
    let mut world = World::new();
    let refused = load_entity(
        &mut world,
        assembly_file(
            "assets/json/entities/bad.json",
            vec![
                assembly_number(1),
                assembly_envelope("no_such_component", "number", JsonValue::Null),
                assembly_envelope("basic_number_test_component", "number", JsonValue::Null),
            ],
        ),
    );
    assert_eq!(world.entity_count(), 0);
    match refused {
        Err(TestGlobalError::JSONLoadError { file_path, source }) => {
            assert_eq!(file_path, "assets/json/entities/bad.json");
            match *source {
                TestGlobalError::UnknownTypeId { actual_id, .. } => {
                    assert_eq!(actual_id, "no_such_component")
                },
                other => panic!("unexpected cause {:?}", other),
            }
        },
        other => panic!("unexpected outcome {:?}", other),
    }
}

#[test]
fn failing_file_leaves_earlier_entities_intact_and_builds_no_later_one() {
    let mut world = World::new();
    let refused = load_entity_vec(
        &mut world,
        vec![
            assembly_file("a.json", vec![assembly_number(10)]),
            assembly_file(
                "b.json",
                vec![assembly_envelope(
                    "basic_number_test_component",
                    "number",
                    JsonValue::Bool(true),
                )],
            ),
            assembly_file("c.json", vec![assembly_number(30)]),
        ],
    );
    assert_eq!(world.entity_count(), 1);
    assert_eq!(assembly_numbers_of(&world, Entity { index: 0 }), vec![10]);
    assert_eq!(
        refused.err(),
        Some(TestGlobalError::JSONLoadError {
            file_path: "b.json".to_string(),
            source: Box::new(TestGlobalError::ConvertJSONError {
                value: JsonValue::Object(vec![("number".to_string(), JsonValue::Bool(true))]),
                into_type: "BasicNumberTest".to_string(),
                source: DecodeError::InvalidType,
            }),
        })
    );
}

#[test]
fn world_finds_the_last_component_of_a_kind() {
    let mut world = World::new();
    let entity = load_entity(
        &mut world,
        assembly_file("a.json", vec![assembly_number(1), assembly_text("t"), assembly_number(2)]),
    )
    .unwrap();
    match world.component(entity, ComponentKind::Number) {
        Some(Component::Number(number)) => assert_eq!(number.number, 2),
        other => panic!("unexpected component {:?}", other),
    }
    assert!(world.component(entity, ComponentKind::Text).is_some());
    assert!(world.component(entity, ComponentKind::Boolean).is_none());
    assert!(world.component(Entity { index: 5 }, ComponentKind::Number).is_none());
    assert!(world.components(Entity { index: 5 }).is_none());
    assert_eq!(world.component(entity, ComponentKind::Number).unwrap().kind(), ComponentKind::Number);
}

#[test]
fn builder_attaches_exactly_one_component_per_call() {
    let mut world = World::new();
    let builder = EntityBuilder::new();
    let entity = builder.build(&mut world);
    assert_eq!(world.components(entity).unwrap().len(), 0);
    let builder = EntityBuilder::new()
        .with(Component::Number(BasicNumberTest { number: 1 }))
        .with(Component::Text(BasicTextTest { text: "t".to_string() }))
        .with(Component::Number(BasicNumberTest { number: 2 }));
    let entity = builder.build(&mut world);
    assert_eq!(
        world.components(entity).unwrap(),
        &vec![
            Component::Text(BasicTextTest { text: "t".to_string() }),
            Component::Number(BasicNumberTest { number: 2 }),
        ]
    );
}

#[test]
fn print_system_picks_entities_with_all_five_basic_components() {
    let mut world = World::new();
    let all_five = vec![
        assembly_number(1),
        assembly_envelope("basic_boolean_test_component", "boolean", JsonValue::Bool(false)),
        assembly_text("t"),
        assembly_envelope("basic_vector_test_component", "vector", JsonValue::List(vec![])),
        assembly_envelope("basic_map_test_component", "map", JsonValue::Object(vec![])),
    ];
    let all_five_again = vec![
        assembly_envelope("basic_map_test_component", "map", JsonValue::Object(vec![])),
        assembly_envelope("basic_vector_test_component", "vector", JsonValue::List(vec![])),
        assembly_text("t"),
        assembly_envelope("basic_boolean_test_component", "boolean", JsonValue::Bool(false)),
        assembly_number(1),
    ];
    load_entity_vec(
        &mut world,
        vec![
            assembly_file("a.json", all_five),
            assembly_file("b.json", vec![assembly_number(1), assembly_text("t")]),
            assembly_file("c.json", all_five_again),
        ],
    )
    .unwrap();
    let mut system = PrintBasicComponents;
    assert_eq!(system.run(&world), vec![Entity { index: 0 }, Entity { index: 2 }]);
    assert_eq!(system.run(&World::new()), vec![]);
}

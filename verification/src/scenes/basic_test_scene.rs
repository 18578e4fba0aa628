use crate::decode::{
    as_bool, as_text, as_text_list, as_usize, decode_bool, decode_text, decode_text_list,
    decode_usize, field, record_field,
};
use crate::globals::{texts, DecodeError, ErrorView, TestGlobalError};
use crate::input::{TestCustomInput, KEY_Q};
use crate::load::{
    built_prefix, entity_assembler, entity_file_views, load_entity_vec, EntityFile,
    EntityFileView, JSONLoad, JSONLoadView,
};
use crate::sequence::try_map;
use crate::value::{JsonValue, JsonView};
use crate::world::{Entity, World, WorldView};
use vstd::prelude::*;
use vstd::string::*;

verus! {

pub const BASIC_TEST_SCENE_FILE_ID: &'static str = "basic_test_scene";

/// The frame at which the scene has the basic components printed.
pub const LAST_FRAME: usize = 300;

/// What a scene asks of the scene stack after an update.
#[derive(Debug, Clone, Copy, PartialEq, Eq, Structural)]
pub enum SceneTransition {
    /// The scene stays where it is.
    NONE,
}

/// What a scene wants done besides its own drawing when a frame is drawn.
#[derive(Debug, Clone, Copy, PartialEq, Eq, Structural)]
pub struct DrawPlan {
    /// The number of frames is to be reported.
    pub report_frames: bool,
    /// The entities that carry all the basic components are to be printed.
    pub print_components: bool,
}

/// The paths of the entity files that a scene payload names.
pub open spec fn scene_entity_paths(payload: JsonView) -> Result<Seq<Seq<char>>, DecodeError> {
    match record_field(payload, "entity_paths"@, 0, 2) {
        Ok(paths) => as_text_list(paths),
        Err(e) => Err(e),
    }
}

/// The description of a scene that a payload holds: the paths of its entity
/// files, and the value that holds the fields of the scene itself.
pub open spec fn scene_description(payload: JsonView) -> Result<
    (Seq<Seq<char>>, JsonView),
    DecodeError,
> {
    match scene_entity_paths(payload) {
        Err(e) => Err(e),
        Ok(paths) => match record_field(payload, "scene_values"@, 1, 2) {
            Err(e) => Err(e),
            Ok(values) => Ok((paths, values)),
        },
    }
}

/// The fields of the scene itself, as they are decoded.
pub struct SceneValues {
    pub text: Seq<char>,
    pub frame: usize,
    pub quit_flag: bool,
}

/// The fields of the scene that a value holds: a text, a frame count and a
/// flag, looked at in this order.
pub open spec fn scene_values(values: JsonView) -> Result<SceneValues, DecodeError> {
    match record_field(values, "text"@, 0, 3) {
        Err(e) => Err(e),
        Ok(text_value) => match as_text(text_value) {
            Err(e) => Err(e),
            Ok(text) => match record_field(values, "frame"@, 1, 3) {
                Err(e) => Err(e),
                Ok(frame_value) => match as_usize(frame_value) {
                    Err(e) => Err(e),
                    Ok(frame) => match record_field(values, "quit_flag"@, 2, 3) {
                        Err(e) => Err(e),
                        Ok(flag_value) => match as_bool(flag_value) {
                            Err(e) => Err(e),
                            Ok(quit_flag) => Ok(SceneValues { text, frame, quit_flag }),
                        },
                    },
                },
            },
        },
    }
}

/// What a payload says of the scene before any entity is built: the fields
/// of the scene, or the failure that names the value that did not decode.
pub open spec fn scene_plan(payload: JsonView) -> Result<SceneValues, ErrorView> {
    match scene_description(payload) {
        Err(cause) => Err(
            ErrorView::ConvertJSONError {
                value: payload,
                into_type: "SceneLoaderJSON"@,
                source: cause,
            },
        ),
        Ok((_, values)) => match scene_values(values) {
            Err(cause) => Err(
                ErrorView::ConvertJSONError {
                    value: values,
                    into_type: "BasicTestSceneJSON"@,
                    source: cause,
                },
            ),
            Ok(fields) => Ok(fields),
        },
    }
}

/// The paths of a list of entity files, in order.
pub open spec fn file_paths(files: Seq<EntityFileView>) -> Seq<Seq<char>> {
    Seq::new(files.len(), |i: int| files[i].path)
}

/// What a payload and the entity files handed over with it say of the scene
/// before any entity is built: the fields of the scene, or the failure. The
/// files must be the files that the payload names, in the order in which it
/// names them.
pub open spec fn scene_check(payload: JsonView, files: Seq<EntityFileView>) -> Result<
    SceneValues,
    ErrorView,
> {
    match scene_plan(payload) {
        Err(failure) => Err(failure),
        Ok(fields) => if file_paths(files) == scene_entity_paths(payload)->Ok_0 {
            Ok(fields)
        } else {
            Err(
                ErrorView::EntityPathMismatch {
                    expected_paths: scene_entity_paths(payload)->Ok_0,
                    actual_paths: file_paths(files),
                },
            )
        },
    }
}

/// The loader of the basic test scene. It holds an envelope that is known to
/// carry the tag of the scene.
#[derive(Debug)]
pub struct BasicTestSceneLoader {
    scene_json: JSONLoad,
}

impl BasicTestSceneLoader {
    #[verifier::type_invariant]
    spec fn tagged_as_scene(self) -> bool {
        self.scene_json.load_type_id@ == BASIC_TEST_SCENE_FILE_ID@
    }

    /// The envelope that the loader holds.
    pub closed spec fn envelope(&self) -> JSONLoadView {
        self.scene_json@
    }

    /// Makes a loader from an envelope, which must carry the tag of the scene.
    pub fn new(json: JSONLoad) -> (r: Result<Self, TestGlobalError>)
        ensures
            r is Ok <==> json.load_type_id@ == BASIC_TEST_SCENE_FILE_ID@,
            r matches Ok(loader) ==> loader.envelope() == json@,
            r matches Err(e) ==> e@ == (ErrorView::LoadIDMatchError {
                expected_id: BASIC_TEST_SCENE_FILE_ID@,
                actual_id: json.load_type_id@,
            }),
    {
        let expected = String::from_str(BASIC_TEST_SCENE_FILE_ID);
        if json.load_type_id == expected {
            Ok(BasicTestSceneLoader { scene_json: json })
        } else {
            Err(
                TestGlobalError::LoadIDMatchError {
                    expected_id: expected,
                    actual_id: json.load_type_id,
                },
            )
        }
    }

    /// The paths of the entity files that the scene names, in their order.
    /// They are what `load_scene` is to be given the contents of.
    pub fn entity_paths(&self) -> (r: Result<Vec<String>, TestGlobalError>)
        ensures
            self.envelope().load_type_id == BASIC_TEST_SCENE_FILE_ID@,
            match scene_entity_paths(self.envelope().actual_value) {
                Ok(paths) => r matches Ok(list) && texts(list@) == paths,
                Err(cause) => r matches Err(e) && e@ == (ErrorView::ConvertJSONError {
                    value: self.envelope().actual_value,
                    into_type: "SceneLoaderJSON"@,
                    source: cause,
                }),
            },
    {
        proof {
            use_type_invariant(self);
        }
        let decoded = match field(&self.scene_json.actual_value, "entity_paths", 0, 2) {
            Ok(paths) => decode_text_list(paths),
            Err(e) => Err(e),
        };
        match decoded {
            Ok(list) => Ok(list),
            Err(cause) => Err(
                TestGlobalError::ConvertJSONError {
                    value: self.scene_json.actual_value.clone(),
                    into_type: String::from_str("SceneLoaderJSON"),
                    source: cause,
                },
            ),
        }
    }
}

/// The basic test scene: its entities and the state that its ticks change.
#[derive(Debug)]
pub struct BasicTestScene {
    entities: Vec<Entity>,
    text: String,
    frame: usize,
    quit_flag: bool,
}

/// The mathematical model of a [`BasicTestScene`].
pub struct SceneView {
    pub entities: Seq<Entity>,
    pub text: Seq<char>,
    pub frame: usize,
    pub quit_flag: bool,
}

impl View for BasicTestScene {
    type V = SceneView;

    closed spec fn view(&self) -> SceneView {
        SceneView {
            entities: self.entities@,
            text: self.text@,
            frame: self.frame,
            quit_flag: self.quit_flag,
        }
    }
}

/// The handles of `count` entities that a world gave out one after another,
/// the first of them at `base`.
pub open spec fn handles_from(base: int, count: int) -> Seq<Entity> {
    Seq::new(count as nat, |i: int| Entity { index: (base + i) as usize })
}

fn decode_scene_description(payload: &JsonValue) -> (r: Result<
    (Vec<String>, &JsonValue),
    DecodeError,
>)
    ensures
        match r {
            Ok(found) => scene_description(payload@) == Ok::<
                (Seq<Seq<char>>, JsonView),
                DecodeError,
            >((texts(found.0@), found.1@)),
            Err(e) => scene_description(payload@) == Err::<(Seq<Seq<char>>, JsonView), DecodeError>(
                e,
            ),
        },
{
    let paths = decode_text_list(field(payload, "entity_paths", 0, 2)?)?;
    let values = field(payload, "scene_values", 1, 2)?;
    Ok((paths, values))
}

/// Whether the entity files are at the paths of the list, in its order.
fn paths_match(paths: &Vec<String>, files: &Vec<EntityFile>) -> (same: bool)
    ensures
        same == (file_paths(entity_file_views(files@)) == texts(paths@)),
{
    let ghost wanted = texts(paths@);
    let ghost found = file_paths(entity_file_views(files@));
    if paths.len() != files.len() {
        assert(found.len() != wanted.len());
        return false;
    }
    let mut i: usize = 0;
    while i < paths.len()
        invariant
            i <= paths.len(),
            paths@.len() == files@.len(),
            wanted == texts(paths@),
            found == file_paths(entity_file_views(files@)),
            forall|j: int| 0 <= j < i ==> found[j] == wanted[j],
        decreases paths.len() - i,
    {
        if !(files[i].path == paths[i]) {
            assert(found[i as int] != wanted[i as int]);
            return false;
        }
        i += 1;
    }
    assert(found =~= wanted);
    true
}

/// The paths of the entity files, in order.
fn paths_of(files: &Vec<EntityFile>) -> (paths: Vec<String>)
    ensures
        texts(paths@) == file_paths(entity_file_views(files@)),
{
    let mut paths: Vec<String> = Vec::new();
    let mut i: usize = 0;
    while i < files.len()
        invariant
            i <= files.len(),
            paths@.len() == i,
            forall|j: int| 0 <= j < i ==> (#[trigger] paths@[j])@ == files@[j].path@,
        decreases files.len() - i,
    {
        paths.push(files[i].path.clone());
        i += 1;
    }
    assert(texts(paths@) =~= file_paths(entity_file_views(files@)));
    paths
}

fn decode_scene_values(values: &JsonValue) -> (r: Result<(String, usize, bool), DecodeError>)
    ensures
        match r {
            Ok(fields) => scene_values(values@) == Ok::<SceneValues, DecodeError>(
                SceneValues { text: fields.0@, frame: fields.1, quit_flag: fields.2 },
            ),
            Err(e) => scene_values(values@) == Err::<SceneValues, DecodeError>(e),
        },
{
    let text = decode_text(field(values, "text", 0, 3)?)?;
    let frame = decode_usize(field(values, "frame", 1, 3)?)?;
    let quit_flag = decode_bool(field(values, "quit_flag", 2, 3)?)?;
    Ok((text, frame, quit_flag))
}

impl BasicTestSceneLoader {
    /// Builds the scene: decodes its description and its own fields, builds
    /// the entities that `entity_files` describe, and only then makes the
    /// scene. The files must be those at the paths that the scene names, in
    /// the order in which it names them. A payload that does not decode, or
    /// files at other paths, leave the world as it was. An entity file that
    /// fails ends the loading with its failure; the entities built before it
    /// stay in the world.
    pub fn load_scene(&self, world: &mut World, entity_files: Vec<EntityFile>) -> (r: Result<
        BasicTestScene,
        TestGlobalError,
    >)
        ensures
            match scene_check(self.envelope().actual_value, entity_file_views(entity_files@)) {
                Err(failure) => r matches Err(e) && e@ == failure && final(world)@ == old(world)@,
                Ok(fields) => {
                    &&& final(world)@ == (WorldView {
                        entities: old(world)@.entities + built_prefix(
                            entity_file_views(entity_files@),
                        ),
                        ..old(world)@
                    })
                    &&& match try_map(entity_file_views(entity_files@), entity_assembler()) {
                        Err(failure) => r matches Err(e) && e@ == failure,
                        Ok(lists) => r matches Ok(scene) && scene@ == (SceneView {
                            entities: handles_from(
                                old(world)@.entities.len() as int,
                                entity_files@.len() as int,
                            ),
                            text: fields.text,
                            frame: fields.frame,
                            quit_flag: fields.quit_flag,
                        }),
                    }
                },
            },
    {
        let (paths, values) = match decode_scene_description(&self.scene_json.actual_value) {
            Ok(found) => found,
            Err(cause) => {
                assert(old(world)@.entities + Seq::<Seq<crate::components::ComponentView>>::empty()
                    =~= old(world)@.entities);
                return Err(
                    TestGlobalError::ConvertJSONError {
                        value: self.scene_json.actual_value.clone(),
                        into_type: String::from_str("SceneLoaderJSON"),
                        source: cause,
                    },
                );
            },
        };
        let (text, frame, quit_flag) = match decode_scene_values(values) {
            Ok(fields) => fields,
            Err(cause) => {
                return Err(
                    TestGlobalError::ConvertJSONError {
                        value: values.clone(),
                        into_type: String::from_str("BasicTestSceneJSON"),
                        source: cause,
                    },
                );
            },
        };
        if !paths_match(&paths, &entity_files) {
            return Err(
                TestGlobalError::EntityPathMismatch {
                    expected_paths: paths,
                    actual_paths: paths_of(&entity_files),
                },
            );
        }
        let ghost base = world@.entities.len() as int;
        let entities = load_entity_vec(world, entity_files)?;
        assert(entities@ =~= handles_from(base, entity_files@.len() as int));
        Ok(BasicTestScene { entities, text, frame, quit_flag })
    }
}

impl BasicTestScene {
    /// One tick: the frame count goes up by one and the scene stays on the stack.
    pub fn update(&mut self) -> (r: Result<SceneTransition, TestGlobalError>)
        requires
            old(self)@.frame < usize::MAX,
        ensures
            r == Ok::<SceneTransition, TestGlobalError>(SceneTransition::NONE),
            final(self)@ == (SceneView { frame: (old(self)@.frame + 1) as usize, ..old(self)@ }),
    {
        self.frame = self.frame + 1;
        Ok(SceneTransition::NONE)
    }

    /// What is to be done when a frame is drawn: the number of frames is
    /// reported at every sixtieth frame, and the basic components are printed
    /// at the last frame.
    pub fn draw(&self) -> (r: Result<DrawPlan, TestGlobalError>)
        ensures
            r == Ok::<DrawPlan, TestGlobalError>(
                DrawPlan {
                    report_frames: self@.frame % 60 == 0,
                    print_components: self@.frame == LAST_FRAME,
                },
            ),
    {
        Ok(DrawPlan { report_frames: self.frame % 60 == 0, print_components: self.frame == LAST_FRAME })
    }

    /// Takes the input of a tick: the scene is to quit exactly if `Q` was pressed.
    pub fn interact(&mut self, input: &TestCustomInput) -> (r: Result<(), TestGlobalError>)
        ensures
            r is Ok,
            final(self)@ == (SceneView {
                quit_flag: input.keys_pressed@.contains(KEY_Q),
                ..old(self)@
            }),
    {
        broadcast use vstd::std_specs::hash::group_hash_axioms;

        self.quit_flag = input.keys_pressed.contains(&KEY_Q);
        Ok(())
    }

    pub fn get_name(&self) -> (name: String)
        ensures
            name@ == "BASIC TEST SCENE"@,
    {
        String::from_str("BASIC TEST SCENE")
    }

    /// Whether the scene is done. Asking does not change the scene.
    pub fn is_finished(&self) -> (r: Result<bool, TestGlobalError>)
        ensures
            r == Ok::<bool, TestGlobalError>(self@.quit_flag),
    {
        Ok(self.quit_flag)
    }

    /// The entities of the scene, in the order of the files that described them.
    pub fn entities(&self) -> (entities: &Vec<Entity>)
        ensures
            entities@ == self@.entities,
    {
        &self.entities
    }

    pub fn text(&self) -> (text: &String)
        ensures
            text@ == self@.text,
    {
        &self.text
    }

    pub fn frame(&self) -> (frame: usize)
        ensures
            frame == self@.frame,
    {
        self.frame
    }
}

} // verus!

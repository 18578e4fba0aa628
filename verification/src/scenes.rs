pub mod basic_test_scene;

use crate::components::ComponentView;
use crate::globals::{ErrorView, TestGlobalError};
use crate::load::{
    built_prefix, entity_assembler, entity_file_views, EntityFile, EntityFileView, JSONLoad,
    JSONLoadView,
};
use crate::scenes::basic_test_scene::{
    handles_from, scene_check, BasicTestScene, BasicTestSceneLoader, SceneView,
    BASIC_TEST_SCENE_FILE_ID,
};
use crate::sequence::try_map;
use crate::world::{World, WorldView};
use vstd::prelude::*;
use vstd::string::*;

verus! {

pub const SCENES_DIR: &'static str = "scenes/";

pub const SCENE_STACKS_DIR: &'static str = "scene_stacks/";

/// Any scene loader that the scene registry can hand out.
#[derive(Debug)]
pub enum SceneLoader {
    BasicTest(BasicTestSceneLoader),
}

/// Any scene that a scene stack can hold.
#[derive(Debug)]
pub enum Scene {
    BasicTest(BasicTestScene),
}

impl View for Scene {
    type V = SceneView;

    open spec fn view(&self) -> SceneView {
        match self {
            Scene::BasicTest(scene) => scene@,
        }
    }
}

impl SceneLoader {
    /// The envelope that the loader holds.
    pub open spec fn envelope(&self) -> JSONLoadView {
        match self {
            SceneLoader::BasicTest(loader) => loader.envelope(),
        }
    }
}

/// The type ids that the scene registry knows.
pub open spec fn known_scene_ids() -> Seq<Seq<char>> {
    seq![BASIC_TEST_SCENE_FILE_ID@]
}

/// The scene registry: hands out the loader for the scene whose type id the
/// envelope carries. An id that the registry does not know is refused, and
/// the refusal names it.
pub fn scene_factory(json: JSONLoad) -> (r: Result<SceneLoader, TestGlobalError>)
    ensures
        r is Ok <==> known_scene_ids().contains(json.load_type_id@),
        r matches Ok(loader) ==> loader.envelope() == json@,
        r matches Err(e) ==> e@ == (ErrorView::UnknownTypeId {
            actual_id: json.load_type_id@,
            known_ids: known_scene_ids(),
        }),
{
    assert(known_scene_ids()[0] == BASIC_TEST_SCENE_FILE_ID@);
    if crate::components::is_text(&json.load_type_id, BASIC_TEST_SCENE_FILE_ID) {
        match BasicTestSceneLoader::new(json) {
            Ok(loader) => Ok(SceneLoader::BasicTest(loader)),
            Err(e) => Err(e),
        }
    } else {
        let mut known_ids: Vec<String> = Vec::new();
        known_ids.push(String::from_str(BASIC_TEST_SCENE_FILE_ID));
        assert(crate::globals::texts(known_ids@) =~= known_scene_ids());
        Err(TestGlobalError::UnknownTypeId { actual_id: json.load_type_id, known_ids })
    }
}

/// The description of one scene: the envelope of its file, the path of that
/// file, and the entity files that the envelope names, already read.
#[derive(Debug)]
pub struct SceneFile {
    pub path: String,
    pub scene: JSONLoad,
    pub entities: Vec<EntityFile>,
}

/// The mathematical model of a [`SceneFile`].
pub struct SceneFileView {
    pub path: Seq<char>,
    pub scene: JSONLoadView,
    pub entities: Seq<EntityFileView>,
}

impl View for SceneFile {
    type V = SceneFileView;

    open spec fn view(&self) -> SceneFileView {
        SceneFileView {
            path: self.path@,
            scene: self.scene@,
            entities: entity_file_views(self.entities@),
        }
    }
}

/// The scene files of a list, each as its model.
pub open spec fn scene_file_views(files: Seq<SceneFile>) -> Seq<SceneFileView> {
    Seq::new(files.len(), |i: int| files[i]@)
}

/// What loading one scene comes to.
pub struct SceneOutcome {
    /// The scene, or the failure, which names the scene file.
    pub scene: Result<SceneView, ErrorView>,
    /// The entities that the loading added to the world.
    pub added: Seq<Seq<ComponentView>>,
}

/// What loading the scene of `file` comes to in a world that holds `base`
/// entities already.
pub open spec fn scene_outcome(file: SceneFileView, base: int) -> SceneOutcome {
    if !known_scene_ids().contains(file.scene.load_type_id) {
        SceneOutcome {
            scene: Err(
                ErrorView::JSONLoadError {
                    file_path: file.path,
                    source: Box::new(
                        ErrorView::UnknownTypeId {
                            actual_id: file.scene.load_type_id,
                            known_ids: known_scene_ids(),
                        },
                    ),
                },
            ),
            added: Seq::empty(),
        }
    } else {
        match scene_check(file.scene.actual_value, file.entities) {
            Err(failure) => SceneOutcome {
                scene: Err(
                    ErrorView::JSONLoadError { file_path: file.path, source: Box::new(failure) },
                ),
                added: Seq::empty(),
            },
            Ok(fields) => SceneOutcome {
                scene: match try_map(file.entities, entity_assembler()) {
                    Err(failure) => Err(
                        ErrorView::JSONLoadError {
                            file_path: file.path,
                            source: Box::new(failure),
                        },
                    ),
                    Ok(_) => Ok(
                        SceneView {
                            entities: handles_from(base, file.entities.len() as int),
                            text: fields.text,
                            frame: fields.frame,
                            quit_flag: fields.quit_flag,
                        },
                    ),
                },
                added: built_prefix(file.entities),
            },
        }
    }
}

/// Loads the scene that `file` describes: the scene registry picks the
/// loader by the envelope's tag, and the loader builds the entities and then
/// the scene.
pub fn load_scene_file(world: &mut World, file: SceneFile) -> (r: Result<Scene, TestGlobalError>)
    ensures
        final(world)@ == (WorldView {
            entities: old(world)@.entities + scene_outcome(
                file@,
                old(world)@.entities.len() as int,
            ).added,
            ..old(world)@
        }),
        match scene_outcome(file@, old(world)@.entities.len() as int).scene {
            Ok(scene) => r matches Ok(loaded) && loaded@ == scene,
            Err(failure) => r matches Err(e) && e@ == failure,
        },
{
    let SceneFile { path, scene, entities } = file;
    assert(old(world)@.entities + Seq::<Seq<ComponentView>>::empty() =~= old(world)@.entities);
    let loader = match scene_factory(scene) {
        Ok(loader) => loader,
        Err(cause) => {
            return Err(TestGlobalError::JSONLoadError { file_path: path, source: Box::new(cause) });
        },
    };
    match loader {
        SceneLoader::BasicTest(loader) => match loader.load_scene(world, entities) {
            Ok(loaded) => Ok(Scene::BasicTest(loaded)),
            Err(cause) => Err(
                TestGlobalError::JSONLoadError { file_path: path, source: Box::new(cause) },
            ),
        },
    }
}

/// The scenes of a running game, the first loaded at the bottom.
#[derive(Debug)]
pub struct SceneStack {
    pub scenes: Vec<Scene>,
}

/// The scenes of a list, each as its model.
pub open spec fn scene_views(scenes: Seq<Scene>) -> Seq<SceneView> {
    Seq::new(scenes.len(), |i: int| scenes[i]@)
}

/// What loading a list of scenes comes to.
pub struct StackOutcome {
    /// The scenes that were loaded, in the order of the list.
    pub scenes: Seq<SceneView>,
    /// The entities that the loading added to the world.
    pub added: Seq<Seq<ComponentView>>,
    /// The failure of the first scene that failed, if one did.
    pub failure: Option<ErrorView>,
}

/// What loading the scenes of `files`, one after the other, comes to in a
/// world that holds `base` entities already. The first scene that fails ends
/// the loading.
pub open spec fn stack_outcome(files: Seq<SceneFileView>, base: int) -> StackOutcome
    decreases files.len(),
{
    if files.len() == 0 {
        StackOutcome { scenes: Seq::empty(), added: Seq::empty(), failure: None }
    } else {
        let earlier = stack_outcome(files.drop_last(), base);
        if earlier.failure is Some {
            earlier
        } else {
            let one = scene_outcome(files.last(), base + earlier.added.len());
            StackOutcome {
                scenes: match one.scene {
                    Ok(scene) => earlier.scenes.push(scene),
                    Err(_) => earlier.scenes,
                },
                added: earlier.added + one.added,
                failure: match one.scene {
                    Ok(_) => None,
                    Err(failure) => Some(failure),
                },
            }
        }
    }
}

/// Once a scene has failed, the scenes after it change nothing.
pub proof fn lemma_stack_stops(files: Seq<SceneFileView>, base: int, n: int)
    requires
        0 <= n <= files.len(),
        stack_outcome(files.take(n), base).failure is Some,
    ensures
        stack_outcome(files, base) == stack_outcome(files.take(n), base),
    decreases files.len() - n,
{
    if n == files.len() {
        assert(files.take(n) =~= files);
    } else {
        assert(files.take(n + 1).drop_last() =~= files.take(n));
        lemma_stack_stops(files, base, n + 1);
    }
}

/// Loads the scenes that `files` describe, in the order of the list, and
/// stacks them. The first scene that fails ends the loading with its failure.
pub fn load_scene_stack(world: &mut World, files: Vec<SceneFile>) -> (r: Result<
    SceneStack,
    TestGlobalError,
>)
    ensures
        final(world)@ == (WorldView {
            entities: old(world)@.entities + stack_outcome(
                scene_file_views(files@),
                old(world)@.entities.len() as int,
            ).added,
            ..old(world)@
        }),
        match stack_outcome(scene_file_views(files@), old(world)@.entities.len() as int).failure {
            None => r matches Ok(stack) && scene_views(stack.scenes@) == stack_outcome(
                scene_file_views(files@),
                old(world)@.entities.len() as int,
            ).scenes,
            Some(failure) => r matches Err(e) && e@ == failure,
        },
{
    let ghost views = scene_file_views(files@);
    let ghost base = world@.entities.len() as int;
    let mut scenes: Vec<Scene> = Vec::new();
    assert(views.take(0) =~= Seq::<SceneFileView>::empty());
    assert(scene_views(scenes@) =~= Seq::<SceneView>::empty());
    assert(old(world)@.entities + Seq::<Seq<ComponentView>>::empty() =~= old(world)@.entities);
    for file in it: files
        invariant
            views == scene_file_views(it.seq()),
            it.seq() == files@,
            base == old(world)@.entities.len(),
            stack_outcome(views.take(it.index() as int), base).failure is None,
            stack_outcome(views.take(it.index() as int), base).scenes == scene_views(scenes@),
            world@ == (WorldView {
                entities: old(world)@.entities + stack_outcome(
                    views.take(it.index() as int),
                    base,
                ).added,
                ..old(world)@
            }),
    {
        let ghost n = it.index() as int;
        let ghost earlier = stack_outcome(views.take(n), base);
        let ghost before = scenes@;
        proof {
            assert(views.take(n + 1).drop_last() =~= views.take(n));
            assert(views.take(n + 1).last() == views[n]);
            let one = scene_outcome(views[n], base + earlier.added.len());
            assert(old(world)@.entities + (earlier.added + one.added) =~= (old(world)@.entities
                + earlier.added) + one.added);
        }
        match load_scene_file(world, file) {
            Ok(scene) => {
                scenes.push(scene);
                assert(scene_views(scenes@) =~= scene_views(before).push(scene@));
            },
            Err(e) => {
                proof {
                    lemma_stack_stops(views, base, n + 1);
                }
                return Err(e);
            },
        }
    }
    proof {
        assert(views.take(views.len() as int) =~= views);
    }
    Ok(SceneStack { scenes })
}

} // verus!

use crate::components::ComponentKind;
use crate::globals::{ErrorView, Subsystem, TestGlobalError, JSON_ASSETS_DIR, JSON_FILE, LOAD_PATH};
use crate::scenes::{SceneStack, SCENE_STACKS_DIR};
use crate::world::{
    catalog_view, AudioController, FontDict, ImageDict, Resources, ResourcesView, World, WorldView,
};
use vstd::prelude::*;
use vstd::string::*;

verus! {

/// The name of the scene stack that the game starts with.
pub const START_SCENE_STACK: &'static str = "basic_test_scene_stack";

/// The game: what it registers, where its files are, and how its start-up
/// loads are joined.
#[derive(Debug)]
pub struct BasicTestGameWrapper {}

/// The kinds of component whose storage the game registers.
pub open spec fn game_kinds() -> Set<ComponentKind> {
    set![
        ComponentKind::Boolean,
        ComponentKind::Number,
        ComponentKind::Text,
        ComponentKind::Vector,
        ComponentKind::Mapping,
    ]
}

/// The failure of the first of the four loads that failed, in the order font
/// catalog, image catalog, audio controller, scene stack; nothing where all
/// four went well.
pub open spec fn first_failure(
    font_dict: Option<ErrorView>,
    image_dict: Option<ErrorView>,
    audio_controller: Option<ErrorView>,
    scene_stack: Option<ErrorView>,
) -> Option<ErrorView> {
    match font_dict {
        Some(source) => Some(
            ErrorView::SubsystemLoadError {
                subsystem: Subsystem::FontCatalog,
                source: Box::new(source),
            },
        ),
        None => match image_dict {
            Some(source) => Some(
                ErrorView::SubsystemLoadError {
                    subsystem: Subsystem::ImageCatalog,
                    source: Box::new(source),
                },
            ),
            None => match audio_controller {
                Some(source) => Some(
                    ErrorView::SubsystemLoadError {
                        subsystem: Subsystem::AudioController,
                        source: Box::new(source),
                    },
                ),
                None => match scene_stack {
                    Some(source) => Some(
                        ErrorView::SubsystemLoadError {
                            subsystem: Subsystem::SceneStack,
                            source: Box::new(source),
                        },
                    ),
                    None => None,
                },
            },
        },
    }
}

/// The failure of a load, if it failed.
pub open spec fn failure_of<T>(outcome: Result<T, TestGlobalError>) -> Option<ErrorView> {
    match outcome {
        Ok(_) => None,
        Err(e) => Some(e@),
    }
}

impl BasicTestGameWrapper {
    /// Registers the storage of every kind of component that the game's
    /// registry can hand out a loader for.
    pub fn register_components(ecs: &mut World)
        ensures
            final(ecs)@ == (WorldView {
                registered: old(ecs)@.registered.union(game_kinds()),
                ..old(ecs)@
            }),
    {
        ecs.register(ComponentKind::Boolean);
        ecs.register(ComponentKind::Number);
        ecs.register(ComponentKind::Text);
        ecs.register(ComponentKind::Vector);
        ecs.register(ComponentKind::Mapping);
        assert(ecs@.registered =~= old(ecs)@.registered.union(game_kinds()));
    }

    /// The path of the JSON asset `name` in `directory`, which is empty or
    /// ends in a slash.
    pub fn asset_path(directory: &str, name: &str) -> (path: String)
        ensures
            path@ == LOAD_PATH@ + JSON_ASSETS_DIR@ + directory@ + name@ + JSON_FILE@,
    {
        let mut path = String::from_str(LOAD_PATH);
        path.append(JSON_ASSETS_DIR);
        path.append(directory);
        path.append(name);
        path.append(JSON_FILE);
        path
    }

    /// The path of the file that lists the scenes the game starts with.
    pub fn scene_stack_path() -> (path: String)
        ensures
            path@ == LOAD_PATH@ + JSON_ASSETS_DIR@ + SCENE_STACKS_DIR@ + START_SCENE_STACK@
                + JSON_FILE@,
    {
        Self::asset_path(SCENE_STACKS_DIR, START_SCENE_STACK)
    }

    /// Joins the four start-up loads. Where all of them went well, the three
    /// singleton resources are published in the world in one step and the
    /// scene stack is handed on. Where any of them failed, the world stays as
    /// it was, with none of the resources in it, and the failure names the
    /// first load that failed.
    pub fn load(
        world: &mut World,
        font_dict: Result<FontDict, TestGlobalError>,
        image_dict: Result<ImageDict, TestGlobalError>,
        audio_controller: Result<AudioController, TestGlobalError>,
        scene_stack: Result<SceneStack, TestGlobalError>,
    ) -> (r: Result<SceneStack, TestGlobalError>)
        ensures
            match first_failure(
                failure_of(font_dict),
                failure_of(image_dict),
                failure_of(audio_controller),
                failure_of(scene_stack),
            ) {
                Some(failure) => r matches Err(e) && e@ == failure && *final(world) == *old(
                    world,
                ),
                None => r == scene_stack && final(world)@ == (WorldView {
                    resources: Some(
                        ResourcesView {
                            fonts: catalog_view(font_dict->Ok_0.fonts@),
                            images: catalog_view(image_dict->Ok_0.images@),
                            audio: audio_controller->Ok_0.handle,
                        },
                    ),
                    ..old(world)@
                }),
            },
    {
        let font_dict = match font_dict {
            Ok(loaded) => loaded,
            Err(source) => {
                return Err(
                    TestGlobalError::SubsystemLoadError {
                        subsystem: Subsystem::FontCatalog,
                        source: Box::new(source),
                    },
                );
            },
        };
        let image_dict = match image_dict {
            Ok(loaded) => loaded,
            Err(source) => {
                return Err(
                    TestGlobalError::SubsystemLoadError {
                        subsystem: Subsystem::ImageCatalog,
                        source: Box::new(source),
                    },
                );
            },
        };
        let audio_controller = match audio_controller {
            Ok(loaded) => loaded,
            Err(source) => {
                return Err(
                    TestGlobalError::SubsystemLoadError {
                        subsystem: Subsystem::AudioController,
                        source: Box::new(source),
                    },
                );
            },
        };
        let scene_stack = match scene_stack {
            Ok(loaded) => loaded,
            Err(source) => {
                return Err(
                    TestGlobalError::SubsystemLoadError {
                        subsystem: Subsystem::SceneStack,
                        source: Box::new(source),
                    },
                );
            },
        };
        world.insert_resources(Resources { font_dict, image_dict, audio_controller });
        Ok(scene_stack)
    }
}

} // verus!

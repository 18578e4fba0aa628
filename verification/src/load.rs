use crate::components::{
    attached, conversion_failure, target_name_of, BasicTestComponentMux, ComponentView,
};
use crate::globals::{ErrorView, TestGlobalError};
use crate::sequence::{lemma_take_all, lemma_try_map_prefix_fails, lemma_try_map_step, try_map};
use crate::value::{JsonValue, JsonView};
use crate::world::{attach_all, Entity, EntityBuilder, World, WorldView};
use vstd::prelude::*;

verus! {

/// A tagged load envelope: a type id and the payload it gives meaning to.
/// It is the unit that registries dispatch on.
#[derive(Debug, PartialEq, Eq)]
pub struct JSONLoad {
    pub load_type_id: String,
    pub actual_value: JsonValue,
}

/// The mathematical model of a [`JSONLoad`].
pub struct JSONLoadView {
    pub load_type_id: Seq<char>,
    pub actual_value: JsonView,
}

impl View for JSONLoad {
    type V = JSONLoadView;

    open spec fn view(&self) -> JSONLoadView {
        JSONLoadView { load_type_id: self.load_type_id@, actual_value: self.actual_value@ }
    }
}

impl Clone for JSONLoad {
    fn clone(&self) -> (copy: JSONLoad)
        ensures
            copy@ == self@,
    {
        JSONLoad {
            load_type_id: self.load_type_id.clone(),
            actual_value: self.actual_value.clone(),
        }
    }
}

/// The description of one entity: the envelopes of its components, in the
/// order in which they are to be attached, and the path of the file they
/// were read from.
#[derive(Debug)]
pub struct EntityFile {
    pub path: String,
    pub components: Vec<JSONLoad>,
}

/// The mathematical model of an [`EntityFile`].
pub struct EntityFileView {
    pub path: Seq<char>,
    pub components: Seq<JSONLoadView>,
}

/// The envelopes of a list, each as its model.
pub open spec fn envelope_views(envelopes: Seq<JSONLoad>) -> Seq<JSONLoadView> {
    Seq::new(envelopes.len(), |i: int| envelopes[i]@)
}

impl View for EntityFile {
    type V = EntityFileView;

    open spec fn view(&self) -> EntityFileView {
        EntityFileView { path: self.path@, components: envelope_views(self.components@) }
    }
}

/// The entity files of a list, each as its model.
pub open spec fn entity_file_views(files: Seq<EntityFile>) -> Seq<EntityFileView> {
    Seq::new(files.len(), |i: int| files[i]@)
}

/// What the registry and the loader it hands out make of one envelope: the
/// component that is attached, or the failure. An id that the registry does
/// not know is refused before the payload is looked at; a payload that does
/// not decode is refused when the loader is made.
pub open spec fn component_of(json: JSONLoadView) -> Result<ComponentView, ErrorView> {
    if !BasicTestComponentMux::known_ids().contains(json.load_type_id) {
        Err(
            ErrorView::UnknownTypeId {
                actual_id: json.load_type_id,
                known_ids: BasicTestComponentMux::known_ids(),
            },
        )
    } else {
        match attached(json.load_type_id, json.actual_value) {
            Ok(component) => Ok(component),
            Err(cause) => Err(
                conversion_failure(json.actual_value, target_name_of(json.load_type_id), cause),
            ),
        }
    }
}

/// [`component_of`] as a function value.
pub open spec fn component_decoder() -> spec_fn(JSONLoadView) -> Result<ComponentView, ErrorView> {
    |json: JSONLoadView| component_of(json)
}

/// The components of the entity that a file describes: those that its
/// envelopes decode to, attached one after the other in the order of the
/// file. The first envelope that fails decides the failure, which names the
/// file.
pub open spec fn assembled(file: EntityFileView) -> Result<Seq<ComponentView>, ErrorView> {
    match try_map(file.components, component_decoder()) {
        Ok(components) => Ok(attach_all(components)),
        Err(cause) => Err(ErrorView::JSONLoadError { file_path: file.path, source: Box::new(cause) }),
    }
}

/// [`assembled`] as a function value.
pub open spec fn entity_assembler() -> spec_fn(EntityFileView) -> Result<
    Seq<ComponentView>,
    ErrorView,
> {
    |file: EntityFileView| assembled(file)
}

/// The entities of the files that come before the first file that fails: of
/// all the files, where none fails.
pub open spec fn built_prefix(files: Seq<EntityFileView>) -> Seq<Seq<ComponentView>>
    decreases files.len(),
{
    if files.len() == 0 {
        Seq::empty()
    } else {
        match assembled(files[0]) {
            Err(_) => Seq::empty(),
            Ok(components) => seq![components] + built_prefix(files.drop_first()),
        }
    }
}

/// Builds the entity that `file` describes: each envelope is resolved by the
/// registry and its component attached, in the order of the file, and the
/// entity is finalized. Where an envelope fails, no entity is made and the
/// world stays as it was.
pub fn load_entity(world: &mut World, file: EntityFile) -> (r: Result<Entity, TestGlobalError>)
    ensures
        match assembled(file@) {
            Ok(components) => r matches Ok(entity) && entity.index == old(world)@.entities.len()
                && final(world)@ == (WorldView {
                entities: old(world)@.entities.push(components),
                ..old(world)@
            }),
            Err(failure) => r matches Err(e) && e@ == failure && final(world)@ == old(world)@,
        },
{
    let EntityFile { path, components } = file;
    let ghost envelopes = envelope_views(components@);
    let ghost mut decoded: Seq<ComponentView> = Seq::empty();
    let mut builder = EntityBuilder::new();
    assert(envelopes.take(0) =~= Seq::<JSONLoadView>::empty());
    for json in it: components
        invariant
            envelopes == envelope_views(it.seq()),
            file@ == (EntityFileView { path: path@, components: envelopes }),
            *world == *old(world),
            try_map(envelopes.take(it.index() as int), component_decoder()) == Ok::<
                Seq<ComponentView>,
                ErrorView,
            >(decoded),
            builder@ == attach_all(decoded),
    {
        proof {
            lemma_try_map_step(envelopes, component_decoder(), it.index() as int, decoded);
        }
        let loader = match BasicTestComponentMux::map_json_to_loader(json) {
            Ok(loader) => loader,
            Err(cause) => {
                proof {
                    lemma_try_map_prefix_fails(envelopes, component_decoder(), it.index() + 1);
                }
                return Err(TestGlobalError::JSONLoadError { file_path: path, source: Box::new(cause) });
            },
        };
        builder = match loader.load_component(builder, world) {
            Ok(extended) => {
                proof {
                    let component = loader.attaches()->Ok_0;
                    let earlier = decoded;
                    decoded = decoded.push(component);
                    assert(decoded.drop_last() =~= earlier);
                }
                extended
            },
            Err(cause) => {
                proof {
                    lemma_try_map_prefix_fails(envelopes, component_decoder(), it.index() + 1);
                }
                return Err(TestGlobalError::JSONLoadError { file_path: path, source: Box::new(cause) });
            },
        };
    }
    proof {
        lemma_take_all(envelopes);
    }
    Ok(builder.build(world))
}

/// The entities of leading files that all go well are the start of what
/// `built_prefix` builds.
pub proof fn lemma_built_prefix(files: Seq<EntityFileView>, lists: Seq<Seq<ComponentView>>)
    requires
        lists.len() <= files.len(),
        forall|i: int|
            0 <= i < lists.len() ==> assembled(#[trigger] files[i]) == Ok::<
                Seq<ComponentView>,
                ErrorView,
            >(lists[i]),
    ensures
        built_prefix(files) == lists + built_prefix(files.skip(lists.len() as int)),
    decreases lists.len(),
{
    if lists.len() == 0 {
        assert(files.skip(0) =~= files);
        assert(lists + built_prefix(files) =~= built_prefix(files));
    } else {
        let rest = files.drop_first();
        let tail = lists.drop_first();
        assert forall|i: int| 0 <= i < tail.len() implies assembled(#[trigger] rest[i]) == Ok::<
            Seq<ComponentView>,
            ErrorView,
        >(tail[i]) by {
            assert(rest[i] == files[i + 1]);
        }
        lemma_built_prefix(rest, tail);
        assert(rest.skip(tail.len() as int) =~= files.skip(lists.len() as int));
        assert(assembled(files[0]) == Ok::<Seq<ComponentView>, ErrorView>(lists[0]));
        assert(seq![lists[0]] + (tail + built_prefix(rest.skip(tail.len() as int))) =~= lists
            + built_prefix(files.skip(lists.len() as int)));
    }
}

/// Builds the entities that `files` describe, in the order of the list. The
/// handles come back in that order. The first file that fails ends the run
/// with its failure: the entities of the files before it stay in the world as
/// they were built, the failing file adds nothing, and the files after it are
/// not looked at.
pub fn load_entity_vec(world: &mut World, files: Vec<EntityFile>) -> (r: Result<
    Vec<Entity>,
    TestGlobalError,
>)
    ensures
        final(world)@ == (WorldView {
            entities: old(world)@.entities + built_prefix(entity_file_views(files@)),
            ..old(world)@
        }),
        match try_map(entity_file_views(files@), entity_assembler()) {
            Ok(lists) => r matches Ok(entities) && entities@.len() == files@.len()
                && built_prefix(entity_file_views(files@)) == lists && forall|i: int|
                0 <= i < entities@.len() ==> (#[trigger] entities@[i]).index == old(
                    world,
                )@.entities.len() + i,
            Err(failure) => r matches Err(e) && e@ == failure,
        },
{
    let ghost views = entity_file_views(files@);
    let ghost mut lists: Seq<Seq<ComponentView>> = Seq::empty();
    let mut entities: Vec<Entity> = Vec::new();
    assert(views.take(0) =~= Seq::<EntityFileView>::empty());
    assert(old(world)@.entities + lists =~= old(world)@.entities);
    for file in it: files
        invariant
            views == entity_file_views(it.seq()),
            it.seq() == files@,
            try_map(views.take(it.index() as int), entity_assembler()) == Ok::<
                Seq<Seq<ComponentView>>,
                ErrorView,
            >(lists),
            lists.len() == it.index(),
            world@ == (WorldView { entities: old(world)@.entities + lists, ..old(world)@ }),
            entities@.len() == it.index(),
            forall|i: int|
                0 <= i < entities@.len() ==> (#[trigger] entities@[i]).index == old(
                    world,
                )@.entities.len() + i,
    {
        let ghost n = it.index() as int;
        proof {
            lemma_try_map_step(views, entity_assembler(), n, lists);
            crate::sequence::lemma_try_map_ok(views.take(n), entity_assembler());
            assert forall|i: int| 0 <= i < lists.len() implies assembled(#[trigger] views[i])
                == Ok::<Seq<ComponentView>, ErrorView>(lists[i]) by {
                assert(views.take(n)[i] == views[i]);
            }
            lemma_built_prefix(views, lists);
            assert(views.skip(n)[0] == views[n]);
        }
        match load_entity(world, file) {
            Ok(entity) => {
                proof {
                    let components = assembled(views[n])->Ok_0;
                    assert(old(world)@.entities + lists.push(components) =~= (old(
                        world,
                    )@.entities + lists).push(components));
                    lists = lists.push(components);
                }
                entities.push(entity);
            },
            Err(e) => {
                proof {
                    lemma_try_map_prefix_fails(views, entity_assembler(), n + 1);
                    assert(built_prefix(views.skip(n)) =~= Seq::<Seq<ComponentView>>::empty());
                    assert(lists + built_prefix(views.skip(n)) =~= lists);
                }
                return Err(e);
            },
        }
    }
    proof {
        lemma_take_all(views);
        crate::sequence::lemma_try_map_ok(views, entity_assembler());
        assert forall|i: int| 0 <= i < lists.len() implies assembled(#[trigger] views[i]) == Ok::<
            Seq<ComponentView>,
            ErrorView,
        >(lists[i]) by {}
        lemma_built_prefix(views, lists);
        assert(views.skip(views.len() as int) =~= Seq::<EntityFileView>::empty());
        assert(lists + built_prefix(views.skip(views.len() as int)) =~= lists);
    }
    Ok(entities)
}

} // verus!

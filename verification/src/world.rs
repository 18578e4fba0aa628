use crate::components::{Component, ComponentKind, ComponentView};
use vstd::prelude::*;
use vstd::string::*;

verus! {

/// The handle of a finalized entity: its place among the entities of a world.
#[derive(Debug, Clone, Copy, PartialEq, Eq, Structural)]
pub struct Entity {
    pub index: usize,
}

/// The handles that a collaborator gave out for the assets it loaded, by name.
/// Where a name occurs twice, the first occurrence counts.
pub type Catalog = Vec<(String, u64)>;

/// The handle filed under `name`, if there is one.
pub open spec fn handle_of(entries: Seq<(Seq<char>, u64)>, name: Seq<char>) -> Option<u64>
    decreases entries.len(),
{
    if entries.len() == 0 {
        None
    } else if entries[0].0 == name {
        Some(entries[0].1)
    } else {
        handle_of(entries.subrange(1, entries.len() as int), name)
    }
}

/// A catalog as a list of names with their handles.
pub open spec fn catalog_view(entries: Seq<(String, u64)>) -> Seq<(Seq<char>, u64)> {
    Seq::new(entries.len(), |i: int| (entries[i].0@, entries[i].1))
}

proof fn lemma_handle_found(entries: Seq<(Seq<char>, u64)>, name: Seq<char>, at: int)
    requires
        0 <= at < entries.len(),
        entries[at].0 == name,
        forall|j: int| 0 <= j < at ==> entries[j].0 != name,
    ensures
        handle_of(entries, name) == Some(entries[at].1),
    decreases entries.len(),
{
    if at > 0 {
        let rest = entries.subrange(1, entries.len() as int);
        assert forall|j: int| 0 <= j < at - 1 implies rest[j].0 != name by {
            assert(rest[j] == entries[j + 1]);
        }
        lemma_handle_found(rest, name, at - 1);
    }
}

proof fn lemma_handle_absent(entries: Seq<(Seq<char>, u64)>, name: Seq<char>)
    requires
        forall|j: int| 0 <= j < entries.len() ==> entries[j].0 != name,
    ensures
        handle_of(entries, name) is None,
    decreases entries.len(),
{
    if entries.len() > 0 {
        let rest = entries.subrange(1, entries.len() as int);
        assert forall|j: int| 0 <= j < rest.len() implies rest[j].0 != name by {
            assert(rest[j] == entries[j + 1]);
        }
        lemma_handle_absent(rest, name);
    }
}

/// Looks a handle up by name.
pub fn find_handle(entries: &Catalog, name: &str) -> (found: Option<u64>)
    ensures
        found == handle_of(catalog_view(entries@), name@),
{
    let wanted = name.to_owned();
    let ghost model = catalog_view(entries@);
    let mut i: usize = 0;
    while i < entries.len()
        invariant
            i <= entries.len(),
            wanted@ == name@,
            model == catalog_view(entries@),
            forall|j: int| 0 <= j < i ==> model[j].0 != name@,
        decreases entries.len() - i,
    {
        if entries[i].0 == wanted {
            proof {
                lemma_handle_found(model, name@, i as int);
            }
            return Some(entries[i].1);
        }
        i += 1;
    }
    proof {
        lemma_handle_absent(model, name@);
    }
    None
}

/// The fonts that were loaded at start-up.
#[derive(Debug, PartialEq, Eq)]
pub struct FontDict {
    pub fonts: Catalog,
}

/// The images that were loaded at start-up.
#[derive(Debug, PartialEq, Eq)]
pub struct ImageDict {
    pub images: Catalog,
}

/// The audio subsystem, as the handle under which the application keeps it.
#[derive(Debug, PartialEq, Eq)]
pub struct AudioController {
    pub handle: u64,
}

/// The singleton resources of a world. They are published together.
#[derive(Debug, PartialEq, Eq)]
pub struct Resources {
    pub font_dict: FontDict,
    pub image_dict: ImageDict,
    pub audio_controller: AudioController,
}

/// The mathematical model of [`Resources`].
pub struct ResourcesView {
    pub fonts: Seq<(Seq<char>, u64)>,
    pub images: Seq<(Seq<char>, u64)>,
    pub audio: u64,
}

impl View for Resources {
    type V = ResourcesView;

    open spec fn view(&self) -> ResourcesView {
        ResourcesView {
            fonts: catalog_view(self.font_dict.fonts@),
            images: catalog_view(self.image_dict.images@),
            audio: self.audio_controller.handle,
        }
    }
}

/// The components of one entity, in the order in which they were attached.
pub open spec fn component_views(components: Seq<Component>) -> Seq<ComponentView> {
    Seq::new(components.len(), |i: int| components[i]@)
}

/// Whether a component is of another kind than `kind`.
pub open spec fn of_other_kind(kind: ComponentKind) -> spec_fn(ComponentView) -> bool {
    |component: ComponentView| component.kind() != kind
}

/// The components of an entity after one more is attached. The new
/// component takes the place of an earlier one of its kind; the components
/// of other kinds stay, in their order, and the new one comes last.
pub open spec fn attach(components: Seq<ComponentView>, component: ComponentView) -> Seq<
    ComponentView,
> {
    components.filter(of_other_kind(component.kind())).push(component)
}

/// The components of an entity to which `components` were attached one
/// after the other, starting with none.
pub open spec fn attach_all(components: Seq<ComponentView>) -> Seq<ComponentView>
    decreases components.len(),
{
    if components.len() == 0 {
        Seq::empty()
    } else {
        attach(attach_all(components.drop_last()), components.last())
    }
}

/// An entity under construction: the components attached so far.
#[derive(Debug)]
pub struct EntityBuilder {
    components: Vec<Component>,
}

impl View for EntityBuilder {
    type V = Seq<ComponentView>;

    closed spec fn view(&self) -> Seq<ComponentView> {
        component_views(self.components@)
    }
}

impl EntityBuilder {
    #[verifier::type_invariant]
    spec fn carries_one_per_kind(self) -> bool {
        one_per_kind(component_views(self.components@))
    }

    /// Starts an entity that carries nothing yet.
    pub fn new() -> (builder: EntityBuilder)
        ensures
            builder@ == Seq::<ComponentView>::empty(),
    {
        let builder = EntityBuilder { components: Vec::new() };
        assert(builder@ =~= Seq::<ComponentView>::empty());
        builder
    }

    /// Attaches one more component. An entity carries one component of a
    /// kind: the new component takes the place of an earlier one of its kind,
    /// and the components of other kinds stay as they are, in their order.
    pub fn with(self, component: Component) -> (builder: EntityBuilder)
        ensures
            builder@ == attach(self@, component@),
    {
        let kind = component.kind();
        let ghost views = self@;
        let ghost keep = of_other_kind(kind);
        let mut components: Vec<Component> = Vec::new();
        proof {
            use_type_invariant(&self);
            assert(one_per_kind(views));
            reveal(Seq::filter);
            assert(views.take(0) =~= Seq::<ComponentView>::empty());
            assert(component_views(components@) =~= Seq::<ComponentView>::empty());
        }
        for earlier in it: self.components
            invariant
                views == component_views(it.seq()),
                keep == of_other_kind(kind),
                component_views(components@) == views.take(it.index() as int).filter(keep),
        {
            let ghost n = it.index() as int;
            let ghost before = components@;
            proof {
                reveal(Seq::filter);
                assert(views.take(n + 1).drop_last() =~= views.take(n));
                assert(views.take(n + 1).last() == earlier@);
            }
            if earlier.kind() != kind {
                components.push(earlier);
                assert(component_views(components@) =~= component_views(before).push(earlier@));
            }
        }
        proof {
            assert(views.take(views.len() as int) =~= views);
        }
        let ghost kept = components@;
        components.push(component);
        proof {
            lemma_filter_other_kind(views, kind);
            let all = component_views(components@);
            assert(all =~= component_views(kept).push(component@));
            assert forall|i: int, j: int| 0 <= i < j < all.len() implies (#[trigger] all[i]).kind()
                != (#[trigger] all[j]).kind() by {
                assert(all[i] == component_views(kept)[i]);
                if j < kept.len() {
                    assert(all[j] == component_views(kept)[j]);
                }
            }
        }
        let builder = EntityBuilder { components };
        assert(builder@ =~= component_views(kept).push(component@));
        builder
    }

    /// Finalizes the entity: the world takes it in, and its handle is returned.
    pub fn build(self, world: &mut World) -> (entity: Entity)
        ensures
            entity.index == old(world)@.entities.len(),
            final(world)@ == (WorldView {
                entities: old(world)@.entities.push(self@),
                ..old(world)@
            }),
    {
        let index = world.entities.len();
        let ghost before = world.entities@;
        proof {
            use_type_invariant(&self);
            use_type_invariant(&*world);
        }
        let mut entities: Vec<Vec<Component>> = Vec::new();
        std::mem::swap(&mut entities, &mut world.entities);
        entities.push(self.components);
        world.entities = entities;
        assert(entity_views(world.entities@) =~= entity_views(before).push(self@));
        Entity { index }
    }
}

/// The entities of a world, each as the components it carries.
pub open spec fn entity_views(entities: Seq<Vec<Component>>) -> Seq<Seq<ComponentView>> {
    Seq::new(entities.len(), |i: int| component_views(entities[i]@))
}

/// The shared world: the finalized entities, the component kinds whose
/// storage is registered, and the singleton resources.
#[derive(Debug)]
pub struct World {
    entities: Vec<Vec<Component>>,
    registered: Vec<ComponentKind>,
    resources: Option<Resources>,
}

/// The mathematical model of a [`World`].
pub struct WorldView {
    pub entities: Seq<Seq<ComponentView>>,
    pub registered: Set<ComponentKind>,
    pub resources: Option<ResourcesView>,
}

impl View for World {
    type V = WorldView;

    closed spec fn view(&self) -> WorldView {
        WorldView {
            entities: entity_views(self.entities@),
            registered: self.registered@.to_set(),
            resources: match self.resources {
                Some(resources) => Some(resources@),
                None => None,
            },
        }
    }
}

impl World {
    #[verifier::type_invariant]
    spec fn entities_carry_one_per_kind(self) -> bool {
        forall|i: int|
            0 <= i < self.entities@.len() ==> one_per_kind(
                component_views((#[trigger] self.entities@[i])@),
            )
    }

    /// A world with no entity, no registered storage and no resource.
    pub fn new() -> (world: World)
        ensures
            world@ == (WorldView {
                entities: Seq::empty(),
                registered: Set::empty(),
                resources: None,
            }),
    {
        let world = World { entities: Vec::new(), registered: Vec::new(), resources: None };
        assert(world@.entities =~= Seq::<Seq<ComponentView>>::empty());
        assert(world@.registered =~= Set::<ComponentKind>::empty());
        world
    }

    /// Whether the storage for `kind` is registered.
    pub fn is_registered(&self, kind: ComponentKind) -> (registered: bool)
        ensures
            registered == self@.registered.contains(kind),
    {
        let mut i: usize = 0;
        while i < self.registered.len()
            invariant
                i <= self.registered.len(),
                forall|j: int| 0 <= j < i ==> self.registered@[j] != kind,
            decreases self.registered.len() - i,
        {
            if self.registered[i] == kind {
                assert(self.registered@.contains(kind));
                return true;
            }
            i += 1;
        }
        assert(!self.registered@.contains(kind));
        false
    }

    /// Registers the storage for `kind`. Registering a kind again changes nothing.
    pub fn register(&mut self, kind: ComponentKind)
        ensures
            final(self)@ == (WorldView {
                registered: old(self)@.registered.insert(kind),
                ..old(self)@
            }),
    {
        proof {
            use_type_invariant(&*self);
        }
        if !self.is_registered(kind) {
            let ghost before = self.registered@;
            let mut registered: Vec<ComponentKind> = Vec::new();
            std::mem::swap(&mut registered, &mut self.registered);
            registered.push(kind);
            self.registered = registered;
            assert(self.registered@.to_set() =~= before.to_set().insert(kind)) by {
                assert forall|k: ComponentKind| #[trigger]
                    self.registered@.contains(k) <==> before.contains(k) || k == kind by {
                    if before.contains(k) {
                        let j = choose|j: int| 0 <= j < before.len() && before[j] == k;
                        assert(self.registered@[j] == k);
                    }
                    if k == kind {
                        assert(self.registered@[before.len() as int] == k);
                    }
                }
            }
        } else {
            assert(self@.registered.insert(kind) =~= self@.registered);
        }
    }

    /// The number of finalized entities.
    pub fn entity_count(&self) -> (count: usize)
        ensures
            count == self@.entities.len(),
    {
        self.entities.len()
    }

    /// The components that `entity` carries, no two of them of a kind, in
    /// the order in which they were attached; nothing for a handle that this
    /// world did not give out.
    pub fn components(&self, entity: Entity) -> (found: Option<&Vec<Component>>)
        ensures
            match found {
                Some(components) => entity.index < self@.entities.len() && component_views(
                    components@,
                ) == self@.entities[entity.index as int] && one_per_kind(
                    component_views(components@),
                ),
                None => entity.index >= self@.entities.len(),
            },
    {
        proof {
            use_type_invariant(self);
        }
        if entity.index < self.entities.len() {
            Some(&self.entities[entity.index])
        } else {
            None
        }
    }

    /// The singleton resources, once they are published.
    pub fn resources(&self) -> (found: Option<&Resources>)
        ensures
            match found {
                Some(resources) => self@.resources == Some(resources@),
                None => self@.resources is None,
            },
    {
        self.resources.as_ref()
    }

    /// Publishes the singleton resources, all in one step.
    pub fn insert_resources(&mut self, resources: Resources)
        ensures
            final(self)@ == (WorldView { resources: Some(resources@), ..old(self)@ }),
    {
        proof {
            use_type_invariant(&*self);
        }
        self.resources = Some(resources);
    }
}

/// The component of the given kind in a list of components: the last of
/// that kind, where the list holds several.
pub open spec fn last_of_kind(components: Seq<ComponentView>, kind: ComponentKind) -> Option<
    ComponentView,
>
    decreases components.len(),
{
    if components.len() == 0 {
        None
    } else if components.last().kind() == kind {
        Some(components.last())
    } else {
        last_of_kind(components.drop_last(), kind)
    }
}

/// Whether an entity carries a component of the given kind.
pub open spec fn carries(components: Seq<ComponentView>, kind: ComponentKind) -> bool {
    last_of_kind(components, kind) is Some
}

/// A component of a kind that nothing after it has shows through.
proof fn lemma_last_of_kind(components: Seq<ComponentView>, kind: ComponentKind, at: int)
    requires
        0 <= at <= components.len(),
        forall|j: int| at <= j < components.len() ==> components[j].kind() != kind,
    ensures
        last_of_kind(components, kind) == last_of_kind(components.take(at), kind),
    decreases components.len() - at,
{
    if at == components.len() {
        assert(components.take(at) =~= components);
    } else {
        let init = components.drop_last();
        assert forall|j: int| at <= j < init.len() implies init[j].kind() != kind by {
            assert(init[j] == components[j]);
        }
        lemma_last_of_kind(init, kind, at);
        assert(init.take(at) =~= components.take(at));
    }
}

impl World {
    /// The component of the given kind that `entity` carries, if it carries one.
    pub fn component(&self, entity: Entity, kind: ComponentKind) -> (found: Option<&Component>)
        ensures
            match found {
                Some(component) => entity.index < self@.entities.len() && last_of_kind(
                    self@.entities[entity.index as int],
                    kind,
                ) == Some(component@),
                None => entity.index >= self@.entities.len() || !carries(
                    self@.entities[entity.index as int],
                    kind,
                ),
            },
    {
        if entity.index >= self.entities.len() {
            return None;
        }
        let components = &self.entities[entity.index];
        let ghost views = component_views(components@);
        let mut i: usize = components.len();
        while i > 0
            invariant
                i <= components.len(),
                views == component_views(components@),
                entity.index < self@.entities.len(),
                views == self@.entities[entity.index as int],
                forall|j: int| i <= j < views.len() ==> views[j].kind() != kind,
            decreases i,
        {
            i -= 1;
            if components[i].kind() == kind {
                proof {
                    lemma_last_of_kind(views, kind, i + 1);
                    assert(views.take(i + 1).last() == views[i as int]);
                }
                return Some(&components[i]);
            }
        }
        proof {
            lemma_last_of_kind(views, kind, 0);
        }
        None
    }
}

/// Whether no two components of a list are of the same kind.
pub open spec fn one_per_kind(components: Seq<ComponentView>) -> bool {
    forall|i: int, j: int|
        0 <= i < j < components.len() ==> (#[trigger] components[i]).kind() != (
        #[trigger] components[j]).kind()
}

/// Leaving out the components of one kind keeps the others apart, and
/// changes nothing where no component is of that kind.
pub proof fn lemma_filter_other_kind(components: Seq<ComponentView>, kind: ComponentKind)
    ensures
        forall|i: int|
            0 <= i < components.filter(of_other_kind(kind)).len() ==> (
            #[trigger] components.filter(of_other_kind(kind))[i]).kind() != kind
                && components.contains(components.filter(of_other_kind(kind))[i]),
        one_per_kind(components) ==> one_per_kind(components.filter(of_other_kind(kind))),
        (forall|i: int| 0 <= i < components.len() ==> (#[trigger] components[i]).kind() != kind)
            ==> components.filter(of_other_kind(kind)) == components,
        forall|other: ComponentKind|
            other != kind ==> last_of_kind(components.filter(of_other_kind(kind)), other)
                == #[trigger] last_of_kind(components, other),
    decreases components.len(),
{
    reveal(Seq::filter);
    let keep = of_other_kind(kind);
    if components.len() > 0 {
        let init = components.drop_last();
        let last = components.last();
        lemma_filter_other_kind(init, kind);
        let kept = init.filter(keep);
        let all = components.filter(keep);
        assert forall|i: int| 0 <= i < all.len() implies (#[trigger] all[i]).kind() != kind
            && components.contains(all[i]) by {
            if i < kept.len() {
                assert(all[i] == kept[i]);
                assert(init.contains(kept[i]));
                let at = choose|at: int| 0 <= at < init.len() && init[at] == kept[i];
                assert(components[at] == kept[i]);
            } else {
                assert(all[i] == last);
                assert(components[components.len() - 1] == last);
            }
        }
        if one_per_kind(components) {
            assert forall|i: int, j: int| 0 <= i < j < init.len() implies (#[trigger] init[i]).kind()
                != (#[trigger] init[j]).kind() by {
                assert(init[i] == components[i] && init[j] == components[j]);
            }
            assert forall|i: int, j: int| 0 <= i < j < all.len() implies (#[trigger] all[i]).kind()
                != (#[trigger] all[j]).kind() by {
                assert(all[i] == kept[i]);
                if j < kept.len() {
                    assert(all[j] == kept[j]);
                } else {
                    assert(all[j] == last);
                    assert(init.contains(kept[i]));
                    let at = choose|at: int| 0 <= at < init.len() && init[at] == kept[i];
                    assert(components[at].kind() != components[components.len() - 1].kind());
                }
            }
        }
        if forall|i: int| 0 <= i < components.len() ==> (#[trigger] components[i]).kind() != kind {
            assert forall|i: int| 0 <= i < init.len() implies (#[trigger] init[i]).kind()
                != kind by {
                assert(init[i] == components[i]);
            }
            assert(components[components.len() - 1].kind() != kind);
            assert(all =~= components);
        }
        assert forall|other: ComponentKind| other != kind implies last_of_kind(all, other)
            == #[trigger] last_of_kind(components, other) by {
            assert(last_of_kind(kept, other) == last_of_kind(init, other));
            if keep(last) {
                assert(all == kept.push(last));
                assert(all.drop_last() =~= kept);
                assert(all.last() == last);
            } else {
                assert(all == kept);
                assert(last.kind() == kind);
            }
        }
    }
}

/// What attaching one component after the other comes to: the entity
/// carries no two components of a kind, of every kind it carries the
/// component that was attached last, and components of kinds that all
/// differ are carried as they were attached.
pub proof fn lemma_attach_all(components: Seq<ComponentView>)
    ensures
        one_per_kind(attach_all(components)),
        forall|kind: ComponentKind|
            last_of_kind(attach_all(components), kind) == #[trigger] last_of_kind(components, kind),
        one_per_kind(components) ==> attach_all(components) == components,
    decreases components.len(),
{
    if components.len() > 0 {
        let init = components.drop_last();
        let last = components.last();
        let kind = last.kind();
        let earlier = attach_all(init);
        lemma_attach_all(init);
        lemma_filter_other_kind(earlier, kind);
        let kept = earlier.filter(of_other_kind(kind));
        let all = attach_all(components);
        assert(all == kept.push(last));
        assert(all.drop_last() =~= kept);
        assert forall|i: int, j: int| 0 <= i < j < all.len() implies (#[trigger] all[i]).kind() != (
        #[trigger] all[j]).kind() by {
            assert(all[i] == kept[i]);
            if j < kept.len() {
                assert(all[j] == kept[j]);
            }
        }
        assert forall|other: ComponentKind|
            last_of_kind(all, other) == #[trigger] last_of_kind(components, other) by {
            if other != kind {
                assert(last_of_kind(kept, other) == last_of_kind(earlier, other));
                assert(last_of_kind(earlier, other) == last_of_kind(init, other));
            }
        }
        if one_per_kind(components) {
            assert forall|i: int, j: int| 0 <= i < j < init.len() implies (#[trigger] init[i]).kind()
                != (#[trigger] init[j]).kind() by {
                assert(init[i] == components[i] && init[j] == components[j]);
            }
            assert forall|i: int| 0 <= i < init.len() implies (#[trigger] init[i]).kind()
                != kind by {
                assert(init[i] == components[i]);
                assert(components[i].kind() != components[components.len() - 1].kind());
            }
            assert(all =~= components);
        }
    }
}

} // verus!

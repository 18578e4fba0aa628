pub mod animation;
pub mod basic_number_test;
pub mod basic_text_test;
pub mod mesh_graphic;
pub mod player_control;
pub mod position;
pub mod text_display;

use crate::components::basic_boolean_test::{
    BasicBooleanTest, BASIC_BOOLEAN_TEST_COMPONENT_LOAD_ID,
};
use crate::components::basic_map_test::{BasicMapTest, BASIC_MAP_TEST_COMPONENT_LOAD_ID};
use crate::components::basic_number_test::{BasicNumberTest, BASIC_NUMBER_TEST_COMPONENT_LOAD_ID};
use crate::components::basic_text_test::{BasicTextTest, BASIC_TEXT_TEST_COMPONENT_LOAD_ID};
use crate::components::basic_vec_test::{BasicVectorTest, BASIC_VECTOR_TEST_COMPONENT_LOAD_ID};
use crate::components::mesh_graphic::{MeshGraphic, MeshGraphicJSON};
use crate::components::text_display::{TextDisplay, TextDisplayView};
use crate::globals::{DecodeError, ErrorView, TestGlobalError};
use crate::load::JSONLoad;
use crate::value::{JsonValue, JsonView};
use crate::world::{attach, EntityBuilder, World};
use std::marker::PhantomData;
use vstd::prelude::*;
use vstd::string::*;

verus! {

/// A component that the generic loader can handle: one that is decoded
/// directly, field by field, from a payload tagged with its `LOAD_ID`.
pub trait BasicTestComponent: View + Sized {
    /// The type id of the envelopes that carry this component.
    const LOAD_ID: &'static str;

    /// The characters of `LOAD_ID`.
    spec fn load_id() -> Seq<char>;

    /// The name of the component type, as a failure to decode names it.
    spec fn target_name() -> Seq<char>;

    /// What a payload decodes to: the component, or the reason it is refused.
    spec fn decoded(payload: JsonView) -> Result<Self::V, DecodeError>;

    /// Whether `payload` is the encoding of `component`: a payload of the
    /// shape that `encode` writes.
    spec fn encodes(payload: JsonView, component: Self::V) -> bool;

    /// The component as one of the kinds an entity can carry.
    spec fn as_component(component: Self::V) -> ComponentView;

    /// The name of the component type.
    fn name() -> (name: &'static str)
        ensures
            name@ == Self::target_name(),
    ;

    fn decode(payload: &JsonValue) -> (r: Result<Self, DecodeError>)
        ensures
            match r {
                Ok(component) => Self::decoded(payload@) == Ok::<Self::V, DecodeError>(
                    component@,
                ),
                Err(e) => Self::decoded(payload@) == Err::<Self::V, DecodeError>(e),
            },
    ;

    fn encode(&self) -> (payload: JsonValue)
        ensures
            Self::encodes(payload@, self@),
    ;

    fn into_component(self) -> (component: Component)
        ensures
            component@ == Self::as_component(self@),
    ;

    /// `load_id` is the text of `LOAD_ID`.
    proof fn lemma_load_id()
        ensures
            Self::LOAD_ID@ == Self::load_id(),
    ;

    /// An encoding decodes to the component it encodes.
    proof fn lemma_encoding_decodes(payload: JsonView, component: Self::V)
        requires
            Self::encodes(payload, component),
        ensures
            Self::decoded(payload) == Ok::<Self::V, DecodeError>(component),
    ;
}

/// The kinds of component that an entity can carry.
#[derive(Debug, Clone, Copy, PartialEq, Eq, Structural)]
pub enum ComponentKind {
    Number,
    Boolean,
    Text,
    Vector,
    Mapping,
    MeshGraphic,
    TextDisplay,
}

/// A typed component, as an entity carries it.
#[derive(Debug, PartialEq, Eq)]
pub enum Component {
    Number(BasicNumberTest),
    Boolean(BasicBooleanTest),
    Text(BasicTextTest),
    Vector(BasicVectorTest),
    Mapping(BasicMapTest),
    MeshGraphic(MeshGraphic),
    TextDisplay(TextDisplay),
}

/// The mathematical model of a [`Component`].
pub enum ComponentView {
    Number(u32),
    Boolean(bool),
    Text(Seq<char>),
    Vector(Seq<u32>),
    Mapping(Map<u32, Seq<char>>),
    MeshGraphic(MeshGraphicJSON),
    TextDisplay(TextDisplayView),
}

impl View for Component {
    type V = ComponentView;

    open spec fn view(&self) -> ComponentView {
        match self {
            Component::Number(c) => ComponentView::Number(c@),
            Component::Boolean(c) => ComponentView::Boolean(c@),
            Component::Text(c) => ComponentView::Text(c@),
            Component::Vector(c) => ComponentView::Vector(c@),
            Component::Mapping(c) => ComponentView::Mapping(c@),
            Component::MeshGraphic(c) => ComponentView::MeshGraphic(c.mesh),
            Component::TextDisplay(c) => ComponentView::TextDisplay(c@),
        }
    }
}

impl ComponentView {
    /// The kind of the component.
    pub open spec fn kind(self) -> ComponentKind {
        match self {
            ComponentView::Number(_) => ComponentKind::Number,
            ComponentView::Boolean(_) => ComponentKind::Boolean,
            ComponentView::Text(_) => ComponentKind::Text,
            ComponentView::Vector(_) => ComponentKind::Vector,
            ComponentView::Mapping(_) => ComponentKind::Mapping,
            ComponentView::MeshGraphic(_) => ComponentKind::MeshGraphic,
            ComponentView::TextDisplay(_) => ComponentKind::TextDisplay,
        }
    }
}

impl Component {
    /// The kind of the component.
    pub fn kind(&self) -> (kind: ComponentKind)
        ensures
            kind == self@.kind(),
    {
        match self {
            Component::Number(_) => ComponentKind::Number,
            Component::Boolean(_) => ComponentKind::Boolean,
            Component::Text(_) => ComponentKind::Text,
            Component::Vector(_) => ComponentKind::Vector,
            Component::Mapping(_) => ComponentKind::Mapping,
            Component::MeshGraphic(_) => ComponentKind::MeshGraphic,
            Component::TextDisplay(_) => ComponentKind::TextDisplay,
        }
    }
}

/// The loader for any component that is decoded directly from its payload.
/// It is made from an envelope that carries the tag of `T` and a payload
/// that decodes, keeps that payload, and decodes it again whenever the
/// component is attached.
#[derive(Debug)]
pub struct BasicTestComponentLoader<T: BasicTestComponent> {
    cached_value: JsonValue,
    component_name: String,
    phantom: PhantomData<T>,
}

/// The failure of a payload to decode into the component type `into_type`.
pub open spec fn conversion_failure(
    payload: JsonView,
    into_type: Seq<char>,
    cause: DecodeError,
) -> ErrorView {
    ErrorView::ConvertJSONError { value: payload, into_type, source: cause }
}

impl<T: BasicTestComponent> BasicTestComponentLoader<T> {
    #[verifier::type_invariant]
    spec fn named_by_its_id(self) -> bool {
        self.component_name@ == T::load_id()
    }

    /// The payload that the loader holds.
    pub closed spec fn cached(&self) -> JsonView {
        self.cached_value@
    }

    /// What attaching does: the component that the held payload decodes to,
    /// or the reason the payload is refused.
    pub open spec fn attaches(&self) -> Result<ComponentView, DecodeError> {
        match T::decoded(self.cached()) {
            Ok(component) => Ok(T::as_component(component)),
            Err(e) => Err(e),
        }
    }

    /// Makes a loader from an envelope, which must carry the tag of `T` and
    /// a payload that decodes into `T`. The tag is looked at first.
    pub fn from_json(json: JSONLoad) -> (r: Result<Self, TestGlobalError>)
        ensures
            r is Ok <==> json.load_type_id@ == T::load_id() && T::decoded(json.actual_value@) is Ok,
            r matches Ok(loader) ==> loader.cached() == json.actual_value@,
            r matches Err(e) ==> e@ == (if json.load_type_id@ != T::load_id() {
                ErrorView::LoadIDMatchError {
                    expected_id: T::load_id(),
                    actual_id: json.load_type_id@,
                }
            } else {
                conversion_failure(
                    json.actual_value@,
                    T::target_name(),
                    T::decoded(json.actual_value@)->Err_0,
                )
            }),
    {
        let expected = String::from_str(T::LOAD_ID);
        proof {
            T::lemma_load_id();
        }
        if json.load_type_id == expected {
            match T::decode(&json.actual_value) {
                Ok(_) => Ok(
                    BasicTestComponentLoader {
                        cached_value: json.actual_value,
                        component_name: expected,
                        phantom: PhantomData,
                    },
                ),
                Err(cause) => Err(
                    TestGlobalError::ConvertJSONError {
                        value: json.actual_value,
                        into_type: String::from_str(T::name()),
                        source: cause,
                    },
                ),
            }
        } else {
            Err(
                TestGlobalError::LoadIDMatchError {
                    expected_id: expected,
                    actual_id: json.load_type_id,
                },
            )
        }
    }

    /// Decodes the held payload and attaches the component to `builder`,
    /// where it takes the place of an earlier component of its kind. A
    /// payload that does not decode leaves nothing attached. Neither the
    /// loader nor the world is changed.
    pub fn load_component(&self, builder: EntityBuilder, world: &World) -> (r: Result<
        EntityBuilder,
        TestGlobalError,
    >)
        ensures
            match self.attaches() {
                Ok(component) => r matches Ok(extended) && extended@ == attach(builder@, component),
                Err(cause) => r matches Err(e) && e@ == conversion_failure(
                    self.cached(),
                    T::target_name(),
                    cause,
                ),
            },
    {
        match T::decode(&self.cached_value) {
            Ok(component) => Ok(builder.with(component.into_component())),
            Err(cause) => Err(
                TestGlobalError::ConvertJSONError {
                    value: self.cached_value.clone(),
                    into_type: String::from_str(T::name()),
                    source: cause,
                },
            ),
        }
    }

    /// Replaces the held payload by that of `new_value`, which must carry the
    /// tag of `T`. An envelope with another tag leaves the loader as it was.
    pub fn set_value(&mut self, new_value: JSONLoad) -> (r: Result<(), TestGlobalError>)
        ensures
            r is Ok <==> new_value.load_type_id@ == T::load_id(),
            r is Ok ==> final(self).cached() == new_value.actual_value@,
            r matches Err(e) ==> *final(self) == *old(self) && e@ == (
            ErrorView::LoadIDMatchError {
                expected_id: T::load_id(),
                actual_id: new_value.load_type_id@,
            }),
    {
        let expected = String::from_str(T::LOAD_ID);
        proof {
            T::lemma_load_id();
        }
        if new_value.load_type_id == expected {
            proof {
                use_type_invariant(&*self);
            }
            self.cached_value = new_value.actual_value;
            Ok(())
        } else {
            Err(
                TestGlobalError::LoadIDMatchError {
                    expected_id: expected,
                    actual_id: new_value.load_type_id,
                },
            )
        }
    }

    /// The name of the component for diagnostics: its type id.
    pub fn get_component_name(&self) -> (name: String)
        ensures
            name@ == T::load_id(),
    {
        proof {
            use_type_invariant(self);
        }
        self.component_name.clone()
    }
}

/// Any loader that a registry can hand out. Whatever the variant, it was made
/// from an envelope with its own tag, attaches one component, takes a
/// replacement payload with the same tag, and reports a name.
#[derive(Debug)]
pub enum ComponentLoader {
    Number(BasicTestComponentLoader<BasicNumberTest>),
    Boolean(BasicTestComponentLoader<BasicBooleanTest>),
    Text(BasicTestComponentLoader<BasicTextTest>),
    Vector(BasicTestComponentLoader<BasicVectorTest>),
    Mapping(BasicTestComponentLoader<BasicMapTest>),
}

impl ComponentLoader {
    /// The type id that the loader declares.
    pub open spec fn declared_id(&self) -> Seq<char> {
        match self {
            ComponentLoader::Number(_) => BASIC_NUMBER_TEST_COMPONENT_LOAD_ID@,
            ComponentLoader::Boolean(_) => BASIC_BOOLEAN_TEST_COMPONENT_LOAD_ID@,
            ComponentLoader::Text(_) => BASIC_TEXT_TEST_COMPONENT_LOAD_ID@,
            ComponentLoader::Vector(_) => BASIC_VECTOR_TEST_COMPONENT_LOAD_ID@,
            ComponentLoader::Mapping(_) => BASIC_MAP_TEST_COMPONENT_LOAD_ID@,
        }
    }

    /// The payload that the loader holds.
    pub open spec fn cached(&self) -> JsonView {
        match self {
            ComponentLoader::Number(loader) => loader.cached(),
            ComponentLoader::Boolean(loader) => loader.cached(),
            ComponentLoader::Text(loader) => loader.cached(),
            ComponentLoader::Vector(loader) => loader.cached(),
            ComponentLoader::Mapping(loader) => loader.cached(),
        }
    }

    /// What attaching does: the component that the held payload decodes to,
    /// or the reason the payload is refused.
    pub open spec fn attaches(&self) -> Result<ComponentView, DecodeError> {
        attached(self.declared_id(), self.cached())
    }

    /// Decodes the held payload and attaches the component to `builder`,
    /// where it takes the place of an earlier component of its kind: exactly
    /// one component is attached, or the call fails and nothing is.
    pub fn load_component(&self, builder: EntityBuilder, world: &World) -> (r: Result<
        EntityBuilder,
        TestGlobalError,
    >)
        ensures
            match self.attaches() {
                Ok(component) => r matches Ok(extended) && extended@ == attach(builder@, component),
                Err(cause) => r matches Err(e) && e@ == conversion_failure(
                    self.cached(),
                    target_name_of(self.declared_id()),
                    cause,
                ),
            },
    {
        proof {
            lemma_ids_differ();
        }
        match self {
            ComponentLoader::Number(loader) => loader.load_component(builder, world),
            ComponentLoader::Boolean(loader) => loader.load_component(builder, world),
            ComponentLoader::Text(loader) => loader.load_component(builder, world),
            ComponentLoader::Vector(loader) => loader.load_component(builder, world),
            ComponentLoader::Mapping(loader) => loader.load_component(builder, world),
        }
    }

    /// Replaces the held payload by that of `new_value`, which must carry the
    /// loader's own tag. An envelope with another tag leaves the loader as it was.
    pub fn set_value(&mut self, new_value: JSONLoad) -> (r: Result<(), TestGlobalError>)
        ensures
            r is Ok <==> new_value.load_type_id@ == old(self).declared_id(),
            r is Ok ==> final(self).cached() == new_value.actual_value@,
            final(self).declared_id() == old(self).declared_id(),
            r matches Err(e) ==> *final(self) == *old(self) && e@ == (
            ErrorView::LoadIDMatchError {
                expected_id: old(self).declared_id(),
                actual_id: new_value.load_type_id@,
            }),
    {
        match self {
            ComponentLoader::Number(loader) => loader.set_value(new_value),
            ComponentLoader::Boolean(loader) => loader.set_value(new_value),
            ComponentLoader::Text(loader) => loader.set_value(new_value),
            ComponentLoader::Vector(loader) => loader.set_value(new_value),
            ComponentLoader::Mapping(loader) => loader.set_value(new_value),
        }
    }

    /// The name of the component for diagnostics.
    pub fn get_component_name(&self) -> (name: String)
        ensures
            name@ == self.declared_id(),
    {
        match self {
            ComponentLoader::Number(loader) => loader.get_component_name(),
            ComponentLoader::Boolean(loader) => loader.get_component_name(),
            ComponentLoader::Text(loader) => loader.get_component_name(),
            ComponentLoader::Vector(loader) => loader.get_component_name(),
            ComponentLoader::Mapping(loader) => loader.get_component_name(),
        }
    }
}

/// The name of the component type that the type id `id` stands for. For an
/// id that no loader declares, nothing is said.
pub open spec fn target_name_of(id: Seq<char>) -> Seq<char> {
    if id == BASIC_NUMBER_TEST_COMPONENT_LOAD_ID@ {
        BasicNumberTest::target_name()
    } else if id == BASIC_BOOLEAN_TEST_COMPONENT_LOAD_ID@ {
        BasicBooleanTest::target_name()
    } else if id == BASIC_TEXT_TEST_COMPONENT_LOAD_ID@ {
        BasicTextTest::target_name()
    } else if id == BASIC_VECTOR_TEST_COMPONENT_LOAD_ID@ {
        BasicVectorTest::target_name()
    } else {
        BasicMapTest::target_name()
    }
}

/// What the loader for the type id `id` attaches from `payload`. For an id
/// that no loader declares, nothing is said.
pub open spec fn attached(id: Seq<char>, payload: JsonView) -> Result<ComponentView, DecodeError> {
    if id == BASIC_NUMBER_TEST_COMPONENT_LOAD_ID@ {
        match BasicNumberTest::decoded(payload) {
            Ok(c) => Ok(ComponentView::Number(c)),
            Err(e) => Err(e),
        }
    } else if id == BASIC_BOOLEAN_TEST_COMPONENT_LOAD_ID@ {
        match BasicBooleanTest::decoded(payload) {
            Ok(c) => Ok(ComponentView::Boolean(c)),
            Err(e) => Err(e),
        }
    } else if id == BASIC_TEXT_TEST_COMPONENT_LOAD_ID@ {
        match BasicTextTest::decoded(payload) {
            Ok(c) => Ok(ComponentView::Text(c)),
            Err(e) => Err(e),
        }
    } else if id == BASIC_VECTOR_TEST_COMPONENT_LOAD_ID@ {
        match BasicVectorTest::decoded(payload) {
            Ok(c) => Ok(ComponentView::Vector(c)),
            Err(e) => Err(e),
        }
    } else {
        match BasicMapTest::decoded(payload) {
            Ok(c) => Ok(ComponentView::Mapping(c)),
            Err(e) => Err(e),
        }
    }
}

/// The type ids of the five basic components are five different texts.
pub proof fn lemma_ids_differ()
    ensures
        BASIC_NUMBER_TEST_COMPONENT_LOAD_ID@ != BASIC_BOOLEAN_TEST_COMPONENT_LOAD_ID@,
        BASIC_NUMBER_TEST_COMPONENT_LOAD_ID@ != BASIC_TEXT_TEST_COMPONENT_LOAD_ID@,
        BASIC_NUMBER_TEST_COMPONENT_LOAD_ID@ != BASIC_VECTOR_TEST_COMPONENT_LOAD_ID@,
        BASIC_NUMBER_TEST_COMPONENT_LOAD_ID@ != BASIC_MAP_TEST_COMPONENT_LOAD_ID@,
        BASIC_BOOLEAN_TEST_COMPONENT_LOAD_ID@ != BASIC_TEXT_TEST_COMPONENT_LOAD_ID@,
        BASIC_BOOLEAN_TEST_COMPONENT_LOAD_ID@ != BASIC_VECTOR_TEST_COMPONENT_LOAD_ID@,
        BASIC_BOOLEAN_TEST_COMPONENT_LOAD_ID@ != BASIC_MAP_TEST_COMPONENT_LOAD_ID@,
        BASIC_TEXT_TEST_COMPONENT_LOAD_ID@ != BASIC_VECTOR_TEST_COMPONENT_LOAD_ID@,
        BASIC_TEXT_TEST_COMPONENT_LOAD_ID@ != BASIC_MAP_TEST_COMPONENT_LOAD_ID@,
        BASIC_VECTOR_TEST_COMPONENT_LOAD_ID@ != BASIC_MAP_TEST_COMPONENT_LOAD_ID@,
{
    reveal_strlit("basic_number_test_component");
    reveal_strlit("basic_boolean_test_component");
    reveal_strlit("basic_text_test_component");
    reveal_strlit("basic_vector_test_component");
    reveal_strlit("basic_map_test_component");
    assert(BASIC_NUMBER_TEST_COMPONENT_LOAD_ID@.len() == 27);
    assert(BASIC_BOOLEAN_TEST_COMPONENT_LOAD_ID@.len() == 28);
    assert(BASIC_TEXT_TEST_COMPONENT_LOAD_ID@.len() == 25);
    assert(BASIC_VECTOR_TEST_COMPONENT_LOAD_ID@.len() == 27);
    assert(BASIC_MAP_TEST_COMPONENT_LOAD_ID@.len() == 24);
    assert(BASIC_NUMBER_TEST_COMPONENT_LOAD_ID@[6] != BASIC_VECTOR_TEST_COMPONENT_LOAD_ID@[6]);
}

/// The registry of component loaders: the one place where a type id is tied
/// to the loader that handles it.
#[derive(Debug)]
pub struct BasicTestComponentMux {}

impl BasicTestComponentMux {
    /// The type ids that the registry knows, in the order in which it tries them.
    pub open spec fn known_ids() -> Seq<Seq<char>> {
        seq![
            BASIC_NUMBER_TEST_COMPONENT_LOAD_ID@,
            BASIC_BOOLEAN_TEST_COMPONENT_LOAD_ID@,
            BASIC_TEXT_TEST_COMPONENT_LOAD_ID@,
            BASIC_VECTOR_TEST_COMPONENT_LOAD_ID@,
            BASIC_MAP_TEST_COMPONENT_LOAD_ID@,
        ]
    }

    /// The type ids that the registry knows.
    pub fn known_id_list() -> (ids: Vec<String>)
        ensures
            crate::globals::texts(ids@) == Self::known_ids(),
    {
        let mut ids: Vec<String> = Vec::new();
        ids.push(String::from_str(BASIC_NUMBER_TEST_COMPONENT_LOAD_ID));
        ids.push(String::from_str(BASIC_BOOLEAN_TEST_COMPONENT_LOAD_ID));
        ids.push(String::from_str(BASIC_TEXT_TEST_COMPONENT_LOAD_ID));
        ids.push(String::from_str(BASIC_VECTOR_TEST_COMPONENT_LOAD_ID));
        ids.push(String::from_str(BASIC_MAP_TEST_COMPONENT_LOAD_ID));
        assert(crate::globals::texts(ids@) =~= Self::known_ids());
        ids
    }

    /// Hands out the loader for an envelope: the one that declares the
    /// envelope's type id, holding the envelope's payload. The loader is
    /// picked by the id alone. An id that the registry does not know is
    /// refused, and the refusal names it; a payload that does not decode
    /// into the component of its id is refused by the loader that was picked.
    pub fn map_json_to_loader(json: JSONLoad) -> (r: Result<ComponentLoader, TestGlobalError>)
        ensures
            r is Ok <==> Self::known_ids().contains(json.load_type_id@) && attached(
                json.load_type_id@,
                json.actual_value@,
            ) is Ok,
            r matches Ok(loader) ==> loader.declared_id() == json.load_type_id@ && loader.cached()
                == json.actual_value@,
            r matches Err(e) ==> e@ == (if !Self::known_ids().contains(json.load_type_id@) {
                ErrorView::UnknownTypeId {
                    actual_id: json.load_type_id@,
                    known_ids: Self::known_ids(),
                }
            } else {
                conversion_failure(
                    json.actual_value@,
                    target_name_of(json.load_type_id@),
                    attached(json.load_type_id@, json.actual_value@)->Err_0,
                )
            }),
    {
        proof {
            lemma_ids_differ();
        }
        let ghost ids = Self::known_ids();
        assert(ids[0] == BASIC_NUMBER_TEST_COMPONENT_LOAD_ID@);
        assert(ids[1] == BASIC_BOOLEAN_TEST_COMPONENT_LOAD_ID@);
        assert(ids[2] == BASIC_TEXT_TEST_COMPONENT_LOAD_ID@);
        assert(ids[3] == BASIC_VECTOR_TEST_COMPONENT_LOAD_ID@);
        assert(ids[4] == BASIC_MAP_TEST_COMPONENT_LOAD_ID@);
        if is_text(&json.load_type_id, BASIC_NUMBER_TEST_COMPONENT_LOAD_ID) {
            match BasicTestComponentLoader::<BasicNumberTest>::from_json(json) {
                Ok(loader) => Ok(ComponentLoader::Number(loader)),
                Err(e) => Err(e),
            }
        } else if is_text(&json.load_type_id, BASIC_BOOLEAN_TEST_COMPONENT_LOAD_ID) {
            match BasicTestComponentLoader::<BasicBooleanTest>::from_json(json) {
                Ok(loader) => Ok(ComponentLoader::Boolean(loader)),
                Err(e) => Err(e),
            }
        } else if is_text(&json.load_type_id, BASIC_TEXT_TEST_COMPONENT_LOAD_ID) {
            match BasicTestComponentLoader::<BasicTextTest>::from_json(json) {
                Ok(loader) => Ok(ComponentLoader::Text(loader)),
                Err(e) => Err(e),
            }
        } else if is_text(&json.load_type_id, BASIC_VECTOR_TEST_COMPONENT_LOAD_ID) {
            match BasicTestComponentLoader::<BasicVectorTest>::from_json(json) {
                Ok(loader) => Ok(ComponentLoader::Vector(loader)),
                Err(e) => Err(e),
            }
        } else if is_text(&json.load_type_id, BASIC_MAP_TEST_COMPONENT_LOAD_ID) {
            match BasicTestComponentLoader::<BasicMapTest>::from_json(json) {
                Ok(loader) => Ok(ComponentLoader::Mapping(loader)),
                Err(e) => Err(e),
            }
        } else {
            Err(
                TestGlobalError::UnknownTypeId {
                    actual_id: json.load_type_id,
                    known_ids: Self::known_id_list(),
                },
            )
        }
    }
}

/// Whether `text` holds exactly the characters of `wanted`.
pub fn is_text(text: &String, wanted: &str) -> (same: bool)
    ensures
        same == (text@ == wanted@),
{
    let other = String::from_str(wanted);
    *text == other
}

/// A failure of a component to reach what it shares with others.
#[derive(Debug, PartialEq, Eq)]
pub enum ComponentError {
    /// The lock that guards `var_name` could not be taken.
    ComponentPoisonError { var_name: String, source_string: String },
}

/// What a poisoned lock says, given the name of the variable between quotes.
pub open spec fn poison_text(quoted_name: Seq<char>) -> Seq<char> {
    "Failed to get lock of variable: "@ + quoted_name + "."@
}

/// Says a poisoned lock, given the name of the variable between quotes.
pub fn poison_message(quoted_name: &str) -> (text: String)
    ensures
        text@ == poison_text(quoted_name@),
{
    let mut text = String::from_str("Failed to get lock of variable: ");
    text.append(quoted_name);
    text.append(".");
    text
}

impl ComponentError {
    /// What the error says of itself.
    pub fn message(&self) -> (text: String)
        ensures
            self matches ComponentError::ComponentPoisonError { var_name, source_string }
                && text@ == poison_text(crate::globals::debug_text(var_name@)),
    {
        match self {
            ComponentError::ComponentPoisonError { var_name, source_string } => {
                let quoted_name = crate::globals::quoted(var_name.as_str());
                poison_message(quoted_name.as_str())
            },
        }
    }
}

} // verus!

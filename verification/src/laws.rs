use crate::components::basic_boolean_test::BasicBooleanTest;
use crate::components::basic_map_test::BasicMapTest;
use crate::components::basic_number_test::BasicNumberTest;
use crate::components::basic_text_test::BasicTextTest;
use crate::components::basic_vec_test::BasicVectorTest;
use crate::components::{
    attached, lemma_ids_differ, BasicTestComponent, BasicTestComponentMux, ComponentKind,
    ComponentView,
};
use crate::world::{attach_all, last_of_kind, lemma_attach_all, one_per_kind};
use crate::game::first_failure;
use crate::globals::{DecodeError, ErrorView};
use crate::keys::{decimal_text, key_as_u32, lemma_decimal_value_writes_back};
use crate::load::{
    assembled, built_prefix, component_decoder, component_of, entity_assembler, lemma_built_prefix,
    EntityFileView,
};
use crate::sequence::{lemma_try_map_ok, try_map};
use crate::value::JsonView;
use vstd::prelude::*;

verus! {

/// Decoding loses nothing that encoding keeps: where a payload decodes to a
/// component, every encoding of that component decodes to the same component.
pub proof fn lemma_round_trip<T: BasicTestComponent>(
    payload: JsonView,
    component: T::V,
    again: JsonView,
)
    requires
        T::decoded(payload) == Ok::<T::V, DecodeError>(component),
        T::encodes(again, component),
    ensures
        T::decoded(again) == Ok::<T::V, DecodeError>(component),
{
    T::lemma_encoding_decodes(again, component);
}

/// A payload in the shape that encoding writes for a number comes back as it
/// was: decoding it and encoding the component gives the very same payload.
pub proof fn lemma_number_comes_back(payload: JsonView, written: u32, read: u32, again: JsonView)
    requires
        BasicNumberTest::encodes(payload, written),
        BasicNumberTest::decoded(payload) == Ok::<u32, DecodeError>(read),
        BasicNumberTest::encodes(again, read),
    ensures
        read == written,
        again == payload,
{
    BasicNumberTest::lemma_encoding_decodes(payload, written);
}

/// A payload in the shape that encoding writes for a truth value comes back as it
/// was: decoding it and encoding the component gives the very same payload.
pub proof fn lemma_boolean_comes_back(payload: JsonView, written: bool, read: bool, again: JsonView)
    requires
        BasicBooleanTest::encodes(payload, written),
        BasicBooleanTest::decoded(payload) == Ok::<bool, DecodeError>(read),
        BasicBooleanTest::encodes(again, read),
    ensures
        read == written,
        again == payload,
{
    BasicBooleanTest::lemma_encoding_decodes(payload, written);
}

/// A payload in the shape that encoding writes for a text comes back as it
/// was: decoding it and encoding the component gives the very same payload.
pub proof fn lemma_text_comes_back(payload: JsonView, written: Seq<char>, read: Seq<char>, again: JsonView)
    requires
        BasicTextTest::encodes(payload, written),
        BasicTextTest::decoded(payload) == Ok::<Seq<char>, DecodeError>(read),
        BasicTextTest::encodes(again, read),
    ensures
        read == written,
        again == payload,
{
    BasicTextTest::lemma_encoding_decodes(payload, written);
}

/// A payload in the shape that encoding writes for a list of numbers comes back as it
/// was: decoding it and encoding the component gives the very same payload.
pub proof fn lemma_vector_comes_back(payload: JsonView, written: Seq<u32>, read: Seq<u32>, again: JsonView)
    requires
        BasicVectorTest::encodes(payload, written),
        BasicVectorTest::decoded(payload) == Ok::<Seq<u32>, DecodeError>(read),
        BasicVectorTest::encodes(again, read),
    ensures
        read == written,
        again == payload,
{
    BasicVectorTest::lemma_encoding_decodes(payload, written);
}

/// A payload in the shape that encoding writes for a map comes back with the
/// same entries: decoding it gives the map that was written, and every
/// encoding of that map writes each key of it once, with its text. The order
/// of the entries is not kept.
pub proof fn lemma_map_comes_back(
    payload: JsonView,
    written: Map<u32, Seq<char>>,
    read: Map<u32, Seq<char>>,
)
    requires
        BasicMapTest::encodes(payload, written),
        BasicMapTest::decoded(payload) == Ok::<Map<u32, Seq<char>>, DecodeError>(read),
    ensures
        read == written,
        BasicMapTest::encodes(payload, read),
{
    BasicMapTest::lemma_encoding_decodes(payload, written);
}

/// The key of a map entry comes back as it was: a text that is read as a
/// number is the very text that writes that number.
pub proof fn lemma_key_comes_back(key: Seq<char>, number: u32)
    requires
        key_as_u32(key) == Ok::<u32, DecodeError>(number),
    ensures
        decimal_text(number as nat) == key,
{
    lemma_decimal_value_writes_back(key);
}

/// The registry knows exactly the type ids that the five basic components
/// declare, and for each of them the component that is attached is the one
/// that the component of that id decodes from the payload.
pub proof fn lemma_registry_is_exhaustive(id: Seq<char>, payload: JsonView)
    ensures
        BasicTestComponentMux::known_ids().contains(id) <==> (id == BasicNumberTest::load_id()
            || id == BasicBooleanTest::load_id() || id == BasicTextTest::load_id() || id
            == BasicVectorTest::load_id() || id == BasicMapTest::load_id()),
        id == BasicNumberTest::load_id() ==> (attached(id, payload) is Ok
            <==> BasicNumberTest::decoded(payload) is Ok),
        id == BasicBooleanTest::load_id() ==> (attached(id, payload) is Ok
            <==> BasicBooleanTest::decoded(payload) is Ok),
        id == BasicTextTest::load_id() ==> (attached(id, payload) is Ok <==> BasicTextTest::decoded(
            payload,
        ) is Ok),
        id == BasicVectorTest::load_id() ==> (attached(id, payload) is Ok
            <==> BasicVectorTest::decoded(payload) is Ok),
        id == BasicMapTest::load_id() ==> (attached(id, payload) is Ok <==> BasicMapTest::decoded(
            payload,
        ) is Ok),
{
    lemma_ids_differ();
    let ids = BasicTestComponentMux::known_ids();
    assert(ids[0] == BasicNumberTest::load_id());
    assert(ids[1] == BasicBooleanTest::load_id());
    assert(ids[2] == BasicTextTest::load_id());
    assert(ids[3] == BasicVectorTest::load_id());
    assert(ids[4] == BasicMapTest::load_id());
}

/// An entity takes its components in the order of its envelopes: where
/// every envelope of a file is valid, the entity is built from the components
/// that the envelopes decode to, attached one after the other in the order of
/// the file. It carries no two components of a kind, and of every kind the
/// component whose envelope comes last. Where the kinds of the envelopes all
/// differ, it carries as many components as the file has envelopes, each in
/// the place of its envelope.
pub proof fn lemma_components_follow_envelopes(file: EntityFileView)
    requires
        forall|i: int|
            0 <= i < file.components.len() ==> component_of(#[trigger] file.components[i]) is Ok,
    ensures
        try_map(file.components, component_decoder()) matches Ok(decoded) && {
            &&& decoded.len() == file.components.len()
            &&& forall|i: int|
                0 <= i < decoded.len() ==> component_of(file.components[i]) == Ok::<
                    ComponentView,
                    ErrorView,
                >(#[trigger] decoded[i])
            &&& assembled(file) == Ok::<Seq<ComponentView>, ErrorView>(attach_all(decoded))
            &&& one_per_kind(attach_all(decoded))
            &&& forall|kind: ComponentKind|
                last_of_kind(attach_all(decoded), kind) == #[trigger] last_of_kind(decoded, kind)
            &&& one_per_kind(decoded) ==> attach_all(decoded) == decoded
        },
{
    let f = component_decoder();
    assert forall|i: int| 0 <= i < file.components.len() implies f(#[trigger] file.components[i]) is Ok by {
        assert(component_of(file.components[i]) is Ok);
    }
    lemma_try_map_ok(file.components, f);
    let decoded = try_map(file.components, f)->Ok_0;
    assert forall|i: int| 0 <= i < decoded.len() implies component_of(file.components[i]) == Ok::<
        ComponentView,
        ErrorView,
    >(#[trigger] decoded[i]) by {
        assert(f(file.components[i]) == Ok::<ComponentView, ErrorView>(decoded[i]));
    }
    lemma_attach_all(decoded);
}

/// Entities come out in the order of their files: where every file of a list
/// is valid, there are as many entities as files, and each is the one its
/// file describes.
pub proof fn lemma_entities_follow_files(files: Seq<EntityFileView>)
    requires
        forall|i: int| 0 <= i < files.len() ==> assembled(#[trigger] files[i]) is Ok,
    ensures
        try_map(files, entity_assembler()) is Ok,
        built_prefix(files).len() == files.len(),
        forall|i: int|
            0 <= i < files.len() ==> assembled(files[i]) == Ok::<Seq<ComponentView>, ErrorView>(
                #[trigger] built_prefix(files)[i],
            ),
{
    let f = entity_assembler();
    assert forall|i: int| 0 <= i < files.len() implies f(#[trigger] files[i]) is Ok by {
        assert(assembled(files[i]) is Ok);
    }
    lemma_try_map_ok(files, f);
    let lists = try_map(files, f)->Ok_0;
    assert forall|i: int| 0 <= i < lists.len() implies assembled(#[trigger] files[i]) == Ok::<
        Seq<ComponentView>,
        ErrorView,
    >(lists[i]) by {
        assert(f(files[i]) == Ok::<Seq<ComponentView>, ErrorView>(lists[i]));
    }
    lemma_built_prefix(files, lists);
    assert(files.skip(files.len() as int) =~= Seq::<EntityFileView>::empty());
    assert(lists + built_prefix(files.skip(files.len() as int)) =~= lists);
}

/// The join fails exactly if one of the joined loads failed.
pub proof fn lemma_join_fails_with_any(
    font_dict: Option<ErrorView>,
    image_dict: Option<ErrorView>,
    audio_controller: Option<ErrorView>,
    scene_stack: Option<ErrorView>,
)
    ensures
        first_failure(font_dict, image_dict, audio_controller, scene_stack) is Some <==> (
        font_dict is Some || image_dict is Some || audio_controller is Some || scene_stack is Some),
{
}

} // verus!

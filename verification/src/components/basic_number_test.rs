use crate::components::{BasicTestComponent, Component, ComponentView};
use crate::decode::{as_u32, decode_u32, field, record_field};
use crate::globals::DecodeError;
use crate::value::{JsonNumber, JsonValue, JsonView};
use vstd::prelude::*;
use vstd::string::*;

verus! {

pub const BASIC_NUMBER_TEST_COMPONENT_LOAD_ID: &'static str = "basic_number_test_component";

/// A component that holds one number.
#[derive(Debug, PartialEq, Eq)]
pub struct BasicNumberTest {
    pub number: u32,
}

impl View for BasicNumberTest {
    type V = u32;

    open spec fn view(&self) -> u32 {
        self.number
    }
}

impl BasicTestComponent for BasicNumberTest {
    const LOAD_ID: &'static str = BASIC_NUMBER_TEST_COMPONENT_LOAD_ID;

    open spec fn load_id() -> Seq<char> {
        BASIC_NUMBER_TEST_COMPONENT_LOAD_ID@
    }

    open spec fn target_name() -> Seq<char> {
        "BasicNumberTest"@
    }

    fn name() -> (name: &'static str) {
        "BasicNumberTest"
    }

    open spec fn decoded(payload: JsonView) -> Result<u32, DecodeError> {
        match record_field(payload, "number"@, 0, 1) {
            Ok(value) => as_u32(value),
            Err(e) => Err(e),
        }
    }

    open spec fn encodes(payload: JsonView, component: u32) -> bool {
        payload == JsonView::Object(
            seq![("number"@, JsonView::Number(JsonNumber::PosInt(component as u64)))],
        )
    }

    open spec fn as_component(component: u32) -> ComponentView {
        ComponentView::Number(component)
    }

    fn decode(payload: &JsonValue) -> (r: Result<Self, DecodeError>) {
        let value = field(payload, "number", 0, 1)?;
        let number = decode_u32(value)?;
        Ok(BasicNumberTest { number })
    }

    fn encode(&self) -> (payload: JsonValue) {
        let mut fields: Vec<(String, JsonValue)> = Vec::new();
        fields.push((String::from_str("number"), JsonValue::Number(JsonNumber::PosInt(self.number as u64))));
        let payload = JsonValue::Object(fields);
        proof {
            reveal_with_fuel(JsonValue::model, 2);
        }
        assert(payload@->Object_0 =~= seq![
            ("number"@, JsonView::Number(JsonNumber::PosInt(self.number as u64))),
        ]);
        payload
    }

    fn into_component(self) -> (component: Component) {
        Component::Number(self)
    }

    proof fn lemma_load_id() {
    }

    proof fn lemma_encoding_decodes(payload: JsonView, component: u32) {
        reveal_with_fuel(crate::value::lookup, 2);
    }
}

} // verus!

use crate::components::{BasicTestComponent, Component, ComponentView};
use crate::decode::{as_text, decode_text, field, record_field};
use crate::globals::DecodeError;
use crate::value::{JsonValue, JsonView};
use vstd::prelude::*;
use vstd::string::*;

verus! {

pub const BASIC_TEXT_TEST_COMPONENT_LOAD_ID: &'static str = "basic_text_test_component";

/// A component that holds one text.
#[derive(Debug, PartialEq, Eq)]
pub struct BasicTextTest {
    pub text: String,
}

impl View for BasicTextTest {
    type V = Seq<char>;

    open spec fn view(&self) -> Seq<char> {
        self.text@
    }
}

impl BasicTestComponent for BasicTextTest {
    const LOAD_ID: &'static str = BASIC_TEXT_TEST_COMPONENT_LOAD_ID;

    open spec fn load_id() -> Seq<char> {
        BASIC_TEXT_TEST_COMPONENT_LOAD_ID@
    }

    open spec fn target_name() -> Seq<char> {
        "BasicTextTest"@
    }

    fn name() -> (name: &'static str) {
        "BasicTextTest"
    }

    open spec fn decoded(payload: JsonView) -> Result<Seq<char>, DecodeError> {
        match record_field(payload, "text"@, 0, 1) {
            Ok(value) => as_text(value),
            Err(e) => Err(e),
        }
    }

    open spec fn encodes(payload: JsonView, component: Seq<char>) -> bool {
        payload == JsonView::Object(seq![("text"@, JsonView::Text(component))])
    }

    open spec fn as_component(component: Seq<char>) -> ComponentView {
        ComponentView::Text(component)
    }

    fn decode(payload: &JsonValue) -> (r: Result<Self, DecodeError>) {
        let value = field(payload, "text", 0, 1)?;
        let text = decode_text(value)?;
        Ok(BasicTextTest { text })
    }

    fn encode(&self) -> (payload: JsonValue) {
        let mut fields: Vec<(String, JsonValue)> = Vec::new();
        fields.push((String::from_str("text"), JsonValue::Text(self.text.clone())));
        let payload = JsonValue::Object(fields);
        proof {
            reveal_with_fuel(JsonValue::model, 2);
        }
        assert(payload@->Object_0 =~= seq![("text"@, JsonView::Text(self.text@))]);
        payload
    }

    fn into_component(self) -> (component: Component) {
        Component::Text(self)
    }

    proof fn lemma_load_id() {
    }

    proof fn lemma_encoding_decodes(payload: JsonView, component: Seq<char>) {
        reveal_with_fuel(crate::value::lookup, 2);
    }
}

} // verus!

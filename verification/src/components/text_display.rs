use crate::components::{Component, ComponentView};
use crate::decode::{
    as_text, as_text_list, decode_number_fields, decode_text, decode_text_list, field, name_views,
    number_fields, record_field,
};
use crate::globals::{texts, DecodeError, ErrorView, TestGlobalError};
use crate::load::JSONLoad;
use crate::value::{JsonNumber, JsonValue, JsonView};
use crate::world::{attach, EntityBuilder, World};
use vstd::prelude::*;
use vstd::string::*;

verus! {

pub const TEXT_DISPLAY_FILE_ID: &'static str = "text_display";

/// Where a text stands in its bounds from left to right.
#[derive(Debug, Clone, Copy, PartialEq, Eq, Structural)]
pub enum HorizontalAlignment {
    Left,
    Center,
    Right,
}

/// Where a text stands in its bounds from top to bottom.
#[derive(Debug, Clone, Copy, PartialEq, Eq, Structural)]
pub enum VerticalAlignment {
    Top,
    Center,
    Bottom,
}

/// The raw fields of a text display, each number as the document writes it.
#[derive(Debug, PartialEq, Eq)]
pub struct TextDisplayJSON {
    pub content: Vec<String>,
    pub position_x: JsonNumber,
    pub position_y: JsonNumber,
    pub bounds_x: JsonNumber,
    pub bounds_y: JsonNumber,
    pub size: JsonNumber,
    pub r: JsonNumber,
    pub g: JsonNumber,
    pub b: JsonNumber,
    pub a: JsonNumber,
    pub font: String,
}

/// The mathematical model of a [`TextDisplayJSON`].
pub struct TextDisplayFields {
    pub content: Seq<Seq<char>>,
    pub position_x: JsonNumber,
    pub position_y: JsonNumber,
    pub bounds_x: JsonNumber,
    pub bounds_y: JsonNumber,
    pub size: JsonNumber,
    pub r: JsonNumber,
    pub g: JsonNumber,
    pub b: JsonNumber,
    pub a: JsonNumber,
    pub font: Seq<char>,
}

impl View for TextDisplayJSON {
    type V = TextDisplayFields;

    open spec fn view(&self) -> TextDisplayFields {
        TextDisplayFields {
            content: texts(self.content@),
            position_x: self.position_x,
            position_y: self.position_y,
            bounds_x: self.bounds_x,
            bounds_y: self.bounds_y,
            size: self.size,
            r: self.r,
            g: self.g,
            b: self.b,
            a: self.a,
            font: self.font@,
        }
    }
}

/// Copies a list of texts.
pub fn clone_texts(list: &Vec<String>) -> (copy: Vec<String>)
    ensures
        copy@ == list@,
{
    let mut copy: Vec<String> = Vec::new();
    let mut i: usize = 0;
    while i < list.len()
        invariant
            i <= list.len(),
            copy@ == list@.take(i as int),
        decreases list.len() - i,
    {
        copy.push(list[i].clone());
        assert(copy@ =~= list@.take(i + 1));
        i += 1;
    }
    assert(list@.take(list@.len() as int) =~= list@);
    copy
}

impl Clone for TextDisplayJSON {
    fn clone(&self) -> (copy: TextDisplayJSON)
        ensures
            copy@ == self@,
    {
        TextDisplayJSON {
            content: clone_texts(&self.content),
            position_x: self.position_x,
            position_y: self.position_y,
            bounds_x: self.bounds_x,
            bounds_y: self.bounds_y,
            size: self.size,
            r: self.r,
            g: self.g,
            b: self.b,
            a: self.a,
            font: self.font.clone(),
        }
    }
}

/// The text display of an entity, as the description that the renderer
/// draws the text from.
#[derive(Debug, PartialEq, Eq)]
pub struct TextDisplay {
    pub content: Vec<String>,
    pub position: (JsonNumber, JsonNumber),
    pub bounds: (JsonNumber, JsonNumber),
    pub size: JsonNumber,
    pub color: (JsonNumber, JsonNumber, JsonNumber, JsonNumber),
    pub h_align: HorizontalAlignment,
    pub v_align: VerticalAlignment,
    pub font: String,
}

/// The mathematical model of a [`TextDisplay`].
pub struct TextDisplayView {
    pub content: Seq<Seq<char>>,
    pub position: (JsonNumber, JsonNumber),
    pub bounds: (JsonNumber, JsonNumber),
    pub size: JsonNumber,
    pub color: (JsonNumber, JsonNumber, JsonNumber, JsonNumber),
    pub h_align: HorizontalAlignment,
    pub v_align: VerticalAlignment,
    pub font: Seq<char>,
}

impl View for TextDisplay {
    type V = TextDisplayView;

    open spec fn view(&self) -> TextDisplayView {
        TextDisplayView {
            content: texts(self.content@),
            position: self.position,
            bounds: self.bounds,
            size: self.size,
            color: self.color,
            h_align: self.h_align,
            v_align: self.v_align,
            font: self.font@,
        }
    }
}

/// The text display that raw fields describe: the numbers are grouped, and
/// the text is centred both ways.
pub open spec fn text_display_of(fields: TextDisplayFields) -> TextDisplayView {
    TextDisplayView {
        content: fields.content,
        position: (fields.position_x, fields.position_y),
        bounds: (fields.bounds_x, fields.bounds_y),
        size: fields.size,
        color: (fields.r, fields.g, fields.b, fields.a),
        h_align: HorizontalAlignment::Center,
        v_align: VerticalAlignment::Center,
        font: fields.font,
    }
}

impl TextDisplay {
    /// The text display that raw fields describe.
    pub fn from(json: TextDisplayJSON) -> (display: TextDisplay)
        ensures
            display@ == text_display_of(json@),
    {
        TextDisplay {
            content: json.content,
            position: (json.position_x, json.position_y),
            bounds: (json.bounds_x, json.bounds_y),
            size: json.size,
            color: (json.r, json.g, json.b, json.a),
            h_align: HorizontalAlignment::Center,
            v_align: VerticalAlignment::Center,
            font: json.font,
        }
    }
}

/// The names of the numeric fields of a text display, in the order of the record.
pub open spec fn text_display_number_names() -> Seq<Seq<char>> {
    seq![
        "position_x"@,
        "position_y"@,
        "bounds_x"@,
        "bounds_y"@,
        "size"@,
        "r"@,
        "g"@,
        "b"@,
        "a"@,
    ]
}

/// The fields of the text display that a payload holds: the content first,
/// then the numbers, then the font.
pub open spec fn text_display_fields(payload: JsonView) -> Result<TextDisplayFields, DecodeError> {
    match record_field(payload, "content"@, 0, 11) {
        Err(e) => Err(e),
        Ok(content_value) => match as_text_list(content_value) {
            Err(e) => Err(e),
            Ok(content) => match number_fields(payload, text_display_number_names(), 1, 11) {
                Err(e) => Err(e),
                Ok(numbers) => match record_field(payload, "font"@, 10, 11) {
                    Err(e) => Err(e),
                    Ok(font_value) => match as_text(font_value) {
                        Err(e) => Err(e),
                        Ok(font) => Ok(
                            TextDisplayFields {
                                content,
                                position_x: numbers[0],
                                position_y: numbers[1],
                                bounds_x: numbers[2],
                                bounds_y: numbers[3],
                                size: numbers[4],
                                r: numbers[5],
                                g: numbers[6],
                                b: numbers[7],
                                a: numbers[8],
                                font,
                            },
                        ),
                    },
                },
            },
        },
    }
}

pub fn decode_text_display_fields(payload: &JsonValue) -> (r: Result<TextDisplayJSON, DecodeError>)
    ensures
        match r {
            Ok(fields) => text_display_fields(payload@) == Ok::<TextDisplayFields, DecodeError>(
                fields@,
            ),
            Err(e) => text_display_fields(payload@) == Err::<TextDisplayFields, DecodeError>(e),
        },
{
    let content = decode_text_list(field(payload, "content", 0, 11)?)?;
    let mut names: Vec<&'static str> = Vec::new();
    names.push("position_x");
    names.push("position_y");
    names.push("bounds_x");
    names.push("bounds_y");
    names.push("size");
    names.push("r");
    names.push("g");
    names.push("b");
    names.push("a");
    assert(name_views(names@) =~= text_display_number_names());
    let numbers = decode_number_fields(payload, &names, 1, 11)?;
    let font = decode_text(field(payload, "font", 10, 11)?)?;
    Ok(
        TextDisplayJSON {
            content,
            position_x: numbers[0],
            position_y: numbers[1],
            bounds_x: numbers[2],
            bounds_y: numbers[3],
            size: numbers[4],
            r: numbers[5],
            g: numbers[6],
            b: numbers[7],
            a: numbers[8],
            font,
        },
    )
}

/// The loader of text displays. It decodes the payload when it is made, and
/// holds the decoded fields.
#[derive(Debug)]
pub struct TextDisplayLoader {
    text_display_json: TextDisplayJSON,
}

impl TextDisplayLoader {
    /// The fields that the loader holds.
    pub closed spec fn cached(&self) -> TextDisplayFields {
        self.text_display_json@
    }

    /// Makes a loader from an envelope, which must carry the tag of text
    /// displays and a payload that holds their fields. The tag is looked at
    /// first.
    pub fn from_json(json: JSONLoad) -> (r: Result<Self, TestGlobalError>)
        ensures
            r is Ok <==> json.load_type_id@ == TEXT_DISPLAY_FILE_ID@ && text_display_fields(
                json.actual_value@,
            ) is Ok,
            r matches Ok(loader) ==> text_display_fields(json.actual_value@) == Ok::<
                TextDisplayFields,
                DecodeError,
            >(loader.cached()),
            r matches Err(e) ==> e@ == (if json.load_type_id@ != TEXT_DISPLAY_FILE_ID@ {
                ErrorView::LoadIDMatchError {
                    expected_id: TEXT_DISPLAY_FILE_ID@,
                    actual_id: json.load_type_id@,
                }
            } else {
                ErrorView::ConvertJSONError {
                    value: json.actual_value@,
                    into_type: "TextDisplayJSON"@,
                    source: text_display_fields(json.actual_value@)->Err_0,
                }
            }),
    {
        let expected = String::from_str(TEXT_DISPLAY_FILE_ID);
        if json.load_type_id == expected {
            match decode_text_display_fields(&json.actual_value) {
                Ok(text_display_json) => Ok(TextDisplayLoader { text_display_json }),
                Err(cause) => Err(
                    TestGlobalError::ConvertJSONError {
                        value: json.actual_value,
                        into_type: String::from_str("TextDisplayJSON"),
                        source: cause,
                    },
                ),
            }
        } else {
            Err(
                TestGlobalError::LoadIDMatchError {
                    expected_id: expected,
                    actual_id: json.load_type_id,
                },
            )
        }
    }

    /// Attaches the text display that the held fields describe, in the place
    /// of an earlier text display if the builder holds one.
    pub fn load_component(&self, builder: EntityBuilder, world: &World) -> (r: Result<
        EntityBuilder,
        TestGlobalError,
    >)
        ensures
            r matches Ok(extended) && extended@ == attach(
                builder@,
                ComponentView::TextDisplay(text_display_of(self.cached())),
            ),
    {
        Ok(
            builder.with(
                Component::TextDisplay(TextDisplay::from(self.text_display_json.clone())),
            ),
        )
    }

    /// Replaces the held fields by those of `new_value`, which must carry the
    /// tag of text displays and a payload that decodes. Any failure leaves
    /// the loader as it was.
    pub fn set_value(&mut self, new_value: JSONLoad) -> (r: Result<(), TestGlobalError>)
        ensures
            r is Ok <==> new_value.load_type_id@ == TEXT_DISPLAY_FILE_ID@ && text_display_fields(
                new_value.actual_value@,
            ) is Ok,
            r is Ok ==> text_display_fields(new_value.actual_value@) == Ok::<
                TextDisplayFields,
                DecodeError,
            >(final(self).cached()),
            r matches Err(e) ==> *final(self) == *old(self) && e@ == (if new_value.load_type_id@
                != TEXT_DISPLAY_FILE_ID@ {
                ErrorView::LoadIDMatchError {
                    expected_id: TEXT_DISPLAY_FILE_ID@,
                    actual_id: new_value.load_type_id@,
                }
            } else {
                ErrorView::ConvertJSONError {
                    value: new_value.actual_value@,
                    into_type: "TextDisplayJSON"@,
                    source: text_display_fields(new_value.actual_value@)->Err_0,
                }
            }),
    {
        let expected = String::from_str(TEXT_DISPLAY_FILE_ID);
        if new_value.load_type_id == expected {
            match decode_text_display_fields(&new_value.actual_value) {
                Ok(text_display_json) => {
                    self.text_display_json = text_display_json;
                    Ok(())
                },
                Err(cause) => Err(
                    TestGlobalError::ConvertJSONError {
                        value: new_value.actual_value,
                        into_type: String::from_str("TextDisplayJSON"),
                        source: cause,
                    },
                ),
            }
        } else {
            Err(
                TestGlobalError::LoadIDMatchError {
                    expected_id: expected,
                    actual_id: new_value.load_type_id,
                },
            )
        }
    }

    pub fn get_component_name(&self) -> (name: String)
        ensures
            name@ == TEXT_DISPLAY_FILE_ID@,
    {
        String::from_str(TEXT_DISPLAY_FILE_ID)
    }
}

} // verus!

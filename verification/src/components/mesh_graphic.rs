use crate::decode::{decode_number_fields, name_views, number_fields};
use crate::globals::{DecodeError, ErrorView, TestGlobalError};
use crate::load::JSONLoad;
use crate::value::{JsonNumber, JsonValue, JsonView};
use crate::world::{attach, EntityBuilder, World};
use crate::components::{Component, ComponentView};
use vstd::prelude::*;
use vstd::string::*;

verus! {

pub const MESH_GRAPHIC_LOAD_ID: &'static str = "mesh_graphic";

/// The raw fields of a mesh graphic: a rectangle, the colour of its outline
/// and the width of the stroke, each as the document writes the number.
#[derive(Debug, Clone, Copy, PartialEq, Eq, Structural)]
pub struct MeshGraphicJSON {
    pub x: JsonNumber,
    pub y: JsonNumber,
    pub width: JsonNumber,
    pub height: JsonNumber,
    pub r: JsonNumber,
    pub g: JsonNumber,
    pub b: JsonNumber,
    pub a: JsonNumber,
    pub stroke_width: JsonNumber,
}

/// The mesh graphic of an entity, as the description that the renderer
/// builds the mesh from.
#[derive(Debug, Clone, Copy, PartialEq, Eq, Structural)]
pub struct MeshGraphic {
    pub mesh: MeshGraphicJSON,
}

impl MeshGraphic {
    /// The mesh graphic that raw fields describe.
    pub fn from(mesh_json: MeshGraphicJSON) -> (graphic: MeshGraphic)
        ensures
            graphic.mesh == mesh_json,
    {
        MeshGraphic { mesh: mesh_json }
    }
}

/// The names of the fields of a mesh graphic, in the order of the record.
pub open spec fn mesh_field_names() -> Seq<Seq<char>> {
    seq!["x"@, "y"@, "width"@, "height"@, "r"@, "g"@, "b"@, "a"@, "stroke_width"@]
}

/// The fields of the mesh graphic that a payload holds.
pub open spec fn mesh_fields(payload: JsonView) -> Result<MeshGraphicJSON, DecodeError> {
    match number_fields(payload, mesh_field_names(), 0, 9) {
        Err(e) => Err(e),
        Ok(numbers) => Ok(
            MeshGraphicJSON {
                x: numbers[0],
                y: numbers[1],
                width: numbers[2],
                height: numbers[3],
                r: numbers[4],
                g: numbers[5],
                b: numbers[6],
                a: numbers[7],
                stroke_width: numbers[8],
            },
        ),
    }
}

pub fn decode_mesh_fields(payload: &JsonValue) -> (r: Result<MeshGraphicJSON, DecodeError>)
    ensures
        r == mesh_fields(payload@),
{
    let mut names: Vec<&'static str> = Vec::new();
    names.push("x");
    names.push("y");
    names.push("width");
    names.push("height");
    names.push("r");
    names.push("g");
    names.push("b");
    names.push("a");
    names.push("stroke_width");
    assert(name_views(names@) =~= mesh_field_names());
    let numbers = decode_number_fields(payload, &names, 0, 9)?;
    Ok(
        MeshGraphicJSON {
            x: numbers[0],
            y: numbers[1],
            width: numbers[2],
            height: numbers[3],
            r: numbers[4],
            g: numbers[5],
            b: numbers[6],
            a: numbers[7],
            stroke_width: numbers[8],
        },
    )
}

/// The loader of mesh graphics. Unlike the generic loader it decodes the
/// payload when it is made, and holds the decoded fields.
#[derive(Debug)]
pub struct MeshGraphicLoader {
    mesh_json: MeshGraphicJSON,
}

impl MeshGraphicLoader {
    /// The fields that the loader holds.
    pub closed spec fn cached(&self) -> MeshGraphicJSON {
        self.mesh_json
    }

    /// Makes a loader from an envelope, which must carry the tag of mesh
    /// graphics and a payload that holds their fields. The tag is looked at
    /// first.
    pub fn from_json(json: JSONLoad) -> (r: Result<Self, TestGlobalError>)
        ensures
            r is Ok <==> json.load_type_id@ == MESH_GRAPHIC_LOAD_ID@ && mesh_fields(
                json.actual_value@,
            ) is Ok,
            r matches Ok(loader) ==> mesh_fields(json.actual_value@) == Ok::<
                MeshGraphicJSON,
                DecodeError,
            >(loader.cached()),
            r matches Err(e) ==> e@ == (if json.load_type_id@ != MESH_GRAPHIC_LOAD_ID@ {
                ErrorView::LoadIDMatchError {
                    expected_id: MESH_GRAPHIC_LOAD_ID@,
                    actual_id: json.load_type_id@,
                }
            } else {
                ErrorView::ConvertJSONError {
                    value: json.actual_value@,
                    into_type: "MeshGraphicJSON"@,
                    source: mesh_fields(json.actual_value@)->Err_0,
                }
            }),
    {
        let expected = String::from_str(MESH_GRAPHIC_LOAD_ID);
        if json.load_type_id == expected {
            match decode_mesh_fields(&json.actual_value) {
                Ok(mesh_json) => Ok(MeshGraphicLoader { mesh_json }),
                Err(cause) => Err(
                    TestGlobalError::ConvertJSONError {
                        value: json.actual_value,
                        into_type: String::from_str("MeshGraphicJSON"),
                        source: cause,
                    },
                ),
            }
        } else {
            Err(
                TestGlobalError::LoadIDMatchError {
                    expected_id: expected,
                    actual_id: json.load_type_id,
                },
            )
        }
    }

    /// Attaches the mesh graphic that the held fields describe, in the place
    /// of an earlier mesh graphic if the builder holds one.
    pub fn load_component(&self, builder: EntityBuilder, world: &World) -> (r: Result<
        EntityBuilder,
        TestGlobalError,
    >)
        ensures
            r matches Ok(extended) && extended@ == attach(
                builder@,
                ComponentView::MeshGraphic(self.cached()),
            ),
    {
        Ok(builder.with(Component::MeshGraphic(MeshGraphic::from(self.mesh_json))))
    }

    /// Replaces the held fields by those of `new_value`, which must carry the
    /// tag of mesh graphics and a payload that decodes. Any failure leaves
    /// the loader as it was.
    pub fn set_value(&mut self, new_value: JSONLoad) -> (r: Result<(), TestGlobalError>)
        ensures
            r is Ok <==> new_value.load_type_id@ == MESH_GRAPHIC_LOAD_ID@ && mesh_fields(
                new_value.actual_value@,
            ) is Ok,
            r is Ok ==> mesh_fields(new_value.actual_value@) == Ok::<MeshGraphicJSON, DecodeError>(
                final(self).cached(),
            ),
            r matches Err(e) ==> *final(self) == *old(self) && e@ == (if new_value.load_type_id@
                != MESH_GRAPHIC_LOAD_ID@ {
                ErrorView::LoadIDMatchError {
                    expected_id: MESH_GRAPHIC_LOAD_ID@,
                    actual_id: new_value.load_type_id@,
                }
            } else {
                ErrorView::ConvertJSONError {
                    value: new_value.actual_value@,
                    into_type: "MeshGraphicJSON"@,
                    source: mesh_fields(new_value.actual_value@)->Err_0,
                }
            }),
    {
        let expected = String::from_str(MESH_GRAPHIC_LOAD_ID);
        if new_value.load_type_id == expected {
            match decode_mesh_fields(&new_value.actual_value) {
                Ok(mesh_json) => {
                    self.mesh_json = mesh_json;
                    Ok(())
                },
                Err(cause) => Err(
                    TestGlobalError::ConvertJSONError {
                        value: new_value.actual_value,
                        into_type: String::from_str("MeshGraphicJSON"),
                        source: cause,
                    },
                ),
            }
        } else {
            Err(
                TestGlobalError::LoadIDMatchError {
                    expected_id: expected,
                    actual_id: new_value.load_type_id,
                },
            )
        }
    }

    pub fn get_component_name(&self) -> (name: String)
        ensures
            name@ == "Mesh Graphic"@,
    {
        String::from_str("Mesh Graphic")
    }
}

} // verus!

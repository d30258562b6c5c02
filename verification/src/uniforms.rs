//! How an entity's local-to-world transform is described to shaders.
//!
//! The transform is a 4 × 4 matrix of 32-bit numbers. Shaders receive it
//! either as the uniform `Object` or, when instancing, as four vertex
//! attributes, one per matrix column, packed back to back.

use vstd::prelude::*;
use vstd::slice::slice_to_vec;

verus! {

/// The names under which one field of a uniform block is known.
pub struct FieldInfo {
    pub name: &'static str,
    pub uniform_name: &'static str,
    pub texture_name: &'static str,
    pub sampler_name: &'static str,
    pub is_instanceable: bool,
}

/// How a field is bound: as a uniform of `size` bytes, or as a texture.
#[derive(Clone, Copy, Debug, PartialEq, Eq, Structural)]
pub enum FieldBindType {
    Uniform { size: usize },
    Texture,
}

/// The format of a vertex attribute.
#[derive(Clone, Copy, Debug, PartialEq, Eq, Structural)]
pub enum VertexFormat {
    /// Four 32-bit numbers, 16 bytes.
    Float4,
}

/// Whether a vertex buffer advances per vertex or per instance.
#[derive(Clone, Copy, Debug, PartialEq, Eq, Structural)]
pub enum InputStepMode {
    Vertex,
    Instance,
}

/// One attribute of a vertex buffer.
#[derive(Debug, PartialEq, Eq)]
pub struct VertexAttributeDescriptor {
    pub name: String,
    pub offset: u64,
    pub format: VertexFormat,
    pub shader_location: u32,
}

/// The layout of a vertex buffer.
#[derive(Debug, PartialEq, Eq)]
pub struct VertexBufferDescriptor {
    pub name: String,
    pub stride: u64,
    pub step_mode: InputStepMode,
    pub attributes: Vec<VertexAttributeDescriptor>,
}

/// A handle to a texture.
#[derive(Clone, Copy, Debug, PartialEq, Eq, Structural)]
pub struct TextureHandle(pub u64);

/// The name of the vertex attribute that carries matrix column `column`.
pub open spec fn column_name(column: int) -> Seq<char> {
    if column == 0 {
        "I_Object_Model_0"@
    } else if column == 1 {
        "I_Object_Model_1"@
    } else if column == 2 {
        "I_Object_Model_2"@
    } else {
        "I_Object_Model_3"@
    }
}

/// Whether `attribute` carries matrix column `column`: it is named after the
/// column, sits at shader location `column`, and starts 16 bytes after the
/// column before it.
pub open spec fn carries_column(attribute: VertexAttributeDescriptor, column: int) -> bool {
    &&& attribute.name@ == column_name(column)
    &&& attribute.format == VertexFormat::Float4
    &&& attribute.offset == 16 * column
    &&& attribute.shader_location == column
}

/// Whether `name` and `expected` are the same text.
fn named(name: &str, expected: &str) -> (same: bool)
    ensures
        same == (name@ == expected@),
{
    name.to_owned() == expected.to_owned()
}

/// The matrix that takes an entity's local space to world space, as the 64
/// bytes a shader reads. Its model, `self@`, is those bytes.
pub struct LocalToWorld {
    matrix: [u8; 64],
}

impl LocalToWorld {
    /// The bytes of the matrix.
    pub closed spec fn view(&self) -> Seq<u8> {
        self.matrix@
    }

    /// The transform with the given matrix bytes.
    pub fn new(matrix: [u8; 64]) -> (transform: Self)
        ensures
            transform@ == matrix@,
    {
        LocalToWorld { matrix }
    }

    /// The fields of the uniform block: the one field `object`, bound as the
    /// uniform `Object`, without texture or sampler, and instanceable.
    pub fn get_field_infos() -> (infos: Vec<FieldInfo>)
        ensures
            infos@.len() == 1,
            infos@[0].name@ == "object"@,
            infos@[0].uniform_name@ == "Object"@,
            infos@[0].texture_name@ == ""@,
            infos@[0].sampler_name@ == ""@,
            infos@[0].is_instanceable,
    {
        vec![
            FieldInfo {
                name: "object",
                uniform_name: "Object",
                texture_name: "",
                sampler_name: "",
                is_instanceable: true,
            },
        ]
    }

    /// The bytes of the uniform called `name`: the matrix for `Object`,
    /// nothing for any other name.
    pub fn get_uniform_bytes(&self, name: &str) -> (bytes: Option<Vec<u8>>)
        ensures
            match bytes {
                Some(bytes) => name@ == "Object"@ && bytes@ == self@,
                None => name@ != "Object"@,
            },
    {
        if named(name, "Object") {
            Some(slice_to_vec(self.matrix.as_slice()))
        } else {
            None
        }
    }

    /// The shader definitions the transform asks for: none.
    pub fn get_shader_defs(&self) -> (defs: Option<Vec<String>>)
        ensures
            defs.is_none(),
    {
        None
    }

    /// How the field called `name` is bound: `object` is a uniform of 64
    /// bytes, and there is no other field.
    pub fn get_field_bind_type(&self, name: &str) -> (bind_type: Option<FieldBindType>)
        ensures
            bind_type == (if name@ == "object"@ {
                Some(FieldBindType::Uniform { size: 64 })
            } else {
                None
            }),
    {
        if named(name, "object") {
            Some(FieldBindType::Uniform { size: 64 })
        } else {
            None
        }
    }

    /// The texture behind the field called `name`: the transform has none.
    pub fn get_uniform_texture(&self, name: &str) -> (texture: Option<TextureHandle>)
        ensures
            texture.is_none(),
    {
        None
    }

    /// The bytes of the uniform called `name`, borrowed: the matrix for
    /// `Object`, nothing for any other name.
    pub fn get_uniform_bytes_ref(&self, name: &str) -> (bytes: Option<&[u8]>)
        ensures
            match bytes {
                Some(bytes) => name@ == "Object"@ && bytes@ == self@,
                None => name@ != "Object"@,
            },
    {
        if named(name, "Object") {
            Some(self.matrix.as_slice())
        } else {
            None
        }
    }

    /// The layout of a buffer of transforms for instancing: the buffer
    /// `Object`, advancing per instance by 64 bytes, with one attribute per
    /// matrix column.
    pub fn get_vertex_buffer_descriptor() -> (descriptor: VertexBufferDescriptor)
        ensures
            descriptor.name@ == "Object"@,
            descriptor.stride == 64,
            descriptor.step_mode == InputStepMode::Instance,
            descriptor.attributes@.len() == 4,
            forall|column: int|
                0 <= column < 4 ==> carries_column(#[trigger] descriptor.attributes@[column], column),
    {
        VertexBufferDescriptor {
            attributes: vec![
                VertexAttributeDescriptor {
                    name: "I_Object_Model_0".to_owned(),
                    format: VertexFormat::Float4,
                    offset: 0,
                    shader_location: 0,
                },
                VertexAttributeDescriptor {
                    name: "I_Object_Model_1".to_owned(),
                    format: VertexFormat::Float4,
                    offset: 16,
                    shader_location: 1,
                },
                VertexAttributeDescriptor {
                    name: "I_Object_Model_2".to_owned(),
                    format: VertexFormat::Float4,
                    offset: 32,
                    shader_location: 2,
                },
                VertexAttributeDescriptor {
                    name: "I_Object_Model_3".to_owned(),
                    format: VertexFormat::Float4,
                    offset: 48,
                    shader_location: 3,
                },
            ],
            name: "Object".to_owned(),
            step_mode: InputStepMode::Instance,
            stride: 64,
        }
    }
}

} // verus!

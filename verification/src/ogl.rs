//! Handles of the raw OpenGL binding layer, and the few decisions it makes on
//! numbers the driver hands back: which query reports the buffer bound to a target,
//! and how a framebuffer status is reported.

use vstd::prelude::*;

use crate::glenum;

verus! {

/// The location of a vertex attribute in a linked program.
#[derive(Copy, Clone, Debug)]
pub struct AttributeLocation(pub u32);

/// The location of a uniform variable in a linked program.
#[derive(Copy, Clone, Debug)]
pub struct UniformLocation(pub u32);

/// A shader object.
#[derive(Copy, Clone, Debug)]
pub struct Shader(pub u32);

/// A program object.
#[derive(Copy, Clone, Debug)]
pub struct Program(pub u32);

/// A buffer object.
#[derive(Copy, Clone, Debug)]
pub struct Buffer(pub u32);

/// A framebuffer object.
#[derive(Copy, Clone, Debug)]
pub struct Framebuffer(pub u32);

/// A texture object.
#[derive(Copy, Clone, Debug)]
pub struct Texture(pub u32);

/// A vertex array object.
#[derive(Copy, Clone, Debug)]
pub struct VertexArrayObject(pub u32);

/// What the driver reports of an active attribute or uniform of a program: its
/// array size, its type and its name.
pub struct ActiveInfo {
    size: u32,
    type_: u32,
    name: String,
}

impl View for ActiveInfo {
    type V = (u32, u32, Seq<char>);

    closed spec fn view(&self) -> (u32, u32, Seq<char>) {
        (self.size, self.type_, self.name@)
    }
}

impl ActiveInfo {
    /// Bundles the size, type and name of an active variable.
    pub fn new(size: u32, type_: u32, name: String) -> (r: ActiveInfo)
        ensures
            r@ == (size, type_, name@),
    {
        ActiveInfo { size, type_, name }
    }

    /// The array size, as the signed integer the graphics API uses.
    pub fn size(&self) -> (r: i32)
        ensures
            r == self@.0 as i32,
    {
        self.size as i32
    }

    /// The type of the variable (a graphics API enumeration value).
    pub fn type_(&self) -> (r: u32)
        ensures
            r == self@.1,
    {
        self.type_
    }

    /// A copy of the name of the variable.
    pub fn name(&self) -> (r: String)
        ensures
            r@ == self@.2,
    {
        self.name.clone()
    }
}

/// The stages a shader object can be made for.
#[derive(Copy, Clone, Debug, Eq, PartialEq, Structural)]
pub enum ShaderType {
    Compute,
    Vertex,
    TessControl,
    TessEvaluation,
    Geometry,
    Fragment,
}

/// The graphics API enumeration value of a shader stage.
pub open spec fn spec_shader_const(t: ShaderType) -> u32 {
    match t {
        ShaderType::Compute => 0x91B9,
        ShaderType::Vertex => 0x8B31,
        ShaderType::TessControl => 0x8E88,
        ShaderType::TessEvaluation => 0x8E87,
        ShaderType::Geometry => 0x8DD9,
        ShaderType::Fragment => 0x8B30,
    }
}

impl ShaderType {
    /// The enumeration value that names this stage in the graphics API.
    pub fn to_const(&self) -> (r: u32)
        ensures
            r == spec_shader_const(*self),
    {
        match self {
            ShaderType::Compute => glenum::gl_compute_shader(),
            ShaderType::Vertex => glenum::gl_vertex_shader(),
            ShaderType::TessControl => glenum::gl_tess_control_shader(),
            ShaderType::TessEvaluation => glenum::gl_tess_evaluation_shader(),
            ShaderType::Geometry => glenum::gl_geometry_shader(),
            ShaderType::Fragment => glenum::gl_fragment_shader(),
        }
    }
}

/// The component types vertex and index data can have.
#[derive(Copy, Clone, Debug, Eq, PartialEq, Structural)]
pub enum DataType {
    Float,
    Byte,
    UnsignedByte,
    Short,
    UnsignedShort,
    Int,
    UnsignedInt,
}

/// The graphics API enumeration value of a component type.
pub open spec fn spec_data_type_const(t: DataType) -> u32 {
    match t {
        DataType::Float => 0x1406,
        DataType::Byte => 0x1400,
        DataType::UnsignedByte => 0x1401,
        DataType::Short => 0x1402,
        DataType::UnsignedShort => 0x1403,
        DataType::Int => 0x1404,
        DataType::UnsignedInt => 0x1405,
    }
}

impl DataType {
    /// The enumeration value that names this component type in the graphics API.
    pub fn to_const(&self) -> (r: u32)
        ensures
            r == spec_data_type_const(*self),
    {
        match self {
            DataType::Float => glenum::gl_float(),
            DataType::Byte => glenum::gl_byte(),
            DataType::UnsignedByte => glenum::gl_unsigned_byte(),
            DataType::Short => glenum::gl_short(),
            DataType::UnsignedShort => glenum::gl_unsigned_short(),
            DataType::Int => glenum::gl_int(),
            DataType::UnsignedInt => glenum::gl_unsigned_int(),
        }
    }
}

/// The buffer targets that can be bound to an indexed binding point here.
pub open spec fn is_indexed_buffer_target(target: u32) -> bool {
    target == 0x8892 || target == 0x8893 || target == 0x8A11
}

/// The state query that reports which buffer is bound to a target.
pub open spec fn spec_binding_query(target: u32) -> u32 {
    if target == 0x8892 {
        0x8894
    } else if target == 0x8893 {
        0x8895
    } else {
        0x8A28
    }
}

/// The state query to ask, before binding a buffer to an indexed binding point of
/// `target`, which buffer is bound there now (array, element array and uniform
/// buffers only).
pub fn binding_query(target: u32) -> (r: u32)
    requires
        is_indexed_buffer_target(target),
    ensures
        r == spec_binding_query(target),
{
    if target == glenum::gl_array_buffer() {
        glenum::gl_array_buffer_binding()
    } else if target == glenum::gl_element_array_buffer() {
        glenum::gl_element_array_buffer_binding()
    } else {
        glenum::gl_uniform_buffer_binding()
    }
}

/// The name under which a framebuffer status is reported, or `None` for a complete
/// framebuffer.
pub open spec fn spec_framebuffer_status_name(status: u32) -> Option<Seq<char>> {
    if status == 0x8CD5 {
        None
    } else if status == 0x8CD6 {
        Some("FRAMEBUFFER_INCOMPLETE_ATTACHMENT"@)
    } else if status == 0x8CDB {
        Some("FRAMEBUFFER_INCOMPLETE_DRAW_BUFFER"@)
    } else if status == 0x8CD7 {
        Some("FRAMEBUFFER_INCOMPLETE_MISSING_ATTACHMENT"@)
    } else if status == 0x8CDD {
        Some("FRAMEBUFFER_UNSUPPORTED"@)
    } else if status == 0x8219 {
        Some("FRAMEBUFFER_UNDEFINED"@)
    } else if status == 0x8CDC {
        Some("FRAMEBUFFER_INCOMPLETE_READ_BUFFER"@)
    } else if status == 0x8D56 {
        Some("FRAMEBUFFER_INCOMPLETE_MULTISAMPLE"@)
    } else if status == 0x8DA8 {
        Some("FRAMEBUFFER_INCOMPLETE_LAYER_TARGETS"@)
    } else {
        Some("Unknown framebuffer error"@)
    }
}

/// Turns the status of the bound framebuffer into a result: `Ok` when it is
/// complete, else an error that names the status.
pub fn framebuffer_status(status: u32) -> (r: Result<(), String>)
    ensures
        match spec_framebuffer_status_name(status) {
            None => r is Ok,
            Some(name) => r matches Err(s) && s@ == name,
        },
        r is Ok <==> status == 0x8CD5,
{
    if status == glenum::gl_framebuffer_complete() {
        Ok(())
    } else if status == glenum::gl_framebuffer_incomplete_attachment() {
        Err(String::from_str("FRAMEBUFFER_INCOMPLETE_ATTACHMENT"))
    } else if status == glenum::gl_framebuffer_incomplete_draw_buffer() {
        Err(String::from_str("FRAMEBUFFER_INCOMPLETE_DRAW_BUFFER"))
    } else if status == glenum::gl_framebuffer_incomplete_missing_attachment() {
        Err(String::from_str("FRAMEBUFFER_INCOMPLETE_MISSING_ATTACHMENT"))
    } else if status == glenum::gl_framebuffer_unsupported() {
        Err(String::from_str("FRAMEBUFFER_UNSUPPORTED"))
    } else if status == glenum::gl_framebuffer_undefined() {
        Err(String::from_str("FRAMEBUFFER_UNDEFINED"))
    } else if status == glenum::gl_framebuffer_incomplete_read_buffer() {
        Err(String::from_str("FRAMEBUFFER_INCOMPLETE_READ_BUFFER"))
    } else if status == glenum::gl_framebuffer_incomplete_multisample() {
        Err(String::from_str("FRAMEBUFFER_INCOMPLETE_MULTISAMPLE"))
    } else if status == glenum::gl_framebuffer_incomplete_layer_targets() {
        Err(String::from_str("FRAMEBUFFER_INCOMPLETE_LAYER_TARGETS"))
    } else {
        Err(String::from_str("Unknown framebuffer error"))
    }
}

} // verus!

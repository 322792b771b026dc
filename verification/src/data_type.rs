//! The element types that can be stored in GPU buffers and textures, and the
//! OpenGL enumeration values that describe them.

use vstd::prelude::*;

use crate::color::Color;
use crate::glenum;

verus! {

/// Makes `cgmath::Vector2`, the two-component vector type, known to the verifier as an opaque
/// type; nothing is claimed of its contents.
#[verifier::external_type_specification]
#[verifier::external_body]
#[verifier::reject_recursive_types(S)]
pub struct ExVector2<S>(cgmath::Vector2<S>);

/// Makes `cgmath::Vector3`, the three-component vector type, known to the verifier as an opaque
/// type; nothing is claimed of its contents.
#[verifier::external_type_specification]
#[verifier::external_body]
#[verifier::reject_recursive_types(S)]
pub struct ExVector3<S>(cgmath::Vector3<S>);

/// Makes `cgmath::Vector4`, the four-component vector type, known to the verifier as an opaque
/// type; nothing is claimed of its contents.
#[verifier::external_type_specification]
#[verifier::external_body]
#[verifier::reject_recursive_types(S)]
pub struct ExVector4<S>(cgmath::Vector4<S>);

/// Makes `cgmath::Quaternion`, the quaternion type, known to the verifier as an opaque
/// type; nothing is claimed of its contents.
#[verifier::external_type_specification]
#[verifier::external_body]
#[verifier::reject_recursive_types(S)]
pub struct ExQuaternion<S>(cgmath::Quaternion<S>);

/// Makes `cgmath::Matrix2`, the 2x2 matrix type, known to the verifier as an opaque
/// type; nothing is claimed of its contents.
#[verifier::external_type_specification]
#[verifier::external_body]
#[verifier::reject_recursive_types(S)]
pub struct ExMatrix2<S>(cgmath::Matrix2<S>);

/// Makes `cgmath::Matrix3`, the 3x3 matrix type, known to the verifier as an opaque
/// type; nothing is claimed of its contents.
#[verifier::external_type_specification]
#[verifier::external_body]
#[verifier::reject_recursive_types(S)]
pub struct ExMatrix3<S>(cgmath::Matrix3<S>);

/// Makes `cgmath::Matrix4`, the 4x4 matrix type, known to the verifier as an opaque
/// type; nothing is claimed of its contents.
#[verifier::external_type_specification]
#[verifier::external_body]
#[verifier::reject_recursive_types(S)]
pub struct ExMatrix4<S>(cgmath::Matrix4<S>);

/// The shape of the data sent to a shader uniform.
#[derive(Debug, Copy, Clone, PartialEq, Eq, Structural)]
pub enum UniformType {
    Value,
    Vec2,
    Vec3,
    Vec4,
    Mat2,
    Mat3,
    Mat4,
}

/// Picks one of four values by a channel count from one to four.
pub open spec fn by_channel_count(size: u32, one: u32, two: u32, three: u32, four: u32) -> u32 {
    if size == 1 {
        one
    } else if size == 2 {
        two
    } else if size == 3 {
        three
    } else {
        four
    }
}

/// A type that can be stored in a GPU buffer or texture.
pub trait DataType {
    /// Whether the type has an internal texture format: every type but the larger
    /// matrices, which do not fit in the channels of a texel.
    spec fn has_internal_format() -> bool;

    /// The internal texture format of the type.
    spec fn spec_internal_format() -> u32;

    /// The OpenGL data type of each component.
    spec fn spec_data_type() -> u32;

    /// The number of components.
    spec fn spec_size() -> u32;

    /// The internal texture format of the type.
    fn internal_format() -> (r: u32)
        requires
            Self::has_internal_format(),
        ensures
            r == Self::spec_internal_format(),
    ;

    /// The OpenGL data type of each component.
    fn data_type() -> (r: u32)
        ensures
            r == Self::spec_data_type(),
    ;

    /// The number of components.
    fn size() -> (r: u32)
        ensures
            r == Self::spec_size(),
    ;
}

/// A single number type from which vectors and matrices are built.
pub trait PrimitiveDataType: DataType + Copy + Default {
    /// The internal texture format for the given number of channels of this type.
    spec fn spec_internal_format_with_size(size: u32) -> u32;

    /// The internal texture format for the given number of channels of this type.
    fn internal_format_with_size(size: u32) -> (r: u32)
        requires
            1 <= size <= 4,
        ensures
            r == Self::spec_internal_format_with_size(size),
    ;
}

impl PrimitiveDataType for u8 {
    open spec fn spec_internal_format_with_size(size: u32) -> u32 {
        by_channel_count(size, 0x8229, 0x822B, 0x8051, 0x8058)
    }

    fn internal_format_with_size(size: u32) -> u32 {
        if size == 1 {
            glenum::gl_r8()
        } else if size == 2 {
            glenum::gl_rg8()
        } else if size == 3 {
            glenum::gl_rgb8()
        } else {
            glenum::gl_rgba8()
        }
    }
}

impl DataType for u8 {
    open spec fn has_internal_format() -> bool {
        true
    }

    open spec fn spec_internal_format() -> u32 {
        0x8229
    }

    open spec fn spec_data_type() -> u32 {
        0x1401
    }

    open spec fn spec_size() -> u32 {
        1
    }

    fn internal_format() -> u32 {
        Self::internal_format_with_size(1)
    }

    fn data_type() -> u32 {
        glenum::gl_unsigned_byte()
    }

    fn size() -> u32 {
        1
    }
}

impl PrimitiveDataType for u16 {
    open spec fn spec_internal_format_with_size(size: u32) -> u32 {
        by_channel_count(size, 0x8234, 0x823A, 0x8D77, 0x8D76)
    }

    fn internal_format_with_size(size: u32) -> u32 {
        if size == 1 {
            glenum::gl_r16ui()
        } else if size == 2 {
            glenum::gl_rg16ui()
        } else if size == 3 {
            glenum::gl_rgb16ui()
        } else {
            glenum::gl_rgba16ui()
        }
    }
}

impl DataType for u16 {
    open spec fn has_internal_format() -> bool {
        true
    }

    open spec fn spec_internal_format() -> u32 {
        0x8234
    }

    open spec fn spec_data_type() -> u32 {
        0x1403
    }

    open spec fn spec_size() -> u32 {
        1
    }

    fn internal_format() -> u32 {
        Self::internal_format_with_size(1)
    }

    fn data_type() -> u32 {
        glenum::gl_unsigned_short()
    }

    fn size() -> u32 {
        1
    }
}

impl PrimitiveDataType for u32 {
    open spec fn spec_internal_format_with_size(size: u32) -> u32 {
        by_channel_count(size, 0x8236, 0x823C, 0x8D71, 0x8D70)
    }

    fn internal_format_with_size(size: u32) -> u32 {
        if size == 1 {
            glenum::gl_r32ui()
        } else if size == 2 {
            glenum::gl_rg32ui()
        } else if size == 3 {
            glenum::gl_rgb32ui()
        } else {
            glenum::gl_rgba32ui()
        }
    }
}

impl DataType for u32 {
    open spec fn has_internal_format() -> bool {
        true
    }

    open spec fn spec_internal_format() -> u32 {
        0x8236
    }

    open spec fn spec_data_type() -> u32 {
        0x1405
    }

    open spec fn spec_size() -> u32 {
        1
    }

    fn internal_format() -> u32 {
        Self::internal_format_with_size(1)
    }

    fn data_type() -> u32 {
        glenum::gl_unsigned_int()
    }

    fn size() -> u32 {
        1
    }
}

impl PrimitiveDataType for i8 {
    open spec fn spec_internal_format_with_size(size: u32) -> u32 {
        by_channel_count(size, 0x8231, 0x8237, 0x8D8F, 0x8D8E)
    }

    fn internal_format_with_size(size: u32) -> u32 {
        if size == 1 {
            glenum::gl_r8i()
        } else if size == 2 {
            glenum::gl_rg8i()
        } else if size == 3 {
            glenum::gl_rgb8i()
        } else {
            glenum::gl_rgba8i()
        }
    }
}

impl DataType for i8 {
    open spec fn has_internal_format() -> bool {
        true
    }

    open spec fn spec_internal_format() -> u32 {
        0x8231
    }

    open spec fn spec_data_type() -> u32 {
        0x1400
    }

    open spec fn spec_size() -> u32 {
        1
    }

    fn internal_format() -> u32 {
        Self::internal_format_with_size(1)
    }

    fn data_type() -> u32 {
        glenum::gl_byte()
    }

    fn size() -> u32 {
        1
    }
}

impl PrimitiveDataType for i16 {
    open spec fn spec_internal_format_with_size(size: u32) -> u32 {
        by_channel_count(size, 0x8233, 0x8239, 0x8D89, 0x8D88)
    }

    fn internal_format_with_size(size: u32) -> u32 {
        if size == 1 {
            glenum::gl_r16i()
        } else if size == 2 {
            glenum::gl_rg16i()
        } else if size == 3 {
            glenum::gl_rgb16i()
        } else {
            glenum::gl_rgba16i()
        }
    }
}

impl DataType for i16 {
    open spec fn has_internal_format() -> bool {
        true
    }

    open spec fn spec_internal_format() -> u32 {
        0x8233
    }

    open spec fn spec_data_type() -> u32 {
        0x1402
    }

    open spec fn spec_size() -> u32 {
        1
    }

    fn internal_format() -> u32 {
        Self::internal_format_with_size(1)
    }

    fn data_type() -> u32 {
        glenum::gl_short()
    }

    fn size() -> u32 {
        1
    }
}

impl PrimitiveDataType for i32 {
    open spec fn spec_internal_format_with_size(size: u32) -> u32 {
        by_channel_count(size, 0x8235, 0x823B, 0x8D83, 0x8D82)
    }

    fn internal_format_with_size(size: u32) -> u32 {
        if size == 1 {
            glenum::gl_r32i()
        } else if size == 2 {
            glenum::gl_rg32i()
        } else if size == 3 {
            glenum::gl_rgb32i()
        } else {
            glenum::gl_rgba32i()
        }
    }
}

impl DataType for i32 {
    open spec fn has_internal_format() -> bool {
        true
    }

    open spec fn spec_internal_format() -> u32 {
        0x8235
    }

    open spec fn spec_data_type() -> u32 {
        0x1404
    }

    open spec fn spec_size() -> u32 {
        1
    }

    fn internal_format() -> u32 {
        Self::internal_format_with_size(1)
    }

    fn data_type() -> u32 {
        glenum::gl_int()
    }

    fn size() -> u32 {
        1
    }
}

impl<T: PrimitiveDataType> DataType for cgmath::Vector2<T> {
    open spec fn has_internal_format() -> bool {
        true
    }

    open spec fn spec_internal_format() -> u32 {
        T::spec_internal_format_with_size(2)
    }

    open spec fn spec_data_type() -> u32 {
        T::spec_data_type()
    }

    open spec fn spec_size() -> u32 {
        2
    }

    fn internal_format() -> u32 {
        T::internal_format_with_size(2)
    }

    fn data_type() -> u32 {
        T::data_type()
    }

    fn size() -> u32 {
        2
    }
}

impl<T: PrimitiveDataType> DataType for [T; 2] {
    open spec fn has_internal_format() -> bool {
        true
    }

    open spec fn spec_internal_format() -> u32 {
        T::spec_internal_format_with_size(2)
    }

    open spec fn spec_data_type() -> u32 {
        T::spec_data_type()
    }

    open spec fn spec_size() -> u32 {
        2
    }

    fn internal_format() -> u32 {
        T::internal_format_with_size(2)
    }

    fn data_type() -> u32 {
        T::data_type()
    }

    fn size() -> u32 {
        2
    }
}

impl<T: PrimitiveDataType> DataType for cgmath::Vector3<T> {
    open spec fn has_internal_format() -> bool {
        true
    }

    open spec fn spec_internal_format() -> u32 {
        T::spec_internal_format_with_size(3)
    }

    open spec fn spec_data_type() -> u32 {
        T::spec_data_type()
    }

    open spec fn spec_size() -> u32 {
        3
    }

    fn internal_format() -> u32 {
        T::internal_format_with_size(3)
    }

    fn data_type() -> u32 {
        T::data_type()
    }

    fn size() -> u32 {
        3
    }
}

impl<T: PrimitiveDataType> DataType for [T; 3] {
    open spec fn has_internal_format() -> bool {
        true
    }

    open spec fn spec_internal_format() -> u32 {
        T::spec_internal_format_with_size(3)
    }

    open spec fn spec_data_type() -> u32 {
        T::spec_data_type()
    }

    open spec fn spec_size() -> u32 {
        3
    }

    fn internal_format() -> u32 {
        T::internal_format_with_size(3)
    }

    fn data_type() -> u32 {
        T::data_type()
    }

    fn size() -> u32 {
        3
    }
}

impl<T: PrimitiveDataType> DataType for cgmath::Vector4<T> {
    open spec fn has_internal_format() -> bool {
        true
    }

    open spec fn spec_internal_format() -> u32 {
        T::spec_internal_format_with_size(4)
    }

    open spec fn spec_data_type() -> u32 {
        T::spec_data_type()
    }

    open spec fn spec_size() -> u32 {
        4
    }

    fn internal_format() -> u32 {
        T::internal_format_with_size(4)
    }

    fn data_type() -> u32 {
        T::data_type()
    }

    fn size() -> u32 {
        4
    }
}

impl<T: PrimitiveDataType> DataType for [T; 4] {
    open spec fn has_internal_format() -> bool {
        true
    }

    open spec fn spec_internal_format() -> u32 {
        T::spec_internal_format_with_size(4)
    }

    open spec fn spec_data_type() -> u32 {
        T::spec_data_type()
    }

    open spec fn spec_size() -> u32 {
        4
    }

    fn internal_format() -> u32 {
        T::internal_format_with_size(4)
    }

    fn data_type() -> u32 {
        T::data_type()
    }

    fn size() -> u32 {
        4
    }
}

impl<T: PrimitiveDataType> DataType for cgmath::Quaternion<T> {
    open spec fn has_internal_format() -> bool {
        true
    }

    open spec fn spec_internal_format() -> u32 {
        T::spec_internal_format_with_size(4)
    }

    open spec fn spec_data_type() -> u32 {
        T::spec_data_type()
    }

    open spec fn spec_size() -> u32 {
        4
    }

    fn internal_format() -> u32 {
        T::internal_format_with_size(4)
    }

    fn data_type() -> u32 {
        T::data_type()
    }

    fn size() -> u32 {
        4
    }
}

impl<T: PrimitiveDataType> DataType for cgmath::Matrix2<T> {
    open spec fn has_internal_format() -> bool {
        true
    }

    open spec fn spec_internal_format() -> u32 {
        T::spec_internal_format_with_size(4)
    }

    open spec fn spec_data_type() -> u32 {
        T::spec_data_type()
    }

    open spec fn spec_size() -> u32 {
        4
    }

    fn internal_format() -> u32 {
        T::internal_format_with_size(4)
    }

    fn data_type() -> u32 {
        T::data_type()
    }

    fn size() -> u32 {
        4
    }
}

impl<T: PrimitiveDataType> DataType for cgmath::Matrix3<T> {
    open spec fn has_internal_format() -> bool {
        false
    }

    open spec fn spec_internal_format() -> u32 {
        0
    }

    open spec fn spec_data_type() -> u32 {
        T::spec_data_type()
    }

    open spec fn spec_size() -> u32 {
        9
    }

    fn internal_format() -> u32 {
        0
    }

    fn data_type() -> u32 {
        T::data_type()
    }

    fn size() -> u32 {
        9
    }
}

impl<T: PrimitiveDataType> DataType for cgmath::Matrix4<T> {
    open spec fn has_internal_format() -> bool {
        false
    }

    open spec fn spec_internal_format() -> u32 {
        0
    }

    open spec fn spec_data_type() -> u32 {
        T::spec_data_type()
    }

    open spec fn spec_size() -> u32 {
        16
    }

    fn internal_format() -> u32 {
        0
    }

    fn data_type() -> u32 {
        T::data_type()
    }

    fn size() -> u32 {
        16
    }
}

impl DataType for Color {
    open spec fn has_internal_format() -> bool {
        true
    }

    open spec fn spec_internal_format() -> u32 {
        0x8058
    }

    open spec fn spec_data_type() -> u32 {
        0x1401
    }

    open spec fn spec_size() -> u32 {
        4
    }

    fn internal_format() -> u32 {
        u8::internal_format_with_size(4)
    }

    fn data_type() -> u32 {
        u8::data_type()
    }

    fn size() -> u32 {
        4
    }
}

/// The internal texture format for the given number of channels of 32 bit floats.
pub fn f32_internal_format_with_size(size: u32) -> (r: u32)
    requires
        1 <= size <= 4,
    ensures
        r == by_channel_count(size, 0x822E, 0x8230, 0x8815, 0x8814),
{
    if size == 1 {
        glenum::gl_r32f()
    } else if size == 2 {
        glenum::gl_rg32f()
    } else if size == 3 {
        glenum::gl_rgb32f()
    } else {
        glenum::gl_rgba32f()
    }
}

/// The internal texture format for the given number of channels of 16 bit floats.
pub fn half_float_internal_format_with_size(size: u32) -> (r: u32)
    requires
        1 <= size <= 4,
    ensures
        r == by_channel_count(size, 0x822D, 0x822F, 0x881B, 0x881A),
{
    if size == 1 {
        glenum::gl_r16f()
    } else if size == 2 {
        glenum::gl_rg16f()
    } else if size == 3 {
        glenum::gl_rgb16f()
    } else {
        glenum::gl_rgba16f()
    }
}

/// The OpenGL data type of 16 bit floats.
pub fn half_float_data_type() -> (r: u32)
    ensures
        r == 0x140B,
{
    glenum::gl_half_float()
}

/// The OpenGL data type of 32 bit floats.
pub fn f32_data_type() -> (r: u32)
    ensures
        r == 0x1406,
{
    glenum::gl_float()
}

/// The texture format for data with the given number of channels: red, red-green,
/// red-green-blue or red-green-blue-alpha.
pub fn format_from_size(size: u32) -> (r: u32)
    requires
        1 <= size <= 4,
    ensures
        r == by_channel_count(size, 0x1903, 0x8227, 0x1907, 0x1908),
{
    if size == 1 {
        glenum::gl_red()
    } else if size == 2 {
        glenum::gl_rg()
    } else if size == 3 {
        glenum::gl_rgb()
    } else {
        glenum::gl_rgba()
    }
}

/// The texture format for data of the given type.
pub fn format_from_data_type<T: DataType>() -> (r: u32)
    requires
        1 <= T::spec_size() <= 4,
    ensures
        r == by_channel_count(T::spec_size(), 0x1903, 0x8227, 0x1907, 0x1908),
{
    format_from_size(T::size())
}

/// A 24 bit depth value.
#[allow(non_camel_case_types)]
#[derive(Debug, Copy, Clone, PartialEq, Eq, Structural)]
pub struct f24 {}

/// A type that can be stored in a depth texture.
pub trait DepthDataType {
    /// The internal texture format of the type.
    spec fn spec_depth_internal_format() -> u32;

    /// The internal texture format of the type.
    fn internal_format() -> (r: u32)
        ensures
            r == Self::spec_depth_internal_format(),
    ;
}

/// The internal format of a depth texture of 16 bit floats.
pub fn half_float_depth_internal_format() -> (r: u32)
    ensures
        r == 0x81A5,
{
    glenum::gl_depth_component16()
}

impl DepthDataType for f24 {
    open spec fn spec_depth_internal_format() -> u32 {
        0x81A6
    }

    fn internal_format() -> u32 {
        glenum::gl_depth_component24()
    }
}

/// The internal format of a depth texture of 32 bit floats.
pub fn f32_depth_internal_format() -> (r: u32)
    ensures
        r == 0x8CAC,
{
    glenum::gl_depth_component32f()
}

/// The basic data type used for each element in a vertex or instance buffer.
pub trait BufferDataType: DataType {
}

impl BufferDataType for u8 {
}

impl BufferDataType for u16 {
}

impl BufferDataType for u32 {
}

impl BufferDataType for i8 {
}

impl BufferDataType for i16 {
}

impl BufferDataType for i32 {
}

impl<T: BufferDataType + PrimitiveDataType> BufferDataType for cgmath::Vector2<T> {
}

impl<T: BufferDataType + PrimitiveDataType> BufferDataType for cgmath::Vector3<T> {
}

impl<T: BufferDataType + PrimitiveDataType> BufferDataType for cgmath::Vector4<T> {
}

impl<T: BufferDataType + PrimitiveDataType> BufferDataType for [T; 2] {
}

impl<T: BufferDataType + PrimitiveDataType> BufferDataType for [T; 3] {
}

impl<T: BufferDataType + PrimitiveDataType> BufferDataType for [T; 4] {
}

impl BufferDataType for Color {
}

/// The basic data type used for each index in an element buffer.
pub trait ElementBufferDataType: DataType {
    /// The value of the index.
    spec fn spec_as_u32(&self) -> u32;

    /// Converts the index to `u32`.
    fn as_u32(&self) -> (r: u32)
        ensures
            r == self.spec_as_u32(),
    ;
}

impl ElementBufferDataType for u8 {
    open spec fn spec_as_u32(&self) -> u32 {
        *self as u32
    }

    fn as_u32(&self) -> u32 {
        *self as u32
    }
}

impl ElementBufferDataType for u16 {
    open spec fn spec_as_u32(&self) -> u32 {
        *self as u32
    }

    fn as_u32(&self) -> u32 {
        *self as u32
    }
}

impl ElementBufferDataType for u32 {
    open spec fn spec_as_u32(&self) -> u32 {
        *self
    }

    fn as_u32(&self) -> u32 {
        *self
    }
}

} // verus!

use three_d::buffer::{BufferRecord, ElementBufferRecord};
use three_d::data_type::{
    f32_data_type, f32_depth_internal_format, f32_internal_format_with_size, format_from_data_type,
    format_from_size, half_float_data_type, half_float_depth_internal_format,
    half_float_internal_format_with_size, DataType, DepthDataType, ElementBufferDataType, f24,
    PrimitiveDataType,
};
use three_d::color::Color;
use three_d::ogl::{binding_query, framebuffer_status, ActiveInfo, DataType as ComponentType, ShaderType};

#[test]
fn active_info_reports_its_fields() {
    let info = ActiveInfo::new(3, glow::FLOAT_VEC3, "position".to_string());
    assert_eq!(info.size(), 3);
    assert_eq!(info.type_(), glow::FLOAT_VEC3);
    assert_eq!(info.name(), "position");
    let huge = ActiveInfo::new(u32::MAX, 0, String::new());
    assert_eq!(huge.size(), -1);
}

#[test]
fn shader_stages_match_the_graphics_api() {
    assert_eq!(ShaderType::Vertex.to_const(), glow::VERTEX_SHADER);
    assert_eq!(ShaderType::Fragment.to_const(), glow::FRAGMENT_SHADER);
    assert_eq!(ShaderType::Compute.to_const(), glow::COMPUTE_SHADER);
    assert_eq!(ShaderType::TessControl.to_const(), glow::TESS_CONTROL_SHADER);
    assert_eq!(ShaderType::TessEvaluation.to_const(), glow::TESS_EVALUATION_SHADER);
    assert_eq!(ShaderType::Geometry.to_const(), glow::GEOMETRY_SHADER);
}

#[test]
fn component_types_match_the_graphics_api() {
    assert_eq!(ComponentType::Float.to_const(), glow::FLOAT);
    assert_eq!(ComponentType::Byte.to_const(), glow::BYTE);
    assert_eq!(ComponentType::UnsignedByte.to_const(), glow::UNSIGNED_BYTE);
    assert_eq!(ComponentType::Short.to_const(), glow::SHORT);
    assert_eq!(ComponentType::UnsignedShort.to_const(), glow::UNSIGNED_SHORT);
    assert_eq!(ComponentType::Int.to_const(), glow::INT);
    assert_eq!(ComponentType::UnsignedInt.to_const(), glow::UNSIGNED_INT);
}

#[test]
fn binding_queries_of_buffer_targets() {
    assert_eq!(binding_query(glow::ARRAY_BUFFER), glow::ARRAY_BUFFER_BINDING);
    assert_eq!(binding_query(glow::ELEMENT_ARRAY_BUFFER), glow::ELEMENT_ARRAY_BUFFER_BINDING);
    assert_eq!(binding_query(glow::UNIFORM_BUFFER), glow::UNIFORM_BUFFER_BINDING);
}

#[test]
fn framebuffer_status_strings() {
    assert_eq!(framebuffer_status(glow::FRAMEBUFFER_COMPLETE), Ok(()));
    assert_eq!(
        framebuffer_status(glow::FRAMEBUFFER_UNSUPPORTED),
        Err("FRAMEBUFFER_UNSUPPORTED".to_string())
    );
    assert_eq!(framebuffer_status(1), Err("Unknown framebuffer error".to_string()));
}

#[test]
fn primitive_formats() {
    assert_eq!(<u8 as DataType>::internal_format(), glow::R8);
    assert_eq!(<u8 as PrimitiveDataType>::internal_format_with_size(4), glow::RGBA8);
    assert_eq!(<u8 as DataType>::data_type(), glow::UNSIGNED_BYTE);
    assert_eq!(<u16 as DataType>::data_type(), glow::UNSIGNED_SHORT);
    assert_eq!(<i32 as DataType>::data_type(), glow::INT);
    assert_eq!(<u32 as DataType>::size(), 1);
    assert_eq!(<Color as DataType>::internal_format(), glow::RGBA8);
    assert_eq!(<Color as DataType>::size(), 4);
}

#[test]
fn vector_and_matrix_sizes() {
    assert_eq!(<[u8; 3] as DataType>::size(), 3);
    assert_eq!(<[u8; 3] as DataType>::internal_format(), glow::RGB8);
    assert_eq!(<cgmath::Vector2<u16> as DataType>::size(), 2);
    assert_eq!(<cgmath::Matrix3<u32> as DataType>::size(), 9);
    assert_eq!(<cgmath::Matrix4<i8> as DataType>::size(), 16);
    assert_eq!(<cgmath::Matrix4<i8> as DataType>::data_type(), glow::BYTE);
}

#[test]
fn float_formats() {
    assert_eq!(f32_internal_format_with_size(1), glow::R32F);
    assert_eq!(f32_internal_format_with_size(4), glow::RGBA32F);
    assert_eq!(half_float_internal_format_with_size(2), glow::RG16F);
    assert_eq!(half_float_data_type(), glow::HALF_FLOAT);
    assert_eq!(f32_data_type(), glow::FLOAT);
    assert_eq!(half_float_depth_internal_format(), glow::DEPTH_COMPONENT16);
    assert_eq!(f32_depth_internal_format(), glow::DEPTH_COMPONENT32F);
    assert_eq!(<f24 as DepthDataType>::internal_format(), glow::DEPTH_COMPONENT24);
}

#[test]
fn texture_formats_by_channel_count() {
    assert_eq!(format_from_size(1), glow::RED);
    assert_eq!(format_from_size(2), glow::RG);
    assert_eq!(format_from_size(3), glow::RGB);
    assert_eq!(format_from_size(4), glow::RGBA);
    assert_eq!(format_from_data_type::<[u8; 2]>(), glow::RG);
}

#[test]
fn element_indices_widen() {
    assert_eq!(7u8.as_u32(), 7);
    assert_eq!(700u16.as_u32(), 700);
    assert_eq!(70000u32.as_u32(), 70000);
}

#[test]
fn vertex_buffer_usage_follows_its_history() {
    let mut b = BufferRecord::new();
    assert_eq!(b.attribute_count(), 0);
    assert_eq!(b.fill_usage(), glow::STATIC_DRAW);
    b.record_fill(12, glow::FLOAT, 3);
    assert_eq!(b.attribute_count(), 12);
    assert_eq!(b.data_type(), glow::FLOAT);
    assert_eq!(b.data_size(), 3);
    assert_eq!(b.fill_usage(), glow::DYNAMIC_DRAW);
}

#[test]
fn element_buffer_counts_triangles() {
    let mut b = ElementBufferRecord::new();
    assert_eq!(b.count(), 0);
    assert_eq!(b.fill_usage(), glow::STATIC_DRAW);
    b.record_fill(9, glow::UNSIGNED_SHORT);
    assert_eq!(b.count(), 9);
    assert_eq!(b.triangle_count(), 3);
    assert_eq!(b.data_type(), glow::UNSIGNED_SHORT);
    b.record_fill(10, glow::UNSIGNED_INT);
    assert_eq!(b.triangle_count(), 3);
}

#[test]
fn instance_rows_take_the_first_three_rows() {
    let a: [u32; 16] = [0, 1, 2, 3, 10, 11, 12, 13, 20, 21, 22, 23, 30, 31, 32, 33];
    let b: [u32; 16] = [100, 101, 102, 103, 110, 111, 112, 113, 120, 121, 122, 123, 130, 131, 132, 133];
    let r = three_d::instanced::instance_rows(&vec![a, b]);
    assert_eq!(r.row1, vec![0, 10, 20, 30, 100, 110, 120, 130]);
    assert_eq!(r.row2, vec![1, 11, 21, 31, 101, 111, 121, 131]);
    assert_eq!(r.row3, vec![2, 12, 22, 32, 102, 112, 122, 132]);
    assert_eq!(r.instance_count, 2);
    let empty = three_d::instanced::instance_rows(&vec![]);
    assert_eq!(empty.row1.len(), 0);
    assert_eq!(empty.instance_count, 0);
}

#[test]
fn internal_formats_by_type_and_channel_count() {
    let u8s = [glow::R8, glow::RG8, glow::RGB8, glow::RGBA8];
    let u16s = [glow::R16UI, glow::RG16UI, glow::RGB16UI, glow::RGBA16UI];
    let u32s = [glow::R32UI, glow::RG32UI, glow::RGB32UI, glow::RGBA32UI];
    let i8s = [glow::R8I, glow::RG8I, glow::RGB8I, glow::RGBA8I];
    let i16s = [glow::R16I, glow::RG16I, glow::RGB16I, glow::RGBA16I];
    let i32s = [glow::R32I, glow::RG32I, glow::RGB32I, glow::RGBA32I];
    let f16s = [glow::R16F, glow::RG16F, glow::RGB16F, glow::RGBA16F];
    let f32s = [glow::R32F, glow::RG32F, glow::RGB32F, glow::RGBA32F];
    for size in 1..=4u32 {
        let k = (size - 1) as usize;
        assert_eq!(<u8 as PrimitiveDataType>::internal_format_with_size(size), u8s[k]);
        assert_eq!(<u16 as PrimitiveDataType>::internal_format_with_size(size), u16s[k]);
        assert_eq!(<u32 as PrimitiveDataType>::internal_format_with_size(size), u32s[k]);
        assert_eq!(<i8 as PrimitiveDataType>::internal_format_with_size(size), i8s[k]);
        assert_eq!(<i16 as PrimitiveDataType>::internal_format_with_size(size), i16s[k]);
        assert_eq!(<i32 as PrimitiveDataType>::internal_format_with_size(size), i32s[k]);
        assert_eq!(half_float_internal_format_with_size(size), f16s[k]);
        assert_eq!(f32_internal_format_with_size(size), f32s[k]);
    }
    assert_eq!(<[i16; 4] as DataType>::internal_format(), glow::RGBA16I);
    assert_eq!(<cgmath::Vector3<u32> as DataType>::internal_format(), glow::RGB32UI);
    assert_eq!(<cgmath::Quaternion<i8> as DataType>::internal_format(), glow::RGBA8I);
    assert_eq!(<cgmath::Matrix2<u16> as DataType>::internal_format(), glow::RGBA16UI);
}

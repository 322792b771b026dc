use three_d::cpu_element_buffer::{widen_u16_vec, widen_u8_vec, CpuElementBuffer};
use three_d::cpu_mesh::{
    arrow_indices, circle_indices, cylinder_indices, max_index, sphere_indices, square_indices,
    CpuMeshLayout, Indices,
};
use three_d::error::CoreError;
use three_d::object_cpu_mesh::{has_transparent_color, FlatMeshError, FlatMeshLayout};

fn layout(indices: Option<Indices>, position_count: usize) -> CpuMeshLayout {
    CpuMeshLayout {
        indices,
        position_count,
        normal_count: None,
        tangent_count: None,
        uv_count: None,
        color_count: None,
    }
}

#[test]
fn indices_widen_to_u32() {
    assert_eq!(Indices::U8(vec![1, 2, 255]).into_u32(), vec![1u32, 2, 255]);
    assert_eq!(Indices::U16(vec![7, 65535]).to_u32(), vec![7u32, 65535]);
    assert_eq!(Indices::U32(vec![70000]).len(), 1);
    assert_eq!(Indices::default().len(), 0);
}

#[test]
fn element_buffer_widens_to_u32() {
    assert_eq!(widen_u8_vec(&vec![0u8, 200]), vec![0u32, 200]);
    assert_eq!(widen_u16_vec(&vec![300u16]), vec![300u32]);
    let b = CpuElementBuffer::U16(vec![1, 2, 3]);
    assert_eq!(b.len(), 3);
    assert_eq!(b.to_u32(), vec![1u32, 2, 3]);
    assert_eq!(b.into_u32(), vec![1u32, 2, 3]);
    assert_eq!(CpuElementBuffer::default().len(), 0);
}

#[test]
fn max_index_of_indices() {
    assert_eq!(max_index(&vec![3, 9, 2]), 9);
    assert_eq!(max_index(&vec![]), 0);
}

#[test]
fn valid_indexed_mesh() {
    let mut m = layout(Some(Indices::U8(vec![0, 1, 2, 2, 3, 0])), 4);
    m.normal_count = Some(4);
    assert_eq!(m.validate(), Ok(()));
    assert_eq!(m.triangles(), vec![(0, 1, 2), (2, 3, 0)]);
}

#[test]
fn index_count_not_divisible_by_three() {
    let m = layout(Some(Indices::U16(vec![0, 1, 2, 3])), 4);
    assert_eq!(m.validate(), Err(CoreError::InvalidNumberOfVertices(4)));
}

#[test]
fn position_count_not_divisible_by_three() {
    let m = layout(None, 7);
    assert_eq!(m.validate(), Err(CoreError::InvalidNumberOfVertices(7)));
}

#[test]
fn short_normal_buffer_is_reported() {
    let mut m = layout(Some(Indices::U32(vec![0, 1, 5])), 6);
    m.normal_count = Some(5);
    m.uv_count = Some(2);
    assert_eq!(
        m.validate(),
        Err(CoreError::InvalidBufferLength("normal".to_string(), 6, 5))
    );
}

#[test]
fn short_position_buffer_is_reported_first() {
    let mut m = layout(Some(Indices::U32(vec![0, 1, 9])), 3);
    m.color_count = Some(1);
    assert_eq!(
        m.validate(),
        Err(CoreError::InvalidBufferLength("position".to_string(), 10, 3))
    );
}

#[test]
fn short_uv_buffer_is_reported() {
    let mut m = layout(None, 6);
    m.uv_count = Some(3);
    assert_eq!(
        m.validate(),
        Err(CoreError::InvalidBufferLength("uv coordinate".to_string(), 6, 3))
    );
    assert_eq!(m.triangles(), vec![(0, 1, 2), (3, 4, 5)]);
}

#[test]
fn square_index_buffer() {
    assert_eq!(square_indices(), vec![0u8, 1, 2, 2, 3, 0]);
}

#[test]
fn circle_index_buffer() {
    assert_eq!(circle_indices(4), vec![0u16, 0, 1, 0, 1, 2, 0, 2, 3, 0, 3, 0]);
    let m = layout(Some(Indices::U16(circle_indices(16))), 16);
    assert_eq!(m.validate(), Ok(()));
}

#[test]
fn cylinder_index_buffer() {
    assert_eq!(
        cylinder_indices(3),
        vec![0u16, 1, 4, 0, 4, 3, 1, 2, 5, 1, 5, 4, 2, 0, 3, 2, 3, 5]
    );
    let m = layout(Some(Indices::U16(cylinder_indices(10))), 20);
    assert_eq!(m.validate(), Ok(()));
}

#[test]
fn sphere_index_buffer() {
    assert_eq!(
        sphere_indices(2),
        vec![
            0u16, 1, 2, 0, 2, 3, 0, 3, 4, 0, 4, 1, 1, 5, 2, 2, 5, 3, 3, 5, 4, 4, 5, 1
        ]
    );
    let s = sphere_indices(3);
    assert_eq!(s.len(), 72);
    assert_eq!(s.iter().max(), Some(&13u16));
    let m = layout(Some(Indices::U16(sphere_indices(8))), 2 + 7 * 16);
    assert_eq!(m.validate(), Ok(()));
}

#[test]
fn arrow_joins_head_after_tail() {
    assert_eq!(arrow_indices(vec![0, 2, 1], &vec![0, 1, 1]), vec![0u16, 2, 1, 3, 4, 4]);
}

#[test]
fn flat_mesh_with_indices() {
    let ok = FlatMeshLayout {
        indices: Some(three_d::object_cpu_mesh::Indices::U32(vec![0, 1, 2])),
        position_len: 9,
        normal_len: Some(9),
        uv_len: Some(6),
        color_len: Some(12),
    };
    assert_eq!(ok.validate(), Ok(()));
    let bad = FlatMeshLayout {
        indices: Some(three_d::object_cpu_mesh::Indices::U16(vec![0, 1, 2])),
        position_len: 9,
        normal_len: None,
        uv_len: Some(5),
        color_len: Some(10),
    };
    assert_eq!(
        bad.validate(),
        Err(FlatMeshError::InvalidBufferLength("color".to_string(), 3))
    );
}

#[test]
fn flat_mesh_without_indices() {
    let m = FlatMeshLayout {
        indices: None,
        position_len: 10,
        normal_len: None,
        uv_len: None,
        color_len: None,
    };
    assert_eq!(m.validate(), Err(FlatMeshError::InvalidPositionBuffer(10)));
    let idx = FlatMeshLayout {
        indices: Some(three_d::object_cpu_mesh::Indices::U8(vec![0, 1])),
        position_len: 9,
        normal_len: None,
        uv_len: None,
        color_len: None,
    };
    assert_eq!(
        idx.validate(),
        Err(FlatMeshError::InvalidBufferLength("index".to_string(), 2))
    );
}

#[test]
fn largest_u8_index_needs_that_many_positions() {
    let m = layout(Some(Indices::U8(vec![0, 1, 255])), 3);
    assert_eq!(
        m.validate(),
        Err(CoreError::InvalidBufferLength("position".to_string(), 256, 3))
    );
    let m = layout(Some(Indices::U16(vec![0, 1, 65535])), 65536);
    assert_eq!(m.validate(), Ok(()));
}

#[test]
fn flat_mesh_index_past_the_vertices() {
    let m = FlatMeshLayout {
        indices: Some(three_d::object_cpu_mesh::Indices::U8(vec![0, 1, 20])),
        position_len: 9,
        normal_len: None,
        uv_len: None,
        color_len: None,
    };
    assert_eq!(m.validate(), Err(FlatMeshError::InvalidIndexBuffer(9)));
    let m = FlatMeshLayout {
        indices: Some(three_d::object_cpu_mesh::Indices::U32(vec![0, 1, 3])),
        position_len: 9,
        normal_len: None,
        uv_len: None,
        color_len: None,
    };
    assert_eq!(m.validate(), Err(FlatMeshError::InvalidIndexBuffer(9)));
    let m = FlatMeshLayout {
        indices: Some(three_d::object_cpu_mesh::Indices::U32(vec![0, 1, 2])),
        position_len: 9,
        normal_len: None,
        uv_len: None,
        color_len: None,
    };
    assert_eq!(m.validate(), Ok(()));
}

#[test]
fn transparency_follows_the_alpha_bytes() {
    assert!(!has_transparent_color(&vec![10, 20, 30, 255, 0, 0, 0, 255]));
    assert!(has_transparent_color(&vec![255, 255, 255, 255, 255, 255, 255, 128]));
    assert!(!has_transparent_color(&vec![1, 2, 3, 255, 9, 9]));
    assert!(!has_transparent_color(&vec![]));
}

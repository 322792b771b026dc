use three_d::renderable::{indices_by_position, Renderable};
use three_d::static_mesh::{mesh_from_model, Attribute, Error, StaticMesh};

fn bits(values: &[f32]) -> Vec<u32> {
    values.iter().map(|v| v.to_bits()).collect()
}

#[test]
fn mesh_needs_an_attribute() {
    match StaticMesh::create(vec![0, 1, 2], vec![]) {
        Err(Error::NeedPositionAttributeToCreateMesh { message }) => {
            assert_eq!(message, "Need at least the position attribute to create a mesh.")
        }
        _ => panic!("expected an error"),
    }
}

#[test]
fn static_mesh_counts_and_lookup() {
    let positions = Attribute::new("position", 3, bits(&[0.0, 0.0, 0.0, 1.0, 0.0, 0.0, 0.0, 1.0, 0.0]));
    let uvs = Attribute::new("uv", 2, bits(&[0.0, 0.0, 1.0, 0.0, 0.0, 1.0]));
    let mesh = StaticMesh::create(vec![0, 1, 2], vec![positions, uvs]).unwrap();
    assert_eq!(mesh.no_vertices(), 3);
    assert_eq!(mesh.no_faces(), 1);
    assert_eq!(mesh.indices(), &vec![0, 1, 2]);
    let uv = mesh.attribute("uv").unwrap();
    assert_eq!(uv.no_components, 2);
    assert_eq!(f32::from_bits(uv.data[2]), 1.0);
    assert!(mesh.attribute("normal").is_none());
    assert_eq!(Renderable::indices(&mesh), vec![0, 1, 2]);
    assert_eq!(Renderable::no_vertices(&mesh), 3);
    assert_eq!(Renderable::attribute(&mesh, "uv").unwrap().name, "uv");
}

#[test]
fn model_without_indices_gets_one_per_vertex() {
    let mesh = mesh_from_model(vec![], bits(&[0.0; 9]), vec![]).unwrap();
    assert_eq!(mesh.indices(), &vec![0, 1, 2]);
    assert!(mesh.attribute("normal").is_none());
    assert_eq!(mesh.attribute("position").unwrap().no_components, 3);
}

#[test]
fn model_with_indices_and_normals() {
    let mesh = mesh_from_model(vec![2, 1, 0], bits(&[0.0; 9]), bits(&[1.0; 9])).unwrap();
    assert_eq!(mesh.indices(), &vec![2, 1, 0]);
    let n = mesh.attribute("normal").unwrap();
    assert_eq!(f32::from_bits(n.data[8]), 1.0);
}

#[test]
fn corners_become_positions_of_their_vertices() {
    let vertices = vec![40usize, 10, 30, 10];
    let corners = vec![10usize, 30, 40, 30];
    assert_eq!(indices_by_position(&vertices, &corners), vec![1, 2, 0, 2]);
}

#[test]
fn cloned_mesh_keeps_indices_and_attributes() {
    let positions = Attribute::new("position", 3, bits(&[0.0, 1.0, 2.0, 3.0, 4.0, 5.0, 6.0, 7.0, 8.0]));
    let mesh = StaticMesh::create(vec![2, 0, 1], vec![positions]).unwrap();
    let copy = mesh.clone();
    assert_eq!(copy.indices(), &vec![2, 0, 1]);
    let p = copy.attribute("position").unwrap();
    assert_eq!(p.no_components, 3);
    assert_eq!(f32::from_bits(p.data[4]), 4.0);
}

use scene_renderer::model::{
    import_mesh, resolve_material, triangle_counts, LoadError, Material, MeshSource, Model,
};

fn quad(material_id: Option<usize>) -> MeshSource {
    MeshSource {
        name: "quad".to_string(),
        position_count: 12,
        texcoord_count: 8,
        normal_count: 12,
        indices: vec![0, 1, 2, 0, 2, 3],
        material_id,
    }
}

fn material(name: &str) -> Material {
    Material {
        name: name.to_string(),
        diffuse_texture: "diffuse.png".to_string(),
        normal_texture: "normal.png".to_string(),
    }
}

#[test]
fn quad_imports_with_corner_counts() {
    let (mesh, geometry) = import_mesh(&quad(None), 1).unwrap();
    assert_eq!(mesh.name, "quad");
    assert_eq!(mesh.num_elements, 6);
    assert_eq!(mesh.material, 0);
    assert_eq!(geometry.vertex_count, 4);
    assert_eq!(geometry.triangle_counts, vec![2, 1, 2, 1]);
}

#[test]
fn declared_material_is_kept() {
    let (mesh, _) = import_mesh(&quad(Some(2)), 3).unwrap();
    assert_eq!(mesh.material, 2);
}

#[test]
fn counts_include_unused_vertices_as_zero() {
    assert_eq!(triangle_counts(&vec![1, 1, 2], 4), vec![0, 2, 1, 0]);
    assert_eq!(triangle_counts(&vec![], 2), vec![0, 0]);
}

#[test]
fn missing_texcoords_is_an_error() {
    let mut src = quad(None);
    src.texcoord_count = 7;
    assert_eq!(import_mesh(&src, 1).unwrap_err(), LoadError::MissingTexcoords);
}

#[test]
fn missing_normals_is_an_error() {
    let mut src = quad(None);
    src.normal_count = 0;
    assert_eq!(import_mesh(&src, 1).unwrap_err(), LoadError::MissingNormals);
}

#[test]
fn partial_triangle_is_an_error() {
    let mut src = quad(None);
    src.indices.push(1);
    assert_eq!(import_mesh(&src, 1).unwrap_err(), LoadError::IndicesNotTriangles);
}

#[test]
fn out_of_range_index_is_an_error() {
    let mut src = quad(None);
    src.indices[4] = 4;
    assert_eq!(import_mesh(&src, 1).unwrap_err(), LoadError::IndexOutOfRange);
}

#[test]
fn missing_material_is_an_error() {
    assert_eq!(import_mesh(&quad(None), 0).unwrap_err(), LoadError::MaterialOutOfRange);
    assert_eq!(import_mesh(&quad(Some(1)), 1).unwrap_err(), LoadError::MaterialOutOfRange);
    assert_eq!(resolve_material(None, 1), Ok(0));
    assert_eq!(resolve_material(Some(3), 3), Err(LoadError::MaterialOutOfRange));
}

#[test]
fn load_keeps_mesh_order() {
    let mut second = quad(Some(1));
    second.name = "second".to_string();
    let sources = vec![quad(None), second];
    let (model, geometry) = Model::load(&sources, vec![material("a"), material("b")]).unwrap();
    assert_eq!(model.meshes.len(), 2);
    assert_eq!(model.meshes[0].name, "quad");
    assert_eq!(model.meshes[1].name, "second");
    assert_eq!(model.meshes[1].material, 1);
    assert_eq!(model.materials[1].name, "b");
    assert_eq!(geometry.len(), 2);
}

#[test]
fn load_fails_with_first_error() {
    let mut bad_index = quad(None);
    bad_index.indices[0] = 9;
    let mut bad_normals = quad(None);
    bad_normals.normal_count = 3;
    let sources = vec![quad(None), bad_index, bad_normals];
    let r = Model::load(&sources, vec![material("a")]);
    assert_eq!(r.unwrap_err(), LoadError::IndexOutOfRange);
}

#[test]
fn well_formedness_checks_material_indices() {
    let sources = vec![quad(Some(0))];
    let (mut model, _) = Model::load(&sources, vec![material("a")]).unwrap();
    assert!(model.is_well_formed());
    model.meshes[0].material = 1;
    assert!(!model.is_well_formed());
}

#[test]
fn empty_mesh_list_loads() {
    let (model, geometry) = Model::load(&vec![], vec![]).unwrap();
    assert!(model.meshes.is_empty());
    assert!(geometry.is_empty());
    assert!(model.is_well_formed());
}

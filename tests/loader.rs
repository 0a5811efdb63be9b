use collada_loader::gate::{extension, is_compatible, SUPPORTED_EXTENSION};
use collada_loader::identity::{
    entity_path, first_present, resolve_identity, InvocationParameters, DEFAULT_APPLICATION_ID,
};
use collada_loader::run::{plan, Plan};
use collada_loader::scene::{albedo_of, map_mesh, map_scene, Material, MeshElement};

fn params(filepath: &str) -> InvocationParameters {
    InvocationParameters {
        filepath: filepath.to_string(),
        application_id: None,
        opened_application_id: None,
        recording_id: None,
        opened_recording_id: None,
        entity_path_prefix: None,
    }
}

fn mesh(first: f32, n: usize, with_normals: bool) -> MeshElement<f32, 3> {
    let vertices: Vec<[f32; 3]> = (0..n).map(|i| [first + i as f32, 0.0, 1.0]).collect();
    let normals = if with_normals { vec![[0.0, 0.0, 1.0]; n] } else { Vec::new() };
    MeshElement { vertices, normals }
}

#[test]
fn extension_is_lower_case() {
    assert_eq!(extension("scenes/Model.DAE"), "dae");
    assert_eq!(extension("x.tar.gz"), "gz");
}

#[test]
fn extension_of_paths_without_one() {
    assert_eq!(extension(""), "");
    assert_eq!(extension("/"), "");
    assert_eq!(extension("model"), "");
    assert_eq!(extension(".bashrc"), "");
    assert_eq!(extension("dir.d/file"), "");
    assert_eq!(extension("a/.."), "");
    assert_eq!(extension("model."), "");
}

#[test]
fn extension_skips_trailing_separators_and_dots() {
    assert_eq!(extension("a/b.dae/"), "dae");
    assert_eq!(extension("a/b.dae/./"), "dae");
    assert_eq!(extension("..hidden.Dae"), "dae");
    assert_eq!(extension("d/é.DAE"), "dae");
}

#[test]
fn gate_accepts_collada_files_only() {
    assert_eq!(SUPPORTED_EXTENSION, "dae");
    assert!(is_compatible(true, "model.dae"));
    assert!(is_compatible(true, "dir/MODEL.Dae"));
    assert!(!is_compatible(true, "model.obj"));
    assert!(!is_compatible(true, "model"));
}

#[test]
fn gate_declines_missing_files_and_directories() {
    assert!(!is_compatible(false, "model.dae"));
    assert!(!is_compatible(false, "scenes.dae/"));
}

#[test]
fn first_present_prefers_the_first() {
    let a = Some("A".to_string());
    let b = Some("B".to_string());
    assert_eq!(first_present(&b, &a), Some("B".to_string()));
    assert_eq!(first_present(&None, &a), Some("A".to_string()));
    assert_eq!(first_present(&None, &None), None);
}

#[test]
fn opened_application_outranks_application() {
    let mut p = params("model.dae");
    p.application_id = Some("A".to_string());
    p.opened_application_id = Some("B".to_string());
    assert_eq!(resolve_identity(&p).stream_name, "B");
}

#[test]
fn application_used_when_alone() {
    let mut p = params("model.dae");
    p.application_id = Some("A".to_string());
    assert_eq!(resolve_identity(&p).stream_name, "A");
}

#[test]
fn default_application_label() {
    let p = params("model.dae");
    let id = resolve_identity(&p);
    assert_eq!(id.stream_name, "external_data_loader");
    assert_eq!(DEFAULT_APPLICATION_ID, "external_data_loader");
    assert_eq!(id.stream_recording_id, None);
}

#[test]
fn recording_precedence() {
    let mut p = params("model.dae");
    p.recording_id = Some("r1".to_string());
    assert_eq!(resolve_identity(&p).stream_recording_id, Some("r1".to_string()));
    p.opened_recording_id = Some("r2".to_string());
    assert_eq!(resolve_identity(&p).stream_recording_id, Some("r2".to_string()));
}

#[test]
fn prefix_used_verbatim() {
    let mut p = params("dir/model.dae");
    p.entity_path_prefix = Some("/foo".to_string());
    assert_eq!(entity_path(&p), "/foo");
}

#[test]
fn entity_path_derived_from_file_path() {
    let p = params("dir/model.dae");
    let derived = entity_path(&p);
    assert_eq!(derived, "/dir/model.dae");
    assert_eq!(
        derived,
        rerun::EntityPath::from_file_path(std::path::Path::new("dir/model.dae")).to_string()
    );
}

#[test]
fn albedo_channels() {
    let c = albedo_of([12, 34, 56, 78]);
    assert_eq!(c.0, 0x0C22_384E);
    assert_eq!(c, rerun::Rgba32::from_unmultiplied_rgba(12, 34, 56, 78));
}

#[test]
fn record_with_normals_and_colour() {
    let m = mesh(1.0, 3, true);
    let normals = m.normals.clone();
    let vertices = m.vertices.clone();
    let r = map_mesh(m, Material { diffuse: Some([12, 34, 56, 78]) }, "/m".to_string());
    assert_eq!(r.vertices, vertices);
    assert_eq!(r.normals, Some(normals));
    assert_eq!(r.albedo, Some(rerun::Rgba32(0x0C22_384E)));
    assert_eq!(r.entity_path, "/m");
}

#[test]
fn record_without_normals_or_colour() {
    let r = map_mesh(mesh(0.0, 2, false), Material { diffuse: None }, "/m".to_string());
    assert_eq!(r.vertices.len(), 2);
    assert!(r.normals.is_none());
    assert!(r.albedo.is_none());
}

#[test]
fn empty_first_normal_is_no_normals() {
    let m: MeshElement<f32, 0> = MeshElement { vertices: vec![[], []], normals: vec![[], []] };
    let r = map_mesh(m, Material { diffuse: None }, "/m".to_string());
    assert_eq!(r.vertices.len(), 2);
    assert!(r.normals.is_none());
}

#[test]
fn empty_mesh_still_yields_a_record() {
    let r = map_mesh(mesh(0.0, 0, false), Material { diffuse: None }, "/m".to_string());
    assert!(r.vertices.is_empty());
    assert!(r.normals.is_none());
}

#[test]
fn scene_keeps_order_and_geometry() {
    let meshes = vec![mesh(1.0, 1, false), mesh(2.0, 2, true), mesh(3.0, 3, false)];
    let expected: Vec<Vec<[f32; 3]>> = meshes.iter().map(|m| m.vertices.clone()).collect();
    let materials = vec![Material { diffuse: None }; 3];
    let records = map_scene(meshes, &materials, &"/foo".to_string());
    assert_eq!(records.len(), 3);
    for (r, v) in records.iter().zip(expected.iter()) {
        assert_eq!(&r.vertices, v);
        assert_eq!(r.entity_path, "/foo");
    }
    assert!(records[1].normals.is_some());
    assert!(records[0].normals.is_none());
}

#[test]
fn scene_pairing_stops_at_shorter_list() {
    let meshes = vec![mesh(1.0, 1, false), mesh(2.0, 1, false), mesh(3.0, 1, false)];
    let materials = vec![Material { diffuse: Some([1, 2, 3, 4]) }, Material { diffuse: None }];
    let records = map_scene(meshes, &materials, &"/p".to_string());
    assert_eq!(records.len(), 2);
    assert_eq!(records[0].albedo, Some(rerun::Rgba32::from_unmultiplied_rgba(1, 2, 3, 4)));
    assert!(records[1].albedo.is_none());
    let none = map_scene(Vec::<MeshElement<f32, 3>>::new(), &materials, &"/p".to_string());
    assert!(none.is_empty());
}

#[test]
fn three_meshes_share_derived_path() {
    let p = params("dir/model.dae");
    let path = entity_path(&p);
    let meshes = vec![mesh(1.0, 1, false), mesh(2.0, 1, false), mesh(3.0, 1, false)];
    let materials = vec![Material { diffuse: None }; 3];
    let records = map_scene(meshes, &materials, &path);
    assert_eq!(records.len(), 3);
    for r in &records {
        assert_eq!(r.entity_path, "/dir/model.dae");
    }
}

#[test]
fn single_red_mesh_end_to_end() {
    let p = params("model.dae");
    match plan(true, &p) {
        Plan::Decline => panic!("a collada file must be accepted"),
        Plan::Convert { identity, entity_path } => {
            assert_eq!(identity.stream_name, "external_data_loader");
            assert_eq!(identity.stream_recording_id, None);
            let records = map_scene(
                vec![mesh(0.0, 4, false)],
                &vec![Material { diffuse: Some([255, 0, 0, 255]) }],
                &entity_path,
            );
            assert_eq!(records.len(), 1);
            assert_eq!(records[0].vertices.len(), 4);
            assert!(records[0].normals.is_none());
            assert_eq!(records[0].albedo, Some(rerun::Rgba32(0xFF00_00FF)));
            assert_eq!(records[0].entity_path, "/model.dae");
        }
    }
}

#[test]
fn wrong_extension_is_declined() {
    assert!(matches!(plan(true, &params("model.obj")), Plan::Decline));
    assert!(matches!(plan(false, &params("model.dae")), Plan::Decline));
}

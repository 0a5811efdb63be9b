//! The mapping from a parsed mesh scene to the records that are logged.

use vstd::prelude::*;

verus! {

/// One mesh of a scene: its vertex positions and per-vertex normals, each
/// a point of `D` coordinates of type `C`. An empty normal list means that
/// the mesh carries no normals.
pub struct MeshElement<C, const D: usize> {
    pub vertices: Vec<[C; D]>,
    pub normals: Vec<[C; D]>,
}

/// The part of a material that is logged: its diffuse colour, as red,
/// green, blue and alpha channels, if it has one.
#[derive(Clone, Copy)]
pub struct Material {
    pub diffuse: Option<[u8; 4]>,
}

/// What is logged for one mesh.
pub struct LogRecord<C, const D: usize> {
    pub vertices: Vec<[C; D]>,
    pub normals: Option<Vec<[C; D]>>,
    pub albedo: Option<rerun::Rgba32>,
    pub entity_path: String,
}

/// Whether the normals of a mesh are taken over: the list must be
/// non-empty and its first entry must hold coordinates.
pub open spec fn carries_normals<C, const D: usize>(normals: Seq<[C; D]>) -> bool {
    normals.len() > 0 && D > 0
}

/// The 32-bit value of an RGBA colour, red in the highest byte.
pub open spec fn rgba_value(c: [u8; 4]) -> u32 {
    ((c[0] as u32) * 0x1000000 + (c[1] as u32) * 0x10000 + (c[2] as u32) * 0x100
        + (c[3] as u32)) as u32
}

/// Whether `r` is what one mesh maps to, given its material and the entity
/// path of the file.
pub open spec fn maps_to<C, const D: usize>(
    mesh: MeshElement<C, D>,
    material: Material,
    entity_path: Seq<char>,
    r: LogRecord<C, D>,
) -> bool {
    &&& r.vertices@ == mesh.vertices@
    &&& if carries_normals(mesh.normals@) {
        r.normals matches Some(n) && n@ == mesh.normals@
    } else {
        r.normals is None
    }
    &&& match material.diffuse {
        Some(c) => r.albedo matches Some(a) && a.0 == rgba_value(c),
        None => r.albedo is None,
    }
    &&& r.entity_path@ == entity_path
}

/// rerun's 32-bit RGBA colour; its one field holds red in the highest byte
/// and alpha in the lowest.
#[verifier::external_type_specification]
pub struct ExRgba32(rerun::Rgba32);

/// Relies on rerun::Rgba32::from_unmultiplied_rgba: the four channels packed
/// into one value, red in the highest byte.
pub assume_specification[ rerun::Rgba32::from_unmultiplied_rgba ](r: u8, g: u8, b: u8, a: u8) -> (c: rerun::Rgba32)
    ensures
        c.0 == rgba_value([r, g, b, a]),
;

/// The non-premultiplied colour with the given red, green, blue and alpha
/// channels.
pub fn albedo_of(c: [u8; 4]) -> (r: rerun::Rgba32)
    ensures
        r.0 == rgba_value(c),
{
    rerun::Rgba32::from_unmultiplied_rgba(c[0], c[1], c[2], c[3])
}

/// The record for one mesh: its vertices unchanged, its normals where the
/// list is non-empty and its first entry holds coordinates, the material's
/// diffuse colour as albedo where there is one, filed under `entity_path`.
pub fn map_mesh<C, const D: usize>(
    mesh: MeshElement<C, D>,
    material: Material,
    entity_path: String,
) -> (r: LogRecord<C, D>)
    ensures
        maps_to(mesh, material, entity_path@, r),
{
    let MeshElement { vertices, normals } = mesh;
    let normals = if normals.len() > 0 && D > 0 {
        Some(normals)
    } else {
        None
    };
    let albedo = match material.diffuse {
        Some(c) => Some(albedo_of(c)),
        None => None,
    };
    LogRecord { vertices, normals, albedo, entity_path }
}

/// The number of mesh-material pairs of a scene: pairing stops at the
/// shorter list.
pub open spec fn pair_count(meshes: nat, materials: nat) -> nat {
    if meshes <= materials {
        meshes
    } else {
        materials
    }
}

/// Whether `records` is what a scene maps to: one record per pair, in order,
/// the i-th mesh with the i-th material, all under `entity_path`.
pub open spec fn scene_maps_to<C, const D: usize>(
    meshes: Seq<MeshElement<C, D>>,
    materials: Seq<Material>,
    entity_path: Seq<char>,
    records: Seq<LogRecord<C, D>>,
) -> bool {
    &&& records.len() == pair_count(meshes.len(), materials.len())
    &&& forall|i: int|
        0 <= i < records.len() ==> maps_to(
            #[trigger] meshes[i],
            materials[i],
            entity_path,
            records[i],
        )
}

/// The records of a scene: the i-th mesh is paired with the i-th material,
/// pairing stops at the shorter of the two lists, and every record is filed
/// under `entity_path`.
pub fn map_scene<C, const D: usize>(
    meshes: Vec<MeshElement<C, D>>,
    materials: &Vec<Material>,
    entity_path: &String,
) -> (r: Vec<LogRecord<C, D>>)
    ensures
        scene_maps_to(meshes@, materials@, entity_path@, r@),
{
    let ghost all = meshes@;
    let n: usize = if meshes.len() <= materials.len() {
        meshes.len()
    } else {
        materials.len()
    };
    let mut rest = meshes;
    let mut records: Vec<LogRecord<C, D>> = Vec::new();
    let mut i: usize = 0;
    while i < n
        invariant
            n <= all.len(),
            n <= materials.len(),
            i <= n,
            rest@ == all.subrange(i as int, all.len() as int),
            records.len() == i,
            forall|j: int|
                0 <= j < i ==> maps_to(#[trigger] all[j], materials@[j], entity_path@, records@[j]),
        decreases n - i,
    {
        let mesh = rest.remove(0);
        let record = map_mesh(mesh, materials[i], entity_path.clone());
        records.push(record);
        i = i + 1;
    }
    records
}

/// A scene with as many materials as meshes yields one record per mesh, in
/// the order of the meshes, each with exactly that mesh's vertices.
pub proof fn lemma_one_record_per_mesh<C, const D: usize>(
    meshes: Seq<MeshElement<C, D>>,
    materials: Seq<Material>,
    entity_path: Seq<char>,
    records: Seq<LogRecord<C, D>>,
)
    requires
        meshes.len() == materials.len(),
        scene_maps_to(meshes, materials, entity_path, records),
    ensures
        records.len() == meshes.len(),
        forall|i: int|
            0 <= i < records.len() ==> (#[trigger] records[i]).vertices@ == meshes[i].vertices@,
{
    assert forall|i: int| 0 <= i < records.len() implies (#[trigger] records[i]).vertices@
        == meshes[i].vertices@ by {
        assert(maps_to(meshes[i], materials[i], entity_path, records[i]));
    }
}

/// A record carries normals exactly when its mesh's normal list is non-empty
/// and its first entry holds coordinates, and then they are the mesh's
/// normals unchanged.
pub proof fn lemma_normals_kept<C, const D: usize>(
    mesh: MeshElement<C, D>,
    material: Material,
    entity_path: Seq<char>,
    record: LogRecord<C, D>,
)
    requires
        maps_to(mesh, material, entity_path, record),
    ensures
        record.normals is Some <==> (mesh.normals@.len() > 0 && D > 0),
        record.normals matches Some(n) ==> n@ == mesh.normals@,
{
}

} // verus!

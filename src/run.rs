//! What one invocation does: decline the file, or convert it under a
//! resolved identity and entity path.

use vstd::prelude::*;
use crate::gate::{compatible, is_compatible};
use crate::identity::{
    entity_path,
    entity_path_of,
    resolve_identity,
    stream_name_of,
    stream_recording_of,
    file_entity_path,
    InvocationParameters,
    ResolvedIdentity,
};
use crate::scene::{scene_maps_to, LogRecord, Material, MeshElement};

verus! {

/// The decision taken before any output is produced.
pub enum Plan {
    /// The file is not one this loader handles: no stream is opened.
    Decline,
    /// Open a stream under `identity` and file every record under
    /// `entity_path`.
    Convert { identity: ResolvedIdentity, entity_path: String },
}

/// Decides what to do with the input file, given whether it is an existing
/// regular file. Identity and entity path are worked out only for a file
/// that is accepted.
pub fn plan(is_file: bool, params: &InvocationParameters) -> (r: Plan)
    ensures
        !compatible(is_file, params.filepath@) <==> r is Decline,
        r matches Plan::Convert { identity, entity_path } ==> {
            &&& identity.stream_name@ == stream_name_of(*params)
            &&& identity.stream_recording_id.deep_view() == stream_recording_of(*params)
            &&& entity_path@ == entity_path_of(
                params.entity_path_prefix.deep_view(),
                params.filepath@,
            )
        },
{
    if !is_compatible(is_file, params.filepath.as_str()) {
        return Plan::Decline;
    }
    let identity = resolve_identity(params);
    let entity_path = entity_path(params);
    Plan::Convert { identity, entity_path }
}

/// Every record of one file targets the same entity path: the prefix
/// verbatim where one is given, else the path derived from the file path.
pub proof fn lemma_records_share_entity_path<C, const D: usize>(
    params: InvocationParameters,
    meshes: Seq<MeshElement<C, D>>,
    materials: Seq<Material>,
    records: Seq<LogRecord<C, D>>,
)
    requires
        scene_maps_to(
            meshes,
            materials,
            entity_path_of(params.entity_path_prefix.deep_view(), params.filepath@),
            records,
        ),
    ensures
        forall|i: int|
            0 <= i < records.len() ==> (#[trigger] records[i]).entity_path@ == match params.entity_path_prefix {
                Some(prefix) => prefix@,
                None => file_entity_path(params.filepath@),
            },
{
    assert forall|i: int| 0 <= i < records.len() implies (#[trigger] records[i]).entity_path@
        == match params.entity_path_prefix {
        Some(prefix) => prefix@,
        None => file_entity_path(params.filepath@),
    } by {
        assert(crate::scene::maps_to(
            meshes[i],
            materials[i],
            entity_path_of(params.entity_path_prefix.deep_view(), params.filepath@),
            records[i],
        ));
    }
}

} // verus!

//! Which application, recording and entity path the emitted records are
//! attributed to.

use vstd::prelude::*;

verus! {

/// The application label used when the host names none.
pub const DEFAULT_APPLICATION_ID: &'static str = "external_data_loader";

/// The parameters the host passes with one invocation.
pub struct InvocationParameters {
    /// The input file.
    pub filepath: String,
    /// The application the loader was launched under, if given.
    pub application_id: Option<String>,
    /// The application of the session that is open in the host, if given.
    pub opened_application_id: Option<String>,
    /// The recording the loader was launched under, if given.
    pub recording_id: Option<String>,
    /// The recording that is open in the host, if given.
    pub opened_recording_id: Option<String>,
    /// The entity path to file every record under, if given.
    pub entity_path_prefix: Option<String>,
}

/// The identity under which the output stream is opened.
pub struct ResolvedIdentity {
    /// The application label of the stream.
    pub stream_name: String,
    /// The recording of the stream; absent lets the host pick one.
    pub stream_recording_id: Option<String>,
}

/// The preferred value where present, else the fallback.
pub open spec fn override_of(
    preferred: Option<Seq<char>>,
    fallback: Option<Seq<char>>,
) -> Option<Seq<char>> {
    if preferred is Some {
        preferred
    } else {
        fallback
    }
}

/// The application label a stream is opened under.
pub open spec fn stream_name_of(params: InvocationParameters) -> Seq<char> {
    match override_of(
        params.opened_application_id.deep_view(),
        params.application_id.deep_view(),
    ) {
        Some(name) => name,
        None => DEFAULT_APPLICATION_ID@,
    }
}

/// The recording a stream is opened under, if any.
pub open spec fn stream_recording_of(params: InvocationParameters) -> Option<Seq<char>> {
    override_of(params.opened_recording_id.deep_view(), params.recording_id.deep_view())
}

/// The entity path that rerun derives from a file path.
pub uninterp spec fn file_entity_path(p: Seq<char>) -> Seq<char>;

/// The entity path every record of one file is filed under: the prefix
/// verbatim where one is given, else the path derived from the file path.
pub open spec fn entity_path_of(prefix: Option<Seq<char>>, filepath: Seq<char>) -> Seq<char> {
    match prefix {
        Some(p) => p,
        None => file_entity_path(filepath),
    }
}

/// Relies on rerun::EntityPath::from_file_path, and on the text form of the
/// entity path it returns; the result depends on the file path alone.
#[verifier::external_body]
fn entity_path_from_file(filepath: &str) -> (r: String)
    ensures
        r@ == file_entity_path(filepath@),
{
    rerun::EntityPath::from_file_path(std::path::Path::new(filepath)).to_string()
}

/// A copy of the preferred value where present, else of the fallback.
pub fn first_present(preferred: &Option<String>, fallback: &Option<String>) -> (r: Option<String>)
    ensures
        r.deep_view() == override_of(preferred.deep_view(), fallback.deep_view()),
{
    match preferred {
        Some(s) => Some(s.clone()),
        None => match fallback {
            Some(s) => Some(s.clone()),
            None => None,
        },
    }
}

/// The identity of the output stream: the opened application outranks the
/// launching one, which outranks the default label; likewise for the
/// recording, which may stay absent.
pub fn resolve_identity(params: &InvocationParameters) -> (r: ResolvedIdentity)
    ensures
        r.stream_name@ == stream_name_of(*params),
        r.stream_recording_id.deep_view() == stream_recording_of(*params),
{
    let name = first_present(&params.opened_application_id, &params.application_id);
    let stream_name = match name {
        Some(s) => s,
        None => DEFAULT_APPLICATION_ID.to_string(),
    };
    let stream_recording_id = first_present(&params.opened_recording_id, &params.recording_id);
    ResolvedIdentity { stream_name, stream_recording_id }
}

/// The entity path under which every record of the input file is logged.
pub fn entity_path(params: &InvocationParameters) -> (r: String)
    ensures
        r@ == entity_path_of(params.entity_path_prefix.deep_view(), params.filepath@),
{
    match &params.entity_path_prefix {
        Some(prefix) => prefix.clone(),
        None => entity_path_from_file(params.filepath.as_str()),
    }
}

} // verus!

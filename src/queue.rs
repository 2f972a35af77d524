//! The durable work queue: pipeline submissions, each kept as one JSON file in
//! a work directory. Writing the file is the caller's part; the library names
//! it and generates submission ids.
use vstd::prelude::*;

use crate::bridge::NodeRedMessage;
use crate::json::{owned, Json, JsonValue, NumberValue};
use crate::platform::{new_uuid, now_timestamp, replace_all, replaced};

verus! {

/// A queued pipeline submission.
#[derive(Debug)]
pub struct PipelineRecord {
    pub id: String,
    pub source: String,
    pub transformers: Vec<String>,
    pub destination: String,
    pub payload: Json,
    pub created_at: i64,
}

impl PipelineRecord {
    /// A submission stamped with the current time.
    pub fn new(
        id: &str,
        source: &str,
        transformers: Vec<String>,
        destination: &str,
        payload: Json,
    ) -> (r: PipelineRecord)
        ensures
            r.id@ == id@,
            r.source@ == source@,
            r.transformers@ == transformers@,
            r.destination@ == destination@,
            r.payload@ == payload@,
    {
        PipelineRecord {
            id: owned(id),
            source: owned(source),
            transformers,
            destination: owned(destination),
            payload,
            created_at: now_timestamp(),
        }
    }
}

/// The name of the queue file of the submission with id `id`: the id with
/// each `:` replaced by `_`, then `.json`.
pub open spec fn queue_file_name(id: Seq<char>) -> Seq<char> {
    replaced(id, ":"@, "_"@) + ".json"@
}

/// The queue's work directory.
pub struct PipelineRegistry {
    work_dir: String,
}

impl PipelineRegistry {
    pub closed spec fn work_dir_view(&self) -> Seq<char> {
        self.work_dir@
    }

    /// A queue kept in `work_dir`.
    pub fn new(work_dir: &str) -> (r: PipelineRegistry)
        ensures
            r.work_dir_view() == work_dir@,
    {
        PipelineRegistry { work_dir: owned(work_dir) }
    }

    /// The work directory.
    pub fn work_dir(&self) -> (r: &str)
        ensures
            r@ == self.work_dir_view(),
    {
        self.work_dir.as_str()
    }

    /// The name, within the work directory, of the file that holds `record`.
    pub fn file_name(record: &PipelineRecord) -> (r: String)
        ensures
            r@ == queue_file_name(record.id@),
    {
        proof {
            reveal_strlit(":");
        }
        let mut name = replace_all(record.id.as_str(), ":", "_");
        name.append(".json");
        name
    }

    /// A fresh submission id: a random 128-bit value in its 36-character
    /// hyphenated text form.
    pub fn generate_id() -> (r: String)
        ensures
            r@.len() == 36,
    {
        new_uuid()
    }
}

/// Why a submission was refused.
#[derive(Debug, PartialEq, Eq)]
pub enum SubmissionError {
    /// A pipeline needs at least one transformer.
    NoTransformers,
}

/// The answer to an accepted submission.
#[derive(Debug)]
pub struct CreatePipelineResponse {
    pub pipeline_id: String,
    pub message: String,
    pub file_path: String,
}

/// The record to queue for a submission: refused without transformers;
/// under `pipeline_id` when given, else under a fresh id.
pub fn prepare_submission(
    pipeline_id: Option<String>,
    source: &str,
    transformers: Vec<String>,
    destination: &str,
    payload: Json,
) -> (r: Result<PipelineRecord, SubmissionError>)
    ensures
        transformers@.len() == 0 <==> r is Err,
        r matches Ok(rec) ==> {
            &&& match pipeline_id {
                Some(id) => rec.id@ == id@,
                None => rec.id@.len() == 36,
            }
            &&& rec.source@ == source@
            &&& rec.transformers@ == transformers@
            &&& rec.destination@ == destination@
            &&& rec.payload@ == payload@
        },
{
    if transformers.len() == 0 {
        return Err(SubmissionError::NoTransformers);
    }
    let id = match pipeline_id {
        Some(id) => id,
        None => PipelineRegistry::generate_id(),
    };
    Ok(PipelineRecord::new(id.as_str(), source, transformers, destination, payload))
}

/// The payload of the notice that `record` was queued in `file`.
pub open spec fn queued_payload(record: PipelineRecord, file: Seq<char>) -> JsonValue {
    JsonValue::Object(
        seq![
            ("event"@, JsonValue::Str("pipeline_queued"@)),
            ("pipeline_id"@, JsonValue::Str(record.id@)),
            ("source"@, JsonValue::Str(record.source@)),
            ("destination"@, JsonValue::Str(record.destination@)),
            ("transformers"@, JsonValue::Array(
                record.transformers@.map_values(|t: String| JsonValue::Str(t@)),
            )),
            ("file"@, JsonValue::Str(file)),
            ("queued_at"@, JsonValue::Number(NumberValue::Signed(record.created_at))),
        ],
    )
}

/// The notice, for the bridge, that `record` was queued in `file`.
pub fn queued_notice(record: &PipelineRecord, file: &str) -> (r: NodeRedMessage)
    ensures
        r.topic@ == "bloodsniffer/pipelines"@,
        r.payload@ == queued_payload(*record, file@),
        r.metadata@.len() == 0,
{
    let mut names: Vec<Json> = Vec::new();
    let mut i: usize = 0;
    while i < record.transformers.len()
        invariant
            0 <= i <= record.transformers@.len(),
            names@.len() == i,
            forall|k: int|
                0 <= k < i ==> (#[trigger] names@[k])@ == JsonValue::Str(
                    record.transformers@[k]@,
                ),
        decreases record.transformers@.len() - i,
    {
        names.push(Json::string(record.transformers[i].as_str()));
        i = i + 1;
    }
    let listed = Json::Array(names);
    assert(listed@->Array_0 =~= record.transformers@.map_values(|t: String| JsonValue::Str(t@)));
    let payload = Json::empty_object().with_member("event", Json::string("pipeline_queued")).with_member(
        "pipeline_id",
        Json::string(record.id.as_str()),
    ).with_member("source", Json::string(record.source.as_str())).with_member(
        "destination",
        Json::string(record.destination.as_str()),
    ).with_member("transformers", listed).with_member("file", Json::string(file)).with_member(
        "queued_at",
        Json::signed(record.created_at),
    );
    assert(payload@->Object_0 =~= queued_payload(*record, file@)->Object_0);
    NodeRedMessage::new(owned("bloodsniffer/pipelines"), payload)
}

impl CreatePipelineResponse {
    /// The answer for the pipeline `pipeline_id` queued in `file_path`.
    pub fn queued(pipeline_id: &str, file_path: &str) -> (r: CreatePipelineResponse)
        ensures
            r.pipeline_id@ == pipeline_id@,
            r.message@ == "Pipeline queued successfully"@,
            r.file_path@ == file_path@,
    {
        CreatePipelineResponse {
            pipeline_id: owned(pipeline_id),
            message: owned("Pipeline queued successfully"),
            file_path: owned(file_path),
        }
    }
}

} // verus!

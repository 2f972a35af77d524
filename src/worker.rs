//! The queue worker's decisions. The worker polls the work directory, hands
//! each regular file through the orchestrator and the monitor, notifies the
//! bridge and moves the file to `processed/` or `failed/`. The caller performs
//! each requested action (listing, reading, locking, moving, sleeping) and
//! reports back what happened.
use vstd::prelude::*;

use crate::bridge::NodeRedMessage;
use crate::extractor::ExtractionError;
use crate::json::{owned, Json, JsonValue, NumberValue};
use crate::monitoring::{Monitor, MonitoringStats};
use crate::orchestrator::{
    active_count, created, run_of, upsert, Orchestrator, PipelineRunStats,
};
use crate::queue::PipelineRecord;

verus! {

/// The shortest pause between two scans, in seconds.
pub const MIN_POLL_INTERVAL_SECS: u64 = 5;

/// Where a handled queue file goes, beside the queued files.
#[derive(Debug, Clone, Copy, PartialEq, Eq)]
pub enum Folder {
    Processed,
    Failed,
}

impl Folder {
    /// The folder's directory name.
    pub fn dir_name(&self) -> (r: &'static str)
        ensures
            *self is Processed ==> r@ == "processed"@,
            *self is Failed ==> r@ == "failed"@,
    {
        match self {
            Folder::Processed => "processed",
            Folder::Failed => "failed",
        }
    }
}

/// What one run of a pipeline left: its statistics and the number of active
/// pipelines right after it.
#[derive(Debug, Clone, Copy, PartialEq, Eq)]
pub struct RunOutcome {
    pub stats: PipelineRunStats,
    pub active_count: usize,
}

/// Where the worker stands.
#[derive(Debug)]
pub enum WorkerState {
    /// Between scans.
    Idle,
    /// Listing the work directory.
    Scanning,
    /// Waiting for the content of `file`.
    Handling { file: String },
    /// Waiting for the orchestration of the record read from `file`.
    Orchestrating { file: String, id: String, source: String, destination: String },
}

/// What the caller reports back.
#[derive(Debug)]
pub enum WorkerEvent {
    /// The pause between scans is over.
    Tick,
    /// The work directory does not exist.
    WorkDirMissing,
    /// Listing the directory, or moving a file, failed.
    ScanFailed,
    /// The listing yielded an entry.
    Entry { name: String, is_dir: bool },
    /// The listing has no more entries.
    ListDone,
    /// The file was read: the record it holds, or `None` when it could not be
    /// read or is not a pipeline record.
    Loaded { record: Option<PipelineRecord> },
    /// The record was orchestrated.
    Orchestrated { outcome: Result<RunOutcome, ExtractionError> },
}

/// What the worker asks the caller to do.
#[derive(Debug)]
pub enum WorkerAction {
    /// List the work directory and report each entry.
    ListWorkDir,
    /// Create the work directory.
    CreateWorkDir,
    /// Pause before the next scan.
    Sleep { secs: u64 },
    /// Read and decode `file`.
    ReadFile { file: String },
    /// Holding the orchestrator's lock alone, call `run_record` on the record.
    Orchestrate { record: PipelineRecord },
    /// Holding the monitor's lock alone, call `record_run` with the outcome.
    RecordRun { outcome: RunOutcome },
    /// Send the message through the bridge; a failure is ignored.
    Notify { message: NodeRedMessage },
    /// Move `file` into `folder`, creating the folder if needed.
    MoveFile { file: String, folder: Folder },
}

/// The payload of the notice that a queued pipeline was processed.
pub open spec fn notice_payload(
    id: Seq<char>,
    source: Seq<char>,
    destination: Seq<char>,
    stats: PipelineRunStats,
) -> JsonValue {
    JsonValue::Object(
        seq![
            ("event"@, JsonValue::Str("pipeline_processed"@)),
            ("pipeline_id"@, JsonValue::Str(id)),
            ("source"@, JsonValue::Str(source)),
            ("destination"@, JsonValue::Str(destination)),
            ("nodes"@, JsonValue::Number(NumberValue::Unsigned(stats.nodes_count as u64))),
            ("edges"@, JsonValue::Number(NumberValue::Unsigned(stats.edges_count as u64))),
            ("processed_at"@, JsonValue::Number(NumberValue::Signed(stats.processed_at))),
        ],
    )
}

/// `m` is the notice that the pipeline `id` was processed with `stats`.
pub open spec fn is_pipeline_notice(
    m: NodeRedMessage,
    id: Seq<char>,
    source: Seq<char>,
    destination: Seq<char>,
    stats: PipelineRunStats,
) -> bool {
    &&& m.topic@ == "fire-marshal/pipelines"@
    &&& m.payload@ == notice_payload(id, source, destination, stats)
    &&& m.metadata@.len() == 0
    &&& m.msg_id@.len() == 36
}

/// The notice, for the bridge, that the pipeline `id` was processed with `stats`.
pub fn pipeline_notice(id: &str, source: &str, destination: &str, stats: &PipelineRunStats) -> (r:
    NodeRedMessage)
    ensures
        is_pipeline_notice(r, id@, source@, destination@, *stats),
{
    let payload = Json::empty_object().with_member("event", Json::string("pipeline_processed")).with_member(
        "pipeline_id",
        Json::string(id),
    ).with_member("source", Json::string(source)).with_member(
        "destination",
        Json::string(destination),
    ).with_member("nodes", Json::unsigned(stats.nodes_count as u64)).with_member(
        "edges",
        Json::unsigned(stats.edges_count as u64),
    ).with_member("processed_at", Json::signed(stats.processed_at));
    assert(payload@->Object_0 =~= notice_payload(id@, source@, destination@, *stats)->Object_0);
    NodeRedMessage::new(owned("fire-marshal/pipelines"), payload)
}

/// The payload of the notice that a pipeline was orchestrated on request.
pub open spec fn orchestrated_payload(
    id: Seq<char>,
    source: Seq<char>,
    destination: Seq<char>,
    stats: PipelineRunStats,
) -> JsonValue {
    JsonValue::Object(notice_payload(id, source, destination, stats)->Object_0.drop_first())
}

/// The notice, for the bridge, that the pipeline `id` was orchestrated on
/// request: the fields of `pipeline_notice` without `event`.
pub fn orchestrated_notice(id: &str, source: &str, destination: &str, stats: &PipelineRunStats) -> (r:
    NodeRedMessage)
    ensures
        r.topic@ == "fire-marshal/pipelines"@,
        r.payload@ == orchestrated_payload(id@, source@, destination@, *stats),
        r.metadata@.len() == 0,
{
    let payload = Json::empty_object().with_member("pipeline_id", Json::string(id)).with_member(
        "source",
        Json::string(source),
    ).with_member("destination", Json::string(destination)).with_member(
        "nodes",
        Json::unsigned(stats.nodes_count as u64),
    ).with_member("edges", Json::unsigned(stats.edges_count as u64)).with_member(
        "processed_at",
        Json::signed(stats.processed_at),
    );
    assert(payload@->Object_0 =~= orchestrated_payload(id@, source@, destination@, *stats)->Object_0);
    NodeRedMessage::new(owned("fire-marshal/pipelines"), payload)
}

/// The answer to a request that orchestrated the pipeline `id`.
pub open spec fn orchestrated_reply(id: Seq<char>, stats: PipelineRunStats) -> JsonValue {
    JsonValue::Object(
        seq![
            ("message"@, JsonValue::Str("Pipeline orchestrated successfully"@)),
            ("pipeline_id"@, JsonValue::Str(id)),
            ("nodes"@, JsonValue::Number(NumberValue::Unsigned(stats.nodes_count as u64))),
            ("edges"@, JsonValue::Number(NumberValue::Unsigned(stats.edges_count as u64))),
        ],
    )
}

/// The answer to a request that orchestrated the pipeline `id`.
pub fn orchestrate_response(id: &str, stats: &PipelineRunStats) -> (r: Json)
    ensures
        r@ == orchestrated_reply(id@, *stats),
{
    let r = Json::empty_object().with_member(
        "message",
        Json::string("Pipeline orchestrated successfully"),
    ).with_member("pipeline_id", Json::string(id)).with_member(
        "nodes",
        Json::unsigned(stats.nodes_count as u64),
    ).with_member("edges", Json::unsigned(stats.edges_count as u64));
    assert(r@->Object_0 =~= orchestrated_reply(id@, *stats)->Object_0);
    r
}

/// The monitoring report of `stats`.
pub open spec fn stats_report(stats: MonitoringStats) -> JsonValue {
    JsonValue::Object(
        seq![
            ("pipelines_active"@, JsonValue::Number(
                NumberValue::Unsigned(stats.active_pipelines as u64),
            )),
            ("data_processed"@, JsonValue::Number(NumberValue::Unsigned(stats.data_processed))),
            ("errors"@, JsonValue::Number(NumberValue::Unsigned(stats.errors))),
            ("last_update"@, JsonValue::Number(NumberValue::Signed(stats.last_update))),
        ],
    )
}

/// The monitoring report of `stats`, as served to readers.
pub fn monitoring_report(stats: &MonitoringStats) -> (r: Json)
    ensures
        r@ == stats_report(*stats),
{
    let r = Json::empty_object().with_member(
        "pipelines_active",
        Json::unsigned(stats.active_pipelines as u64),
    ).with_member("data_processed", Json::unsigned(stats.data_processed)).with_member(
        "errors",
        Json::unsigned(stats.errors),
    ).with_member("last_update", Json::signed(stats.last_update));
    assert(r@->Object_0 =~= stats_report(*stats)->Object_0);
    r
}

/// Runs the pipeline that `record` describes and counts the active pipelines
/// after it. The caller holds the orchestrator's lock for this call only.
pub fn run_record(orch: &mut Orchestrator, record: &PipelineRecord) -> (r: Result<
    RunOutcome,
    ExtractionError,
>)
    requires
        old(orch).wf(),
    ensures
        final(orch).wf(),
        r matches Ok(o) && o.stats == run_of(record.payload@, o.stats.processed_at)
            && final(orch).view() == upsert(
            old(orch).view(),
            created(
                record.id@,
                record.source@,
                record.destination@,
                record.payload@,
                o.stats.processed_at,
            ),
        ) && o.active_count == active_count(final(orch).view()),
{
    match orch.create_pipeline(
        record.id.as_str(),
        record.source.as_str(),
        record.destination.as_str(),
        &record.payload,
    ) {
        Ok(stats) => {
            let active = orch.active_pipeline_count();
            Ok(RunOutcome { stats, active_count: active })
        },
        Err(e) => Err(e),
    }
}

/// Whether the monitor's data counter can take the outcome's nodes and edges.
pub open spec fn run_fits(stats: MonitoringStats, outcome: RunOutcome) -> bool {
    stats.data_processed + outcome.stats.nodes_count + outcome.stats.edges_count <= u64::MAX
}

/// Records a run in the statistics: the active count, and its nodes and edges
/// as data processed. The caller holds the monitor's lock for this call only.
pub fn record_run(monitor: &mut Monitor, outcome: &RunOutcome)
    requires
        run_fits(old(monitor).view(), *outcome),
    ensures
        final(monitor).view() == (MonitoringStats {
            active_pipelines: outcome.active_count,
            data_processed: (old(monitor).view().data_processed + outcome.stats.nodes_count
                + outcome.stats.edges_count) as u64,
            last_update: final(monitor).view().last_update,
            ..old(monitor).view()
        }),
{
    monitor.set_active_pipelines(outcome.active_count);
    let amount = outcome.stats.nodes_count as u64 + outcome.stats.edges_count as u64;
    monitor.increment_data(amount);
}

/// The state after `s` on event `e`.
pub open spec fn next_state(s: WorkerState, e: WorkerEvent) -> WorkerState {
    match s {
        WorkerState::Idle => match e {
            WorkerEvent::Tick => WorkerState::Scanning,
            _ => WorkerState::Idle,
        },
        WorkerState::Scanning => match e {
            WorkerEvent::WorkDirMissing => WorkerState::Idle,
            WorkerEvent::ScanFailed => WorkerState::Idle,
            WorkerEvent::ListDone => WorkerState::Idle,
            WorkerEvent::Entry { name, is_dir } => if is_dir {
                WorkerState::Scanning
            } else {
                WorkerState::Handling { file: name }
            },
            _ => WorkerState::Scanning,
        },
        WorkerState::Handling { file } => match e {
            WorkerEvent::Loaded { record } => match record {
                Some(rec) => WorkerState::Orchestrating {
                    file,
                    id: rec.id,
                    source: rec.source,
                    destination: rec.destination,
                },
                None => WorkerState::Scanning,
            },
            _ => WorkerState::Handling { file },
        },
        WorkerState::Orchestrating { file, id, source, destination } => match e {
            WorkerEvent::Orchestrated { .. } => WorkerState::Scanning,
            _ => WorkerState::Orchestrating { file, id, source, destination },
        },
    }
}

/// `actions` are what the worker asks for in state `s` on event `e`, pausing
/// `interval` seconds between scans.
pub open spec fn step_actions(
    s: WorkerState,
    e: WorkerEvent,
    interval: u64,
    actions: Seq<WorkerAction>,
) -> bool {
    match s {
        WorkerState::Idle => match e {
            WorkerEvent::Tick => actions == seq![WorkerAction::ListWorkDir],
            _ => actions.len() == 0,
        },
        WorkerState::Scanning => match e {
            WorkerEvent::WorkDirMissing => actions == seq![
                WorkerAction::CreateWorkDir,
                WorkerAction::Sleep { secs: interval },
            ],
            WorkerEvent::ScanFailed => actions == seq![WorkerAction::Sleep { secs: interval }],
            WorkerEvent::ListDone => actions == seq![WorkerAction::Sleep { secs: interval }],
            WorkerEvent::Entry { name, is_dir } => if is_dir {
                actions.len() == 0
            } else {
                actions == seq![WorkerAction::ReadFile { file: name }]
            },
            _ => actions.len() == 0,
        },
        WorkerState::Handling { file } => match e {
            WorkerEvent::Loaded { record } => match record {
                Some(rec) => actions == seq![WorkerAction::Orchestrate { record: rec }],
                None => actions == seq![WorkerAction::MoveFile { file, folder: Folder::Failed }],
            },
            _ => actions.len() == 0,
        },
        WorkerState::Orchestrating { file, id, source, destination } => match e {
            WorkerEvent::Orchestrated { outcome } => match outcome {
                Ok(o) => {
                    &&& actions.len() == 3
                    &&& actions[0] == WorkerAction::RecordRun { outcome: o }
                    &&& actions[1] matches WorkerAction::Notify { message }
                        && is_pipeline_notice(message, id@, source@, destination@, o.stats)
                    &&& actions[2] == WorkerAction::MoveFile { file, folder: Folder::Processed }
                },
                Err(_) => actions == seq![WorkerAction::MoveFile { file, folder: Folder::Failed }],
            },
            _ => actions.len() == 0,
        },
    }
}

/// Whether `a` changes the pipeline registry or the run statistics.
pub open spec fn changes_registry(a: WorkerAction) -> bool {
    a is Orchestrate || a is RecordRun
}

/// The state after `s` on the events `events`, in order.
pub open spec fn state_after(s: WorkerState, events: Seq<WorkerEvent>) -> WorkerState
    decreases events.len(),
{
    if events.len() == 0 {
        s
    } else {
        next_state(state_after(s, events.drop_last()), events.last())
    }
}

/// Whether `e` reports a regular file of the work directory.
pub open spec fn lists_file(e: WorkerEvent) -> bool {
    e matches WorkerEvent::Entry { is_dir, .. } && !is_dir
}

proof fn lemma_quiet_states(s: WorkerState, events: Seq<WorkerEvent>)
    requires
        s is Idle || s is Scanning,
        forall|k: int| 0 <= k < events.len() ==> !lists_file(#[trigger] events[k]),
    ensures
        state_after(s, events) is Idle || state_after(s, events) is Scanning,
    decreases events.len(),
{
    if events.len() > 0 {
        let rest = events.drop_last();
        assert(forall|k: int| 0 <= k < rest.len() ==> rest[k] == events[k]);
        lemma_quiet_states(s, rest);
        assert(!lists_file(events[events.len() - 1]));
    }
}

/// A scan over a work directory that lists no regular file (for example one
/// whose files were all moved away already) asks for no change to the
/// pipeline registry or the run statistics, at any of its steps.
pub proof fn lemma_scan_without_files_changes_nothing(
    s: WorkerState,
    events: Seq<WorkerEvent>,
    interval: u64,
    i: int,
    actions: Seq<WorkerAction>,
)
    requires
        s is Idle || s is Scanning,
        forall|k: int| 0 <= k < events.len() ==> !lists_file(#[trigger] events[k]),
        0 <= i < events.len(),
        step_actions(state_after(s, events.take(i)), events[i], interval, actions),
    ensures
        forall|k: int| 0 <= k < actions.len() ==> !changes_registry(#[trigger] actions[k]),
{
    let prefix = events.take(i);
    assert(forall|k: int| 0 <= k < prefix.len() ==> prefix[k] == events[k]);
    lemma_quiet_states(s, prefix);
    assert(!lists_file(events[i]));
}

/// The worker's decisions between scans of the queue.
pub struct QueueWorker {
    state: WorkerState,
    interval_secs: u64,
}

impl QueueWorker {
    pub closed spec fn state(&self) -> WorkerState {
        self.state
    }

    pub closed spec fn interval(&self) -> u64 {
        self.interval_secs
    }

    /// An idle worker that pauses `configured_secs` between scans, or
    /// `MIN_POLL_INTERVAL_SECS` if that is more.
    pub fn new(configured_secs: u64) -> (r: QueueWorker)
        ensures
            r.state() is Idle,
            r.interval() == if configured_secs < MIN_POLL_INTERVAL_SECS {
                MIN_POLL_INTERVAL_SECS
            } else {
                configured_secs
            },
    {
        let interval_secs = if configured_secs < MIN_POLL_INTERVAL_SECS {
            MIN_POLL_INTERVAL_SECS
        } else {
            configured_secs
        };
        QueueWorker { state: WorkerState::Idle, interval_secs }
    }

    /// The pause between scans, in seconds.
    pub fn interval_secs(&self) -> (r: u64)
        ensures
            r == self.interval(),
    {
        self.interval_secs
    }

    /// Whether the worker is between scans.
    pub fn is_idle(&self) -> (r: bool)
        ensures
            r == self.state() is Idle,
    {
        match self.state {
            WorkerState::Idle => true,
            _ => false,
        }
    }

    /// Takes in what happened and returns what to do next, in order.
    pub fn step(&mut self, event: WorkerEvent) -> (r: Vec<WorkerAction>)
        ensures
            final(self).state() == next_state(old(self).state(), event),
            final(self).interval() == old(self).interval(),
            step_actions(old(self).state(), event, old(self).interval(), r@),
    {
        let mut state = WorkerState::Idle;
        std::mem::swap(&mut self.state, &mut state);
        let interval = self.interval_secs;
        let mut actions: Vec<WorkerAction> = Vec::new();
        let next = match state {
            WorkerState::Idle => match event {
                WorkerEvent::Tick => {
                    actions.push(WorkerAction::ListWorkDir);
                    assert(actions@ =~= seq![WorkerAction::ListWorkDir]);
                    WorkerState::Scanning
                },
                _ => WorkerState::Idle,
            },
            WorkerState::Scanning => match event {
                WorkerEvent::WorkDirMissing => {
                    actions.push(WorkerAction::CreateWorkDir);
                    actions.push(WorkerAction::Sleep { secs: interval });
                    assert(actions@ =~= seq![
                        WorkerAction::CreateWorkDir,
                        WorkerAction::Sleep { secs: interval },
                    ]);
                    WorkerState::Idle
                },
                WorkerEvent::ScanFailed => {
                    actions.push(WorkerAction::Sleep { secs: interval });
                    assert(actions@ =~= seq![WorkerAction::Sleep { secs: interval }]);
                    WorkerState::Idle
                },
                WorkerEvent::ListDone => {
                    actions.push(WorkerAction::Sleep { secs: interval });
                    assert(actions@ =~= seq![WorkerAction::Sleep { secs: interval }]);
                    WorkerState::Idle
                },
                WorkerEvent::Entry { name, is_dir } => {
                    if is_dir {
                        WorkerState::Scanning
                    } else {
                        actions.push(WorkerAction::ReadFile { file: name.clone() });
                        assert(actions@ =~= seq![WorkerAction::ReadFile { file: name }]);
                        WorkerState::Handling { file: name }
                    }
                },
                _ => WorkerState::Scanning,
            },
            WorkerState::Handling { file } => match event {
                WorkerEvent::Loaded { record } => match record {
                    Some(rec) => {
                        let id = rec.id.clone();
                        let source = rec.source.clone();
                        let destination = rec.destination.clone();
                        let ghost moved = rec;
                        actions.push(WorkerAction::Orchestrate { record: rec });
                        assert(actions@ =~= seq![WorkerAction::Orchestrate { record: moved }]);
                        WorkerState::Orchestrating { file, id, source, destination }
                    },
                    None => {
                        let ghost f = file;
                        actions.push(WorkerAction::MoveFile { file, folder: Folder::Failed });
                        assert(actions@ =~= seq![
                            WorkerAction::MoveFile { file: f, folder: Folder::Failed },
                        ]);
                        WorkerState::Scanning
                    },
                },
                _ => WorkerState::Handling { file },
            },
            WorkerState::Orchestrating { file, id, source, destination } => match event {
                WorkerEvent::Orchestrated { outcome } => match outcome {
                    Ok(o) => {
                        actions.push(WorkerAction::RecordRun { outcome: o });
                        let message = pipeline_notice(
                            id.as_str(),
                            source.as_str(),
                            destination.as_str(),
                            &o.stats,
                        );
                        actions.push(WorkerAction::Notify { message });
                        actions.push(WorkerAction::MoveFile { file, folder: Folder::Processed });
                        WorkerState::Scanning
                    },
                    Err(_) => {
                        let ghost f = file;
                        actions.push(WorkerAction::MoveFile { file, folder: Folder::Failed });
                        assert(actions@ =~= seq![
                            WorkerAction::MoveFile { file: f, folder: Folder::Failed },
                        ]);
                        WorkerState::Scanning
                    },
                },
                _ => WorkerState::Orchestrating { file, id, source, destination },
            },
        };
        self.state = next;
        actions
    }
}

} // verus!

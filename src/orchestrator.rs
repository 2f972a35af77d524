//! The registry of pipelines: creation runs the extractor and records the run.
use vstd::prelude::*;

use crate::extractor::{graph_edges, graph_nodes, BloodHoundExtractor, ExtractionError};
use crate::json::{owned, str_eq, Json, JsonValue};
use crate::platform::now_timestamp;

verus! {

/// The state of a pipeline. Creation makes it `Active` and stopping makes it
/// `Stopped`; `Paused` and `Error` have no producing operation yet.
#[derive(Debug)]
pub enum PipelineStatus {
    Active,
    Paused,
    Stopped,
    Error(String),
}

/// The mathematical value of a `PipelineStatus`.
pub enum StatusValue {
    Active,
    Paused,
    Stopped,
    Error(Seq<char>),
}

/// The counts and time of one run of a pipeline.
#[derive(Debug, Clone, Copy, PartialEq, Eq)]
pub struct PipelineRunStats {
    pub nodes_count: usize,
    pub edges_count: usize,
    pub processed_at: i64,
}

/// A registered pipeline.
#[derive(Debug)]
pub struct Pipeline {
    pub id: String,
    pub source: String,
    pub destination: String,
    pub status: PipelineStatus,
    pub created_at: i64,
    pub last_run: Option<PipelineRunStats>,
}

/// The mathematical value of a `Pipeline`.
pub struct PipelineView {
    pub id: Seq<char>,
    pub source: Seq<char>,
    pub destination: Seq<char>,
    pub status: StatusValue,
    pub created_at: i64,
    pub last_run: Option<PipelineRunStats>,
}

/// A pipeline id that the registry does not hold.
#[derive(Debug)]
pub struct PipelineNotFound {
    pub id: String,
}

impl View for PipelineStatus {
    type V = StatusValue;

    open spec fn view(&self) -> StatusValue {
        match self {
            PipelineStatus::Active => StatusValue::Active,
            PipelineStatus::Paused => StatusValue::Paused,
            PipelineStatus::Stopped => StatusValue::Stopped,
            PipelineStatus::Error(reason) => StatusValue::Error(reason@),
        }
    }
}

impl View for Pipeline {
    type V = PipelineView;

    open spec fn view(&self) -> PipelineView {
        PipelineView {
            id: self.id@,
            source: self.source@,
            destination: self.destination@,
            status: self.status@,
            created_at: self.created_at,
            last_run: self.last_run,
        }
    }
}

/// The registry of pipelines, keyed by id. Single writer at a time; callers
/// that share it hold it behind a read-write lock.
pub struct Orchestrator {
    pipelines: Vec<Pipeline>,
}

/// The position of the pipeline with id `id` in `s`, searching from the end.
pub open spec fn index_of(s: Seq<PipelineView>, id: Seq<char>) -> Option<int>
    decreases s.len(),
{
    if s.len() == 0 {
        None
    } else if s.last().id == id {
        Some(s.len() - 1)
    } else {
        index_of(s.drop_last(), id)
    }
}

/// The pipeline with id `id` in `s`, if any.
pub open spec fn lookup(s: Seq<PipelineView>, id: Seq<char>) -> Option<PipelineView> {
    match index_of(s, id) {
        Some(i) => Some(s[i]),
        None => None,
    }
}

/// `s` with `p` in place of the pipeline with the same id, or added at the end.
pub open spec fn upsert(s: Seq<PipelineView>, p: PipelineView) -> Seq<PipelineView> {
    match index_of(s, p.id) {
        Some(i) => s.update(i, p),
        None => s.push(p),
    }
}

/// `s` with the pipeline with id `id`, if any, set to `Stopped`.
pub open spec fn stopped(s: Seq<PipelineView>, id: Seq<char>) -> Seq<PipelineView> {
    match index_of(s, id) {
        Some(i) => s.update(i, PipelineView { status: StatusValue::Stopped, ..s[i] }),
        None => s,
    }
}

/// The number of pipelines of `s` whose status is `Active`.
pub open spec fn active_count(s: Seq<PipelineView>) -> nat
    decreases s.len(),
{
    if s.len() == 0 {
        0
    } else {
        active_count(s.drop_last()) + if s.last().status is Active {
            1nat
        } else {
            0nat
        }
    }
}

/// No two pipelines of `s` share an id.
pub open spec fn distinct_ids(s: Seq<PipelineView>) -> bool {
    forall|i: int, j: int| 0 <= i < j < s.len() ==> s[i].id != s[j].id
}

/// The run statistics of extracting `payload` at time `at`.
pub open spec fn run_of(payload: JsonValue, at: i64) -> PipelineRunStats {
    PipelineRunStats {
        nodes_count: graph_nodes(payload).len() as usize,
        edges_count: graph_edges(payload).len() as usize,
        processed_at: at,
    }
}

/// The pipeline that creation with these arguments records at time `at`.
pub open spec fn created(
    id: Seq<char>,
    source: Seq<char>,
    destination: Seq<char>,
    payload: JsonValue,
    at: i64,
) -> PipelineView {
    PipelineView {
        id,
        source,
        destination,
        status: StatusValue::Active,
        created_at: at,
        last_run: Some(run_of(payload, at)),
    }
}

proof fn lemma_index_of_prefix(s: Seq<PipelineView>, id: Seq<char>, i: int)
    requires
        0 <= i < s.len(),
    ensures
        index_of(s.subrange(0, i + 1), id) == if s[i].id == id {
            Some(i)
        } else {
            index_of(s.subrange(0, i), id)
        },
{
    assert(s.subrange(0, i + 1).drop_last() == s.subrange(0, i));
}

proof fn lemma_index_of_found(s: Seq<PipelineView>, id: Seq<char>)
    ensures
        match index_of(s, id) {
            Some(i) => 0 <= i < s.len() && s[i].id == id,
            None => forall|k: int| 0 <= k < s.len() ==> s[k].id != id,
        },
    decreases s.len(),
{
    if s.len() > 0 {
        lemma_index_of_found(s.drop_last(), id);
        assert(forall|k: int| 0 <= k < s.len() - 1 ==> s.drop_last()[k] == s[k]);
    }
}

proof fn lemma_index_of_unique(s: Seq<PipelineView>, id: Seq<char>, k: int)
    requires
        distinct_ids(s),
        0 <= k < s.len(),
        s[k].id == id,
    ensures
        index_of(s, id) == Some(k),
{
    lemma_index_of_found(s, id);
}

proof fn lemma_index_of_update(s: Seq<PipelineView>, i: int, p: PipelineView, id: Seq<char>)
    requires
        0 <= i < s.len(),
        p.id == s[i].id,
    ensures
        index_of(s.update(i, p), id) == index_of(s, id),
    decreases s.len(),
{
    let t = s.update(i, p);
    if i < s.len() - 1 {
        assert(t.drop_last() == s.drop_last().update(i, p));
        lemma_index_of_update(s.drop_last(), i, p, id);
    } else {
        assert(t.drop_last() == s.drop_last());
    }
}

proof fn lemma_index_of_push(s: Seq<PipelineView>, p: PipelineView, id: Seq<char>)
    ensures
        index_of(s.push(p), id) == if p.id == id {
            Some(s.len() as int)
        } else {
            index_of(s, id)
        },
{
    assert(s.push(p).drop_last() == s);
}

/// After an upsert, the pipeline is found under its id and every other id
/// finds what it found before; ids stay distinct.
pub proof fn lemma_upsert(s: Seq<PipelineView>, p: PipelineView, id: Seq<char>)
    requires
        distinct_ids(s),
    ensures
        distinct_ids(upsert(s, p)),
        lookup(upsert(s, p), id) == if id == p.id {
            Some(p)
        } else {
            lookup(s, id)
        },
        upsert(s, p).len() == s.len() + if lookup(s, p.id) is Some {
            0int
        } else {
            1int
        },
{
    lemma_index_of_found(s, p.id);
    lemma_index_of_found(s, id);
    match index_of(s, p.id) {
        Some(i) => {
            lemma_index_of_update(s, i, p, id);
            let t = s.update(i, p);
            assert(distinct_ids(t)) by {
                assert forall|a: int, b: int| 0 <= a < b < t.len() implies t[a].id != t[b].id by {
                    assert(s[a].id != s[b].id);
                }
            }
            if id == p.id {
                lemma_index_of_unique(t, id, i);
            }
        },
        None => {
            lemma_index_of_push(s, p, id);
            let t = s.push(p);
            assert(distinct_ids(t)) by {
                assert forall|a: int, b: int| 0 <= a < b < t.len() implies t[a].id != t[b].id by {
                    if b < s.len() {
                        assert(s[a].id != s[b].id);
                    } else {
                        assert(t[a] == s[a]);
                    }
                }
            }
        },
    }
}

/// Stopping keeps the ids, finds the stopped pipeline with status `Stopped`,
/// and leaves every other id as it was.
pub proof fn lemma_stopped(s: Seq<PipelineView>, id: Seq<char>, other: Seq<char>)
    requires
        distinct_ids(s),
    ensures
        distinct_ids(stopped(s, id)),
        stopped(s, id).len() == s.len(),
        lookup(stopped(s, id), other) == if other == id {
            match lookup(s, id) {
                Some(p) => Some(PipelineView { status: StatusValue::Stopped, ..p }),
                None => None,
            }
        } else {
            lookup(s, other)
        },
{
    lemma_index_of_found(s, id);
    lemma_index_of_found(s, other);
    match index_of(s, id) {
        Some(i) => {
            let p = PipelineView { status: StatusValue::Stopped, ..s[i] };
            lemma_index_of_update(s, i, p, other);
            let t = s.update(i, p);
            assert(distinct_ids(t)) by {
                assert forall|a: int, b: int| 0 <= a < b < t.len() implies t[a].id != t[b].id by {
                    assert(s[a].id != s[b].id);
                }
            }
            if other == id {
                lemma_index_of_unique(s, id, i);
            }
        },
        None => {},
    }
}

/// Creating a pipeline and then looking up its id finds it `Active`, with the
/// node and edge counts of extracting its payload.
pub proof fn lemma_create_then_get(
    s: Seq<PipelineView>,
    id: Seq<char>,
    source: Seq<char>,
    destination: Seq<char>,
    payload: JsonValue,
    at: i64,
)
    requires
        distinct_ids(s),
    ensures
        lookup(upsert(s, created(id, source, destination, payload, at)), id) matches Some(p) && {
            &&& p.status is Active
            &&& p.last_run matches Some(run) && run.nodes_count == graph_nodes(payload).len()
                as usize && run.edges_count == graph_edges(payload).len() as usize
        },
{
    lemma_upsert(s, created(id, source, destination, payload, at), id);
}

/// Creating twice under one id leaves one entry for it: the count of pipelines
/// is that after the first creation, and the entry holds the second run.
pub proof fn lemma_create_twice_overwrites(s: Seq<PipelineView>, p1: PipelineView, p2: PipelineView)
    requires
        distinct_ids(s),
        p1.id == p2.id,
    ensures
        upsert(upsert(s, p1), p2).len() == upsert(s, p1).len(),
        lookup(upsert(upsert(s, p1), p2), p2.id) == Some(p2),
{
    lemma_upsert(s, p1, p1.id);
    lemma_upsert(upsert(s, p1), p2, p2.id);
}

/// Stopping an id that the registry does not hold changes nothing, so the
/// count of active pipelines stays the same.
pub proof fn lemma_stop_unknown(s: Seq<PipelineView>, id: Seq<char>)
    requires
        lookup(s, id) is None,
    ensures
        stopped(s, id) == s,
        active_count(stopped(s, id)) == active_count(s),
{
}

impl Orchestrator {
    pub closed spec fn view(&self) -> Seq<PipelineView> {
        Seq::new(self.pipelines@.len(), |i: int| self.pipelines@[i]@)
    }

    proof fn lemma_view(&self)
        ensures
            self.view().len() == self.pipelines@.len(),
            forall|k: int|
                0 <= k < self.pipelines@.len() ==> #[trigger] self.view()[k]
                    == self.pipelines@[k]@,
    {
    }

    /// The registry holds at most one pipeline per id.
    pub open spec fn wf(&self) -> bool {
        distinct_ids(self.view())
    }

    /// An empty registry.
    pub fn new() -> (r: Orchestrator)
        ensures
            r.view() == Seq::<PipelineView>::empty(),
            r.wf(),
    {
        let r = Orchestrator { pipelines: Vec::new() };
        assert(r.view() =~= Seq::<PipelineView>::empty());
        r
    }

    /// The position of the pipeline with id `id`, if any.
    fn position(&self, id: &str) -> (r: Option<usize>)
        ensures
            match r {
                Some(i) => index_of(self.view(), id@) == Some(i as int) && i
                    < self.pipelines@.len(),
                None => index_of(self.view(), id@) is None,
            },
    {
        proof {
            self.lemma_view();
        }
        let ghost s = self.view();
        let mut i: usize = self.pipelines.len();
        assert(s.subrange(0, i as int) == s);
        while i > 0
            invariant
                s == self.view(),
                s.len() == self.pipelines@.len(),
                0 <= i <= s.len(),
                index_of(s, id@) == index_of(s.subrange(0, i as int), id@),
            decreases i,
        {
            i = i - 1;
            proof {
                lemma_index_of_prefix(s, id@, i as int);
            }
            assert(s[i as int].id == self.pipelines@[i as int].id@);
            if str_eq(self.pipelines[i].id.as_str(), id) {
                return Some(i);
            }
        }
        None
    }

    /// Runs the extractor on `payload` and records an `Active` pipeline under
    /// `id`, replacing any pipeline with that id. Returns the run's statistics.
    pub fn create_pipeline(&mut self, id: &str, source: &str, destination: &str, payload: &Json) -> (r:
        Result<PipelineRunStats, ExtractionError>)
        requires
            old(self).wf(),
        ensures
            final(self).wf(),
            r matches Ok(stats) && stats == run_of(payload@, stats.processed_at)
                && final(self).view() == upsert(
                old(self).view(),
                created(id@, source@, destination@, payload@, stats.processed_at),
            ),
    {
        let extracted = match BloodHoundExtractor::extract_from_json(payload) {
            Ok(g) => g,
            Err(e) => {
                return Err(e);
            },
        };
        let processed_at = now_timestamp();
        let stats = PipelineRunStats {
            nodes_count: extracted.nodes.len(),
            edges_count: extracted.edges.len(),
            processed_at,
        };
        let pipeline = Pipeline {
            id: owned(id),
            source: owned(source),
            destination: owned(destination),
            status: PipelineStatus::Active,
            created_at: processed_at,
            last_run: Some(stats),
        };
        let ghost p = created(id@, source@, destination@, payload@, processed_at);
        assert(pipeline@ == p);
        let ghost s = self.view();
        proof {
            lemma_upsert(s, p, id@);
            self.lemma_view();
            lemma_index_of_found(s, id@);
        }
        match self.position(id) {
            Some(i) => {
                self.pipelines.set(i, pipeline);
                assert(self.view() =~= s.update(i as int, p));
            },
            None => {
                self.pipelines.push(pipeline);
                assert(self.view() =~= s.push(p));
            },
        }
        Ok(stats)
    }

    /// The pipeline registered under `id`, if any.
    pub fn get_pipeline(&self, id: &str) -> (r: Option<&Pipeline>)
        ensures
            match r {
                Some(p) => lookup(self.view(), id@) == Some(p@),
                None => lookup(self.view(), id@) is None,
            },
    {
        proof {
            self.lemma_view();
        }
        match self.position(id) {
            Some(i) => Some(&self.pipelines[i]),
            None => None,
        }
    }

    /// Every registered pipeline, once each.
    pub fn list_pipelines(&self) -> (r: Vec<&Pipeline>)
        ensures
            r@.len() == self.view().len(),
            forall|k: int| 0 <= k < r@.len() ==> (#[trigger] r@[k])@ == self.view()[k],
    {
        let mut out: Vec<&Pipeline> = Vec::new();
        let mut i: usize = 0;
        while i < self.pipelines.len()
            invariant
                0 <= i <= self.pipelines@.len(),
                out@.len() == i,
                forall|k: int| 0 <= k < i ==> (#[trigger] out@[k])@ == self.view()[k],
            decreases self.pipelines@.len() - i,
        {
            out.push(&self.pipelines[i]);
            i = i + 1;
        }
        out
    }

    /// Sets the pipeline registered under `id` to `Stopped`; fails, changing
    /// nothing, when there is none.
    pub fn stop_pipeline(&mut self, id: &str) -> (r: Result<(), PipelineNotFound>)
        requires
            old(self).wf(),
        ensures
            final(self).wf(),
            final(self).view() == stopped(old(self).view(), id@),
            r is Err <==> lookup(old(self).view(), id@) is None,
            r matches Err(e) ==> e.id@ == id@,
    {
        let ghost s = self.view();
        proof {
            lemma_stopped(s, id@, id@);
            self.lemma_view();
        }
        match self.position(id) {
            Some(i) => {
                self.pipelines[i].status = PipelineStatus::Stopped;
                assert(self.view() =~= s.update(
                    i as int,
                    PipelineView { status: StatusValue::Stopped, ..s[i as int] },
                ));
                Ok(())
            },
            None => Err(PipelineNotFound { id: owned(id) }),
        }
    }

    /// The number of pipelines whose status is `Active`.
    pub fn active_pipeline_count(&self) -> (r: usize)
        ensures
            r == active_count(self.view()),
    {
        let ghost s = self.view();
        let mut count: usize = 0;
        let mut i: usize = 0;
        while i < self.pipelines.len()
            invariant
                s == self.view(),
                s.len() == self.pipelines@.len(),
                0 <= i <= s.len(),
                count == active_count(s.subrange(0, i as int)),
                count <= i,
            decreases s.len() - i,
        {
            assert(s.subrange(0, i + 1).drop_last() == s.subrange(0, i as int));
            if let PipelineStatus::Active = self.pipelines[i].status {
                count = count + 1;
            }
            i = i + 1;
        }
        assert(s.subrange(0, s.len() as int) == s);
        count
    }
}

impl Default for Orchestrator {
    fn default() -> (r: Orchestrator)
        ensures
            r.view() == Seq::<PipelineView>::empty(),
            r.wf(),
    {
        Orchestrator::new()
    }
}

} // verus!

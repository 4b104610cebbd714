//! The ingestion job as a state machine: the caller performs each action
//! (read the cursor, call the embedding provider, write to the store) and
//! hands back what happened; the job decides what comes next.

use vstd::prelude::*;
use crate::enrich::{context_spec, plan_embedding, skips_embedding, EmbeddingPlan};
use crate::entity::{collection_label_spec, label_for_collection, RawRecord};
use crate::labels::EntityLabel;
use crate::writer::{
    edge_writes_spec, edge_writes_view, ingest_entity_to_graph, node_write_spec, EdgeWrite,
    EdgeWriteView, NodeWrite, NodeWriteView,
};

verus! {

#[derive(Clone, Copy, Debug, PartialEq, Eq, Structural)]
pub enum JobPhase {
    Pending,
    Running,
    Completed,
    Failed,
}

/// Why a trigger was refused.
#[derive(Clone, Copy, Debug, PartialEq, Eq, Structural)]
pub enum TriggerError {
    UnsupportedCollection,
}

/// What the caller observed after performing the last action.
#[derive(Clone, Debug)]
pub enum JobEvent {
    CursorOpened,
    CursorFailed,
    Record(RawRecord),
    RecordUndecodable,
    Exhausted,
    StreamFailed,
    /// Whether the provider gave a vector.
    Embedded(bool),
    /// Whether the node upsert succeeded.
    NodeWritten(bool),
    /// Whether the edge upsert succeeded.
    EdgeWritten(bool),
}

/// What the caller performs next.
#[derive(Clone, Debug)]
pub enum JobAction {
    FetchNext,
    /// Ask the provider for the vector of this text.
    Embed(String),
    /// Upsert the node; with `true`, bind the vector just received, else an
    /// empty one.
    WriteNode(NodeWrite, bool),
    WriteEdge(EdgeWrite),
    /// The job is over.
    Stop,
}

/// A per-record outcome worth a log line; none of them stops the job.
#[derive(Clone, Copy, Debug, PartialEq, Eq, Structural)]
pub enum JobWarning {
    RecordSkipped,
    EmbeddingAbsent,
    NodeWriteFailed,
    EdgeWriteFailed,
}

#[derive(Debug)]
pub struct JobStep {
    pub action: JobAction,
    pub warning: Option<JobWarning>,
}

#[derive(Debug)]
enum Stage {
    OpeningCursor,
    Fetching,
    Embedding(NodeWrite, Vec<EdgeWrite>),
    WritingNode(Vec<EdgeWrite>),
    WritingEdges(Vec<EdgeWrite>, usize),
    Done,
}

pub enum StageView {
    OpeningCursor,
    Fetching,
    Embedding(NodeWriteView, Seq<EdgeWriteView>),
    WritingNode(Seq<EdgeWriteView>),
    WritingEdges(Seq<EdgeWriteView>, nat),
    Done,
}

pub enum ActionView {
    FetchNext,
    Embed(Seq<char>),
    WriteNode(NodeWriteView, bool),
    WriteEdge(EdgeWriteView),
    Stop,
}

impl View for JobAction {
    type V = ActionView;

    open spec fn view(&self) -> ActionView {
        match self {
            JobAction::FetchNext => ActionView::FetchNext,
            JobAction::Embed(c) => ActionView::Embed(c@),
            JobAction::WriteNode(w, v) => ActionView::WriteNode(w@, *v),
            JobAction::WriteEdge(w) => ActionView::WriteEdge(w@),
            JobAction::Stop => ActionView::Stop,
        }
    }
}

pub struct JobView {
    pub label: EntityLabel,
    pub phase: JobPhase,
    pub credential: Seq<char>,
    pub min_text_len: nat,
    pub stage: StageView,
}

/// One ingestion job over one collection.
#[derive(Debug)]
pub struct Job {
    label: EntityLabel,
    phase: JobPhase,
    credential: String,
    min_text_len: usize,
    stage: Stage,
}

spec fn stage_view(s: Stage) -> StageView {
    match s {
        Stage::OpeningCursor => StageView::OpeningCursor,
        Stage::Fetching => StageView::Fetching,
        Stage::Embedding(w, es) => StageView::Embedding(w@, edge_writes_view(es@)),
        Stage::WritingNode(es) => StageView::WritingNode(edge_writes_view(es@)),
        Stage::WritingEdges(es, i) => StageView::WritingEdges(edge_writes_view(es@), i as nat),
        Stage::Done => StageView::Done,
    }
}

impl View for Job {
    type V = JobView;

    closed spec fn view(&self) -> JobView {
        JobView {
            label: self.label,
            phase: self.phase,
            credential: self.credential@,
            min_text_len: self.min_text_len as nat,
            stage: stage_view(self.stage),
        }
    }
}

/// The events that a stage waits for.
pub open spec fn accepts_spec(stage: StageView, event: JobEvent) -> bool {
    match stage {
        StageView::OpeningCursor => event is CursorOpened || event is CursorFailed,
        StageView::Fetching => event is Record || event is RecordUndecodable || event is Exhausted
            || event is StreamFailed,
        StageView::Embedding(..) => event is Embedded,
        StageView::WritingNode(..) => event is NodeWritten,
        StageView::WritingEdges(..) => event is EdgeWritten,
        StageView::Done => false,
    }
}

/// After the node, the first edge, or the next record when there is none.
pub open spec fn first_edge_spec(j: JobView, es: Seq<EdgeWriteView>) -> (JobView, ActionView) {
    if es.len() == 0 {
        (JobView { stage: StageView::Fetching, ..j }, ActionView::FetchNext)
    } else {
        (JobView { stage: StageView::WritingEdges(es, 0), ..j }, ActionView::WriteEdge(es[0]))
    }
}

/// The next state, the action and the warning, for a state and an event the
/// state accepts.
pub open spec fn step_spec(j: JobView, event: JobEvent) -> (JobView, ActionView, Option<JobWarning>) {
    match (j.stage, event) {
        (StageView::OpeningCursor, JobEvent::CursorOpened) => (
            JobView { phase: JobPhase::Running, stage: StageView::Fetching, ..j },
            ActionView::FetchNext,
            None,
        ),
        (StageView::Fetching, JobEvent::Record(r)) => {
            let w = node_write_spec(r);
            let es = edge_writes_spec(r.edges_spec());
            if skips_embedding(j.credential, r.rich_text_view(), j.min_text_len) {
                (
                    JobView { stage: StageView::WritingNode(es), ..j },
                    ActionView::WriteNode(w, false),
                    None,
                )
            } else {
                (
                    JobView { stage: StageView::Embedding(w, es), ..j },
                    ActionView::Embed(context_spec(r.name_view(), r.label_spec(), r.rich_text_view())),
                    None,
                )
            }
        },
        (StageView::Fetching, JobEvent::RecordUndecodable) => (
            j,
            ActionView::FetchNext,
            Some(JobWarning::RecordSkipped),
        ),
        (StageView::Fetching, JobEvent::Exhausted) => (
            JobView { phase: JobPhase::Completed, stage: StageView::Done, ..j },
            ActionView::Stop,
            None,
        ),
        (StageView::Embedding(w, es), JobEvent::Embedded(ok)) => (
            JobView { stage: StageView::WritingNode(es), ..j },
            ActionView::WriteNode(w, ok),
            if ok {
                None
            } else {
                Some(JobWarning::EmbeddingAbsent)
            },
        ),
        (StageView::WritingNode(es), JobEvent::NodeWritten(ok)) => {
            if ok {
                let (next, action) = first_edge_spec(j, es);
                (next, action, None)
            } else {
                (
                    JobView { stage: StageView::Fetching, ..j },
                    ActionView::FetchNext,
                    Some(JobWarning::NodeWriteFailed),
                )
            }
        },
        (StageView::WritingEdges(es, i), JobEvent::EdgeWritten(ok)) => {
            let warning = if ok {
                None
            } else {
                Some(JobWarning::EdgeWriteFailed)
            };
            if i + 1 < es.len() {
                (
                    JobView { stage: StageView::WritingEdges(es, (i + 1) as nat), ..j },
                    ActionView::WriteEdge(es[i + 1 as int]),
                    warning,
                )
            } else {
                (JobView { stage: StageView::Fetching, ..j }, ActionView::FetchNext, warning)
            }
        },
        // A failure of the source itself: the cursor could not be opened or broke.
        _ => (JobView { phase: JobPhase::Failed, stage: StageView::Done, ..j }, ActionView::Stop, None),
    }
}

impl Job {
    /// The phase matches the stage, and an edge stage points at an edge.
    pub closed spec fn wf(&self) -> bool {
        &&& (self.phase == JobPhase::Pending <==> self.stage is OpeningCursor)
        &&& (self.stage is Done <==> (self.phase == JobPhase::Completed || self.phase
            == JobPhase::Failed))
        &&& (self.stage matches Stage::WritingEdges(es, i) ==> i < es@.len())
    }

    /// A new job waits for its cursor; its first action is to open it.
    pub fn new(label: EntityLabel, credential: String, min_text_len: usize) -> (r: Job)
        ensures
            r.wf(),
            r@ == (JobView {
                label,
                phase: JobPhase::Pending,
                credential: credential@,
                min_text_len: min_text_len as nat,
                stage: StageView::OpeningCursor,
            }),
    {
        Job { label, phase: JobPhase::Pending, credential, min_text_len, stage: Stage::OpeningCursor }
    }

    pub fn label(&self) -> (r: EntityLabel)
        ensures
            r == self@.label,
    {
        self.label
    }

    pub fn phase(&self) -> (r: JobPhase)
        ensures
            r == self@.phase,
    {
        self.phase
    }

    pub fn accepts(&self, event: &JobEvent) -> (r: bool)
        ensures
            r == accepts_spec(self@.stage, *event),
    {
        match (&self.stage, event) {
            (Stage::OpeningCursor, JobEvent::CursorOpened) => true,
            (Stage::OpeningCursor, JobEvent::CursorFailed) => true,
            (Stage::Fetching, JobEvent::Record(_)) => true,
            (Stage::Fetching, JobEvent::RecordUndecodable) => true,
            (Stage::Fetching, JobEvent::Exhausted) => true,
            (Stage::Fetching, JobEvent::StreamFailed) => true,
            (Stage::Embedding(..), JobEvent::Embedded(_)) => true,
            (Stage::WritingNode(..), JobEvent::NodeWritten(_)) => true,
            (Stage::WritingEdges(..), JobEvent::EdgeWritten(_)) => true,
            _ => false,
        }
    }

    fn first_edge(self, es: Vec<EdgeWrite>) -> (r: (Job, JobAction))
        requires
            self.wf(),
            self.phase == JobPhase::Running,
        ensures
            r.0.wf(),
            (r.0@, r.1@) == first_edge_spec(self@, edge_writes_view(es@)),
    {
        let Job { label, phase, credential, min_text_len, stage: _ } = self;
        if es.len() == 0 {
            (Job { label, phase, credential, min_text_len, stage: Stage::Fetching }, JobAction::FetchNext)
        } else {
            let w = es[0].copy();
            (Job { label, phase, credential, min_text_len, stage: Stage::WritingEdges(es, 0) }, JobAction::WriteEdge(w))
        }
    }

    /// Hands the outcome of the last action to the job.
    pub fn step(self, event: JobEvent) -> (r: (Job, JobStep))
        requires
            self.wf(),
            accepts_spec(self@.stage, event),
        ensures
            r.0.wf(),
            (r.0@, r.1.action@, r.1.warning) == step_spec(self@, event),
    {
        let Job { label, phase, credential, min_text_len, stage } = self;
        match (stage, event) {
            (Stage::OpeningCursor, JobEvent::CursorOpened) => (
                Job { label, phase: JobPhase::Running, credential, min_text_len, stage: Stage::Fetching },
                JobStep { action: JobAction::FetchNext, warning: None },
            ),
            (Stage::Fetching, JobEvent::Record(rec)) => {
                let (w, writes) = ingest_entity_to_graph(&rec);
                let name = rec.entity_name();
                let text = rec.rich_text();
                let plan = plan_embedding(credential.as_str(), name.as_str(), rec.label(), text.as_str(), min_text_len);
                match plan {
                    EmbeddingPlan::Skip => {
                        (
                            Job { label, phase, credential, min_text_len, stage: Stage::WritingNode(writes) },
                            JobStep { action: JobAction::WriteNode(w, false), warning: None },
                        )
                    },
                    EmbeddingPlan::Request(context) => (
                        Job { label, phase, credential, min_text_len, stage: Stage::Embedding(w, writes) },
                        JobStep { action: JobAction::Embed(context), warning: None },
                    ),
                }
            },
            (Stage::Fetching, JobEvent::RecordUndecodable) => (
                Job { label, phase, credential, min_text_len, stage: Stage::Fetching },
                JobStep { action: JobAction::FetchNext, warning: Some(JobWarning::RecordSkipped) },
            ),
            (Stage::Fetching, JobEvent::Exhausted) => (
                Job { label, phase: JobPhase::Completed, credential, min_text_len, stage: Stage::Done },
                JobStep { action: JobAction::Stop, warning: None },
            ),
            (Stage::Embedding(w, edges), JobEvent::Embedded(ok)) => {
                (
                    Job { label, phase, credential, min_text_len, stage: Stage::WritingNode(edges) },
                    JobStep {
                        action: JobAction::WriteNode(w, ok),
                        warning: if ok {
                            None
                        } else {
                            Some(JobWarning::EmbeddingAbsent)
                        },
                    },
                )
            },
            (Stage::WritingNode(edges), JobEvent::NodeWritten(ok)) => {
                if ok {
                    let job = Job { label, phase, credential, min_text_len, stage: Stage::Fetching };
                    let (next, action) = job.first_edge(edges);
                    (next, JobStep { action, warning: None })
                } else {
                    (
                        Job { label, phase, credential, min_text_len, stage: Stage::Fetching },
                        JobStep { action: JobAction::FetchNext, warning: Some(JobWarning::NodeWriteFailed) },
                    )
                }
            },
            (Stage::WritingEdges(edges, i), JobEvent::EdgeWritten(ok)) => {
                let warning = if ok {
                    None
                } else {
                    Some(JobWarning::EdgeWriteFailed)
                };
                if i < edges.len() && i + 1 < edges.len() {
                    let w = edges[i + 1].copy();
                    (
                        Job { label, phase, credential, min_text_len, stage: Stage::WritingEdges(edges, i + 1) },
                        JobStep { action: JobAction::WriteEdge(w), warning },
                    )
                } else {
                    (
                        Job { label, phase, credential, min_text_len, stage: Stage::Fetching },
                        JobStep { action: JobAction::FetchNext, warning },
                    )
                }
            },
            (_, _) => (
                Job { label, phase: JobPhase::Failed, credential, min_text_len, stage: Stage::Done },
                JobStep { action: JobAction::Stop, warning: None },
            ),
        }
    }
}

/// Accepts a trigger for a collection: an unsupported name is refused before
/// any job exists, so nothing is read, written or transitioned.
pub fn start_job(collection: &str, credential: String, min_text_len: usize) -> (r: Result<Job, TriggerError>)
    ensures
        r is Err <==> collection_label_spec(collection@) is None,
        r matches Err(e) ==> e == TriggerError::UnsupportedCollection,
        r matches Ok(job) ==> job.wf() && job@ == (JobView {
            label: collection_label_spec(collection@).unwrap(),
            phase: JobPhase::Pending,
            credential: credential@,
            min_text_len: min_text_len as nat,
            stage: StageView::OpeningCursor,
        }),
{
    match label_for_collection(collection) {
        Some(label) => Ok(Job::new(label, credential, min_text_len)),
        None => Err(TriggerError::UnsupportedCollection),
    }
}

/// Short-text suppression: a record whose description is shorter than the
/// job's minimum is written without any embedding request, and no later step
/// of that record asks for one.
pub proof fn lemma_short_text_never_embeds(j: JobView, r: RawRecord)
    requires
        j.stage is Fetching,
        r.rich_text_view().len() < j.min_text_len,
    ensures
        step_spec(j, JobEvent::Record(r)).1 == ActionView::WriteNode(node_write_spec(r), false),
        step_spec(j, JobEvent::Record(r)).0.stage == StageView::WritingNode(edge_writes_spec(r.edges_spec())),
        forall|ok: bool|
            !(#[trigger] step_spec(step_spec(j, JobEvent::Record(r)).0, JobEvent::NodeWritten(ok)).1 is Embed),
{
}

/// Only the source can fail a job: a step into the failed phase comes from a
/// cursor that could not be opened or that broke, never from a record.
pub proof fn lemma_failure_only_from_source(j: JobView, event: JobEvent)
    requires
        accepts_spec(j.stage, event),
        step_spec(j, event).0.phase == JobPhase::Failed,
        j.phase != JobPhase::Failed,
    ensures
        event is CursorFailed || event is StreamFailed,
{
}

/// The state after handing the job a sequence of events, one step each.
pub open spec fn run_spec(j: JobView, events: Seq<JobEvent>) -> JobView
    decreases events.len(),
{
    if events.len() == 0 {
        j
    } else {
        run_spec(step_spec(j, events[0]).0, events.drop_first())
    }
}

/// Each event of the sequence is one the job waits for at its turn.
pub open spec fn run_accepted(j: JobView, events: Seq<JobEvent>) -> bool
    decreases events.len(),
{
    events.len() == 0 || (accepts_spec(j.stage, events[0]) && run_accepted(
        step_spec(j, events[0]).0,
        events.drop_first(),
    ))
}

pub open spec fn is_source_failure(event: JobEvent) -> bool {
    event is CursorFailed || event is StreamFailed
}

/// A run continues past every per-record outcome: from a running job, any
/// accepted sequence of events without a source failure that ends when the
/// cursor is exhausted leaves the job completed, whatever embeddings, node
/// writes, edge writes or decodings failed on the way.
pub proof fn lemma_run_completes(j: JobView, events: Seq<JobEvent>)
    requires
        j.phase == JobPhase::Running,
        run_accepted(j, events),
        events.len() > 0,
        events.last() is Exhausted,
        forall|i: int| 0 <= i < events.len() ==> !is_source_failure(#[trigger] events[i]),
    ensures
        run_spec(j, events).phase == JobPhase::Completed,
    decreases events.len(),
{
    let e0 = events[0];
    let j1 = step_spec(j, e0).0;
    let rest = events.drop_first();
    assert(!is_source_failure(events[0]));
    assert(accepts_spec(j.stage, e0));
    assert(run_accepted(j1, rest));
    if events.len() == 1 {
        assert(e0 == events.last());
        assert(run_spec(j1, rest) == j1);
    } else {
        if e0 is Exhausted {
            assert(j1.stage is Done);
            assert(!accepts_spec(j1.stage, rest[0]));
        }
        assert(j1.phase == JobPhase::Running);
        assert(rest.last() == events.last());
        assert forall|i: int| 0 <= i < rest.len() implies !is_source_failure(#[trigger] rest[i]) by {
            assert(rest[i] == events[i + 1]);
        }
        lemma_run_completes(j1, rest);
    }
}

} // verus!

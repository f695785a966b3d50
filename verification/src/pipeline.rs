use vstd::prelude::*;

use crate::content::{CompleteLessonContent, GenerateLessonRequest};
use crate::errors::AgentError;
use crate::mapping::{class_level_of, prepare_generation, term_of};
use crate::records::{clone_optional_string, PersistedRecord, TopicRecord};
use crate::store::{
    create_verdict, decode_create_response, decode_fetch_response, select_query, select_verdict,
    build_select_query, StatementOutcome, StatementVerdict,
};

verus! {

/// Where a bulk generation run stands: awaiting the fetch response,
/// awaiting the generation response for the current topic, awaiting
/// the persist response for the current topic, or done.
#[derive(Clone, Copy, PartialEq, Eq, Structural, Debug)]
pub enum PipelinePhase {
    Fetching,
    Generating,
    Persisting,
    Done,
}

/// What the surrounding runtime must do next for the run: issue a
/// query, call the generation service, persist the generated lesson,
/// or stop — the run is complete or has failed.
pub enum PipelineAction {
    FetchTopics(String),
    GenerateContent(GenerateLessonRequest),
    PersistContent { content: CompleteLessonContent, source_id: String },
    Finished,
    Failed(AgentError),
}

/// What the runtime observed for the action it performed: the decoded
/// store envelope of a fetch or persist, the generated lesson, or the
/// failure of the remote call itself.
pub enum PipelineEvent {
    FetchResponse(Vec<StatementOutcome<TopicRecord>>),
    GenerationSucceeded(CompleteLessonContent),
    GenerationFailed(AgentError),
    PersistResponse(Vec<StatementOutcome<PersistedRecord>>),
    PersistFailed(AgentError),
}

/// The message wrapped around a generation failure for one topic,
/// naming the topic together with its subject and term.
pub open spec fn generation_failure_message(t: TopicRecord, inner: Seq<char>) -> Seq<char> {
    "Failed to generate content for topic '"@ + t.topic@ + "' (subject: "@ + t.subject@
        + ", term: "@ + t.term@ + "): "@ + inner
}

/// The message wrapped around a persistence failure for one topic.
pub open spec fn persist_failure_message(t: TopicRecord, inner: Seq<char>) -> Seq<char> {
    "Failed to create content for topic '"@ + t.topic@ + "': "@ + inner
}

/// Whether a topic's class and term both resolve through the fixed
/// lookups, so that a generation call may be made for it.
pub open spec fn topic_start_ok(t: TopicRecord) -> bool {
    class_level_of(t.class@) is Some && term_of(t.term@) is Some
}

/// The message of the typed rejection a topic receives before any
/// remote call, when its class or term does not resolve.
pub open spec fn topic_reject_message(t: TopicRecord) -> Seq<char> {
    if class_level_of(t.class@) is None {
        "Invalid class level: "@ + t.class@
    } else {
        "Invalid term: "@ + t.term@
    }
}

/// What beginning work on topic `t` yields: a generation request
/// carrying the topic's resolved fields, or — when the class or term
/// does not resolve — the wrapped failure that ends the run before any
/// remote call.
pub open spec fn begin_topic_spec(t: TopicRecord, phase: PipelinePhase, a: PipelineAction) -> bool {
    if topic_start_ok(t) {
        &&& phase is Generating
        &&& a matches PipelineAction::GenerateContent(req)
            && Some(req.class_level) == class_level_of(t.class@)
            && Some(req.term) == term_of(t.term@)
            && req.age_group == t.agegroup
            && req.subject == t.subject
            && req.topic == t.topic
            && req.week == t.week
    } else {
        &&& phase is Done
        &&& a matches PipelineAction::Failed(e)
            && e.code@ == "CONTENT_GENERATION_ERROR"@
            && e.message@ == generation_failure_message(t, topic_reject_message(t))
    }
}

/// One bulk generation run over a topic table, processed strictly in
/// fetch order and one topic at a time. The run itself performs no
/// remote call: each `step` consumes what the runtime observed and
/// decides the next action, so every decision — ordering, error
/// wrapping, fail-fast termination — is made here.
pub struct PipelineRun {
    phase: PipelinePhase,
    topics: Vec<TopicRecord>,
    next_topic: usize,
    results: Vec<PersistedRecord>,
}

impl PipelineRun {
    /// The phase the run is in.
    pub closed spec fn phase(self) -> PipelinePhase {
        self.phase
    }

    /// The topics fetched for the run, in fetch order.
    pub closed spec fn topics(self) -> Seq<TopicRecord> {
        self.topics@
    }

    /// The position of the topic being processed.
    pub closed spec fn current(self) -> int {
        self.next_topic as int
    }

    /// The records persisted so far, in topic order.
    pub closed spec fn results(self) -> Seq<PersistedRecord> {
        self.results@
    }

    /// The run's invariant: one persisted record per completed topic,
    /// the cursor within bounds, and on a topic only while one exists.
    pub open spec fn wf(self) -> bool {
        &&& self.results().len() == self.current()
        &&& self.current() <= self.topics().len()
        &&& (self.phase() is Generating || self.phase() is Persisting) ==> self.current()
            < self.topics().len()
        &&& self.phase() is Fetching ==> self.topics().len() == 0 && self.current() == 0
    }

    /// Reads the phase the run is in, so that a caller can check which
    /// events the run consumes before stepping it.
    pub fn current_phase(&self) -> (p: PipelinePhase)
        ensures
            p == self.phase(),
    {
        self.phase
    }

    /// Which events the run can consume in its phase.
    pub open spec fn accepts(self, e: PipelineEvent) -> bool {
        match e {
            PipelineEvent::FetchResponse(_) => self.phase() is Fetching,
            PipelineEvent::GenerationSucceeded(_) => self.phase() is Generating,
            PipelineEvent::GenerationFailed(_) => self.phase() is Generating,
            PipelineEvent::PersistResponse(_) => self.phase() is Persisting,
            PipelineEvent::PersistFailed(_) => self.phase() is Persisting,
        }
    }

    /// Opens a run over a table: the run awaits the fetch response and
    /// the runtime is told to issue the select query for the table.
    pub fn start(table: &str) -> (r: (PipelineRun, PipelineAction))
        ensures
            r.0.wf(),
            r.0.phase() is Fetching,
            r.0.results() == Seq::<PersistedRecord>::empty(),
            (r.1 matches PipelineAction::FetchTopics(q) && q@ == select_query(table@)),
    {
        let run = PipelineRun {
            phase: PipelinePhase::Fetching,
            topics: Vec::new(),
            next_topic: 0,
            results: Vec::new(),
        };
        (run, PipelineAction::FetchTopics(build_select_query(table)))
    }

    /// Turns to the current topic, or finishes when none is left:
    /// either the cursor stands past the last topic and the run is
    /// done, or the current topic is prepared for generation.
    fn advance(&mut self) -> (a: PipelineAction)
        requires
            old(self).results@.len() == old(self).next_topic,
            old(self).next_topic <= old(self).topics@.len(),
        ensures
            final(self).topics == old(self).topics,
            final(self).results == old(self).results,
            final(self).next_topic == old(self).next_topic,
            final(self).wf(),
            old(self).next_topic == old(self).topics@.len() ==> final(self).phase() is Done
                && a is Finished,
            old(self).next_topic < old(self).topics@.len() ==> begin_topic_spec(
                old(self).topics@[old(self).next_topic as int],
                final(self).phase(),
                a,
            ),
    {
        if self.next_topic == self.topics.len() {
            self.phase = PipelinePhase::Done;
            PipelineAction::Finished
        } else {
            let prep = prepare_generation(&self.topics[self.next_topic]);
            match prep {
                Ok(req) => {
                    self.phase = PipelinePhase::Generating;
                    PipelineAction::GenerateContent(req)
                },
                Err(e) => {
                    let wrapped = wrap_generation_failure(&self.topics[self.next_topic], e);
                    self.phase = PipelinePhase::Done;
                    PipelineAction::Failed(wrapped)
                },
            }
        }
    }

    /// Consumes what the runtime observed and decides the next action.
    /// A fetch failure is surfaced as decoded; a generation failure is
    /// wrapped with the topic's label and ends the run; a persisted
    /// record is recorded and the run turns to the next topic; a
    /// persistence failure is wrapped and ends the run. The run is
    /// fail-fast: the first failing topic terminates the whole run.
    pub fn step(&mut self, event: PipelineEvent) -> (a: PipelineAction)
        requires
            old(self).wf(),
            old(self).accepts(event),
        ensures
            final(self).wf(),
            step_spec(*old(self), event, *final(self), a),
    {
        match event {
            PipelineEvent::FetchResponse(env) => {
                match decode_fetch_response(env) {
                    Err(e) => {
                        self.phase = PipelinePhase::Done;
                        PipelineAction::Failed(e)
                    },
                    Ok(rows) => {
                        self.topics = rows;
                        self.next_topic = 0;
                        self.advance()
                    },
                }
            },
            PipelineEvent::GenerationSucceeded(content) => {
                let id_opt = clone_optional_string(&self.topics[self.next_topic].id);
                match id_opt {
                    Some(id) => {
                        self.phase = PipelinePhase::Persisting;
                        PipelineAction::PersistContent { content, source_id: id }
                    },
                    None => {
                        let inner = AgentError::fixed(
                            "CONTENT_DB_UPDATE_ERROR",
                            "Topic record has no id",
                        );
                        let wrapped = wrap_persist_failure(
                            &self.topics[self.next_topic],
                            inner,
                        );
                        self.phase = PipelinePhase::Done;
                        PipelineAction::Failed(wrapped)
                    },
                }
            },
            PipelineEvent::GenerationFailed(inner) => {
                let wrapped = wrap_generation_failure(&self.topics[self.next_topic], inner);
                self.phase = PipelinePhase::Done;
                PipelineAction::Failed(wrapped)
            },
            PipelineEvent::PersistResponse(env) => {
                match decode_create_response(env) {
                    Ok(rec) => {
                        // Bounds the topic count by usize, so that the
                        // cursor below can move without overflowing.
                        let _topic_count = self.topics.len();
                        proof {
                            assert(old(self).current() < old(self).topics().len());
                        }
                        self.results.push(rec);
                        self.next_topic = self.next_topic + 1;
                        self.advance()
                    },
                    Err(e) => {
                        let wrapped = wrap_persist_failure(&self.topics[self.next_topic], e);
                        self.phase = PipelinePhase::Done;
                        PipelineAction::Failed(wrapped)
                    },
                }
            },
            PipelineEvent::PersistFailed(inner) => {
                let wrapped = wrap_persist_failure(&self.topics[self.next_topic], inner);
                self.phase = PipelinePhase::Done;
                PipelineAction::Failed(wrapped)
            },
        }
    }

    /// Consumes a finished run, yielding the persisted records in
    /// topic order.
    pub fn take_results(self) -> (r: Vec<PersistedRecord>)
        ensures
            r@ == self.results(),
    {
        self.results
    }
}

/// The full contract of one `step`: for each event, how the run's
/// state changes and which action comes back.
pub open spec fn step_spec(
    pre: PipelineRun,
    event: PipelineEvent,
    post: PipelineRun,
    a: PipelineAction,
) -> bool {
    match event {
        PipelineEvent::FetchResponse(env) => match select_verdict(env@) {
            StatementVerdict::Reject { code, reason } => {
                &&& post.phase() is Done
                &&& post.results() == pre.results()
                &&& a matches PipelineAction::Failed(err)
                    && err.code@ == code
                    && err.message@ == reason
            },
            StatementVerdict::Rows(rows) => {
                &&& post.topics() == rows
                &&& post.results() == pre.results()
                &&& post.current() == 0
                &&& if rows.len() == 0 {
                    post.phase() is Done && a is Finished
                } else {
                    begin_topic_spec(rows[0], post.phase(), a)
                }
            },
        },
        PipelineEvent::GenerationSucceeded(content) => {
            let t = pre.topics()[pre.current()];
            &&& post.topics() == pre.topics()
            &&& post.results() == pre.results()
            &&& post.current() == pre.current()
            &&& match t.id {
                Some(id) => post.phase() is Persisting && (a matches
                    PipelineAction::PersistContent { content: c, source_id }
                    && c == content
                    && source_id == id),
                None => post.phase() is Done && (a matches PipelineAction::Failed(err)
                    && err.code@ == "CONTENT_DB_UPDATE_ERROR"@
                    && err.message@ == persist_failure_message(t, "Topic record has no id"@)),
            }
        },
        PipelineEvent::GenerationFailed(inner) => {
            let t = pre.topics()[pre.current()];
            &&& post.phase() is Done
            &&& post.topics() == pre.topics()
            &&& post.results() == pre.results()
            &&& a matches PipelineAction::Failed(err)
                && err.code@ == "CONTENT_GENERATION_ERROR"@
                && err.message@ == generation_failure_message(t, inner.message@)
        },
        PipelineEvent::PersistResponse(env) => {
            let t = pre.topics()[pre.current()];
            match create_verdict(env@) {
                StatementVerdict::Rows(rows) => {
                    &&& post.topics() == pre.topics()
                    &&& post.results() == pre.results().push(rows[0])
                    &&& post.current() == pre.current() + 1
                    &&& if post.current() == post.topics().len() {
                        post.phase() is Done && a is Finished
                    } else {
                        begin_topic_spec(post.topics()[post.current()], post.phase(), a)
                    }
                },
                StatementVerdict::Reject { code: _, reason } => {
                    &&& post.phase() is Done
                    &&& post.results() == pre.results()
                    &&& a matches PipelineAction::Failed(err)
                        && err.code@ == "CONTENT_DB_UPDATE_ERROR"@
                        && err.message@ == persist_failure_message(t, reason)
                },
            }
        },
        PipelineEvent::PersistFailed(inner) => {
            let t = pre.topics()[pre.current()];
            &&& post.phase() is Done
            &&& post.topics() == pre.topics()
            &&& post.results() == pre.results()
            &&& a matches PipelineAction::Failed(err)
                && err.code@ == "CONTENT_DB_UPDATE_ERROR"@
                && err.message@ == persist_failure_message(t, inner.message@)
        },
    }
}

/// Wraps a generation failure with the failing topic's label.
fn wrap_generation_failure(t: &TopicRecord, inner: AgentError) -> (e: AgentError)
    ensures
        e.code@ == "CONTENT_GENERATION_ERROR"@,
        e.message@ == generation_failure_message(*t, inner.message@),
{
    let mut m = String::from_str("Failed to generate content for topic '");
    m.append(t.topic.as_str());
    m.append("' (subject: ");
    m.append(t.subject.as_str());
    m.append(", term: ");
    m.append(t.term.as_str());
    m.append("): ");
    m.append(inner.message.as_str());
    AgentError::new("CONTENT_GENERATION_ERROR", m)
}

/// Wraps a persistence failure with the failing topic's label.
fn wrap_persist_failure(t: &TopicRecord, inner: AgentError) -> (e: AgentError)
    ensures
        e.code@ == "CONTENT_DB_UPDATE_ERROR"@,
        e.message@ == persist_failure_message(*t, inner.message@),
{
    let mut m = String::from_str("Failed to create content for topic '");
    m.append(t.topic.as_str());
    m.append("': ");
    m.append(inner.message.as_str());
    AgentError::new("CONTENT_DB_UPDATE_ERROR", m)
}

} // verus!

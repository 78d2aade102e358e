//! Events of the workflow worker.
//!
//! A worker reports what happens to workflow executions as flat payloads.
//! [`TemporalEventMapper`] turns a payload into a domain event or says what is
//! wrong with it. [`TemporalEventListener`] decides what is done with a
//! payload, step by step: each step names one action for the caller, and the
//! caller's answer leads to the next step.

use vstd::prelude::*;
use crate::domain::events::{
    ContainerRunEvent, ContainerRunFailureReason, ExecutionEvent, SimilarityScore, WorkflowEvent,
};
use crate::domain::execution::CodeDiff;
use crate::domain::shared_kernel;
use crate::domain::shared_kernel::{AgentId, ExecutionId, TenantId, Uuid, VolumeId, WorkflowId};
use crate::domain::workflow::ExecutionLanguage;
use crate::support::clock;
use crate::support::clock::Timestamp;
use crate::support::failure::Failure;
use crate::support::json;
use crate::support::json::{array_of_texts, as_text, empty_object, render};
use crate::support::text;
use crate::support::text::{copy_text_or, copy_text_or_empty, same_text};

verus! {

/// One event as the worker sends it.
#[derive(Clone, Debug, Default)]
pub struct TemporalEventPayload {
    pub event_type: String,
    pub execution_id: String,
    pub temporal_sequence_number: i64,
    pub workflow_id: Option<String>,
    pub state_name: Option<String>,
    pub output: Option<serde_json::Value>,
    pub error: Option<String>,
    pub iteration_number: Option<u8>,
    pub final_blackboard: Option<serde_json::Value>,
    pub final_output: Option<serde_json::Value>,
    pub artifacts: Option<Vec<String>>,
    pub agent_id: Option<String>,
    pub code_diff: Option<serde_json::Value>,
    pub parent_execution_id: Option<String>,
    pub child_execution_id: Option<String>,
    pub child_workflow_id: Option<String>,
    pub mode: Option<String>,
    pub result_key: Option<String>,
    pub parent_state_name: Option<String>,
    pub name: Option<String>,
    pub image: Option<String>,
    pub exit_code: Option<i32>,
    pub duration_ms: Option<u64>,
    pub stderr: Option<String>,
    pub step_count: Option<u32>,
    pub completion: Option<String>,
    pub succeeded: Option<u32>,
    pub failed: Option<u32>,
    pub tenant_id: Option<String>,
    pub workflow_execution_id: Option<String>,
    pub intent: Option<String>,
    pub language: Option<LanguageTag>,
    pub workspace_volume_id: Option<String>,
    pub final_result: Option<String>,
    pub reused_existing_agent: Option<bool>,
    pub agent_similarity_score: Option<SimilarityScore>,
    pub failed_at_state: Option<String>,
    pub timestamp: String,
}

/// A language tag as sent, and whether it is the tag of a language.
#[derive(Clone, Debug)]
pub struct LanguageTag {
    pub text: String,
    pub known: bool,
}

/// The language that a tag stands for: the default where there is no tag, or
/// where it is not the tag of a language.
pub open spec fn language_of(tag: Option<LanguageTag>) -> ExecutionLanguage {
    match tag {
        Some(tag) => if tag.known {
            ExecutionLanguage::Tagged(tag.text)
        } else {
            ExecutionLanguage::Preset
        },
        None => ExecutionLanguage::Preset,
    }
}

fn read_language(tag: &Option<LanguageTag>) -> (r: ExecutionLanguage)
    ensures
        r == language_of(*tag),
{
    match tag {
        Some(tag) => if tag.known {
            ExecutionLanguage::Tagged(tag.text.clone())
        } else {
            ExecutionLanguage::Preset
        },
        None => ExecutionLanguage::Preset,
    }
}

/// The event types that stand for workflow events.
#[derive(Clone, Copy, Debug, PartialEq, Eq, Structural)]
pub enum EventKind {
    ExecutionStarted,
    StateEntered,
    StateExited,
    IterationStarted,
    IterationCompleted,
    IterationFailed,
    ExecutionCompleted,
    ExecutionFailed,
    ExecutionCancelled,
    SubworkflowTriggered,
    SubworkflowCompleted,
    SubworkflowFailed,
    PipelineStarted,
    PipelineCompleted,
    PipelineFailed,
}

/// The kind that an event type names, if it names one.
pub open spec fn kind_of(event_type: Seq<char>) -> Option<EventKind> {
    if event_type == "WorkflowExecutionStarted"@ {
        Some(EventKind::ExecutionStarted)
    } else if event_type == "WorkflowStateEntered"@ {
        Some(EventKind::StateEntered)
    } else if event_type == "WorkflowStateExited"@ {
        Some(EventKind::StateExited)
    } else if event_type == "WorkflowIterationStarted"@ {
        Some(EventKind::IterationStarted)
    } else if event_type == "WorkflowIterationCompleted"@ {
        Some(EventKind::IterationCompleted)
    } else if event_type == "WorkflowIterationFailed"@ {
        Some(EventKind::IterationFailed)
    } else if event_type == "WorkflowExecutionCompleted"@ {
        Some(EventKind::ExecutionCompleted)
    } else if event_type == "WorkflowExecutionFailed"@ {
        Some(EventKind::ExecutionFailed)
    } else if event_type == "WorkflowExecutionCancelled"@ {
        Some(EventKind::ExecutionCancelled)
    } else if event_type == "SubworkflowTriggered"@ {
        Some(EventKind::SubworkflowTriggered)
    } else if event_type == "SubworkflowCompleted"@ {
        Some(EventKind::SubworkflowCompleted)
    } else if event_type == "SubworkflowFailed"@ {
        Some(EventKind::SubworkflowFailed)
    } else if event_type == "IntentExecutionPipelineStarted"@ {
        Some(EventKind::PipelineStarted)
    } else if event_type == "IntentExecutionPipelineCompleted"@ {
        Some(EventKind::PipelineCompleted)
    } else if event_type == "IntentExecutionPipelineFailed"@ {
        Some(EventKind::PipelineFailed)
    } else {
        None
    }
}

fn find_kind(event_type: &str) -> (r: Option<EventKind>)
    ensures
        r == kind_of(event_type@),
{
    if same_text(event_type, "WorkflowExecutionStarted") {
        Some(EventKind::ExecutionStarted)
    } else if same_text(event_type, "WorkflowStateEntered") {
        Some(EventKind::StateEntered)
    } else if same_text(event_type, "WorkflowStateExited") {
        Some(EventKind::StateExited)
    } else if same_text(event_type, "WorkflowIterationStarted") {
        Some(EventKind::IterationStarted)
    } else if same_text(event_type, "WorkflowIterationCompleted") {
        Some(EventKind::IterationCompleted)
    } else if same_text(event_type, "WorkflowIterationFailed") {
        Some(EventKind::IterationFailed)
    } else if same_text(event_type, "WorkflowExecutionCompleted") {
        Some(EventKind::ExecutionCompleted)
    } else if same_text(event_type, "WorkflowExecutionFailed") {
        Some(EventKind::ExecutionFailed)
    } else if same_text(event_type, "WorkflowExecutionCancelled") {
        Some(EventKind::ExecutionCancelled)
    } else if same_text(event_type, "SubworkflowTriggered") {
        Some(EventKind::SubworkflowTriggered)
    } else if same_text(event_type, "SubworkflowCompleted") {
        Some(EventKind::SubworkflowCompleted)
    } else if same_text(event_type, "SubworkflowFailed") {
        Some(EventKind::SubworkflowFailed)
    } else if same_text(event_type, "IntentExecutionPipelineStarted") {
        Some(EventKind::PipelineStarted)
    } else if same_text(event_type, "IntentExecutionPipelineCompleted") {
        Some(EventKind::PipelineCompleted)
    } else if same_text(event_type, "IntentExecutionPipelineFailed") {
        Some(EventKind::PipelineFailed)
    } else {
        None
    }
}

/// The error of a text that should be there: `message`, where it is missing.
pub open spec fn text_error(o: Option<String>, message: Seq<char>) -> Option<Seq<Seq<char>>> {
    if o is None {
        Some(seq![message])
    } else {
        None
    }
}

/// The error of a field that should be there.
pub open spec fn field_error<T>(o: Option<T>, message: Seq<char>) -> Option<Seq<Seq<char>>> {
    if o is None {
        Some(seq![message])
    } else {
        None
    }
}

/// The error of an identifier that should be there: `message` where it is
/// missing, the parser's text where it is none.
pub open spec fn id_error(o: Option<String>, message: Seq<char>) -> Option<Seq<Seq<char>>> {
    match o {
        None => Some(seq![message]),
        Some(s) => if shared_kernel::uuid_parsed(s@) is Err {
            Some(seq![shared_kernel::uuid_parsed(s@)->Err_0])
        } else {
            None
        },
    }
}

/// The first of two errors.
pub open spec fn first_error(
    a: Option<Seq<Seq<char>>>,
    b: Option<Seq<Seq<char>>>,
) -> Option<Seq<Seq<char>>> {
    if a is Some {
        a
    } else {
        b
    }
}

/// The identifier that a text holds.
pub open spec fn id_in(text: Seq<char>) -> Uuid {
    Uuid { bits: shared_kernel::uuid_parsed(text)->Ok_0 }
}

fn require_text(o: &Option<String>, message: &str) -> (r: Result<String, Failure>)
    ensures
        match r {
            Ok(s) => *o == Some(s),
            Err(f) => *o is None && f@ == seq![message@],
        },
{
    match o {
        Some(s) => Ok(s.clone()),
        None => Err(Failure::msg(message)),
    }
}

fn require_json(o: &Option<serde_json::Value>, message: &str) -> (r: Result<
    serde_json::Value,
    Failure,
>)
    ensures
        match r {
            Ok(v) => *o == Some(v),
            Err(f) => *o is None && f@ == seq![message@],
        },
{
    match o {
        Some(v) => Ok(v.clone()),
        None => Err(Failure::msg(message)),
    }
}

fn require_number(o: Option<u8>, message: &str) -> (r: Result<u8, Failure>)
    ensures
        match r {
            Ok(n) => o == Some(n),
            Err(f) => o is None && f@ == seq![message@],
        },
{
    match o {
        Some(n) => Ok(n),
        None => Err(Failure::msg(message)),
    }
}

fn require_id(o: &Option<String>, message: &str) -> (r: Result<Uuid, Failure>)
    ensures
        match r {
            Ok(id) => id_error(*o, message@) is None && id == id_in(o->0@),
            Err(f) => id_error(*o, message@) == Some(f@),
        },
{
    match o {
        None => Err(Failure::msg(message)),
        Some(s) => match Uuid::parse_str(s.as_str()) {
            Ok(id) => Ok(id),
            Err(e) => Err(Failure::new(e)),
        },
    }
}

fn artifacts_value(o: &Option<Vec<String>>) -> (r: Option<serde_json::Value>)
    ensures
        artifacts_match(*o, r),
{
    match o {
        Some(items) => Some(array_of_texts(items)),
        None => None,
    }
}

/// Whether `v` is the JSON array of the artifacts in `o`, absent with them.
pub open spec fn artifacts_match(o: Option<Vec<String>>, v: Option<serde_json::Value>) -> bool {
    match o {
        Some(items) => v is Some && json::is_array_of_texts(v->0, text::texts(items@)),
        None => v is None,
    }
}

/// The first of two texts that is there, or the empty text.
pub open spec fn first_text(a: Option<String>, b: Option<String>) -> Seq<char> {
    match a {
        Some(s) => s@,
        None => text::text_or_empty(b),
    }
}

fn copy_first_text(a: &Option<String>, b: &Option<String>) -> (r: String)
    ensures
        r@ == first_text(*a, *b),
{
    match a {
        Some(s) => s.clone(),
        None => copy_text_or_empty(b),
    }
}

impl TemporalEventPayload {
    /// The workflow that the payload names; where it names none, or names it
    /// badly, the nil identifier.
    pub open spec fn workflow(self) -> WorkflowId {
        match self.workflow_id {
            Some(s) => if shared_kernel::uuid_parsed(s@) is Ok {
                WorkflowId(id_in(s@))
            } else {
                WorkflowId(Uuid { bits: 0 })
            },
            None => WorkflowId(Uuid { bits: 0 }),
        }
    }

    /// The execution that a well-formed payload names.
    pub open spec fn execution(self) -> ExecutionId {
        ExecutionId(id_in(self.execution_id@))
    }

    /// The time that a well-formed payload carries.
    pub open spec fn time(self) -> Timestamp {
        clock::stamp(clock::rfc3339(self.timestamp@)->Ok_0)
    }

    /// What is wrong with a payload as the report of a workflow event.
    pub open spec fn mapping_error(self) -> Option<Seq<Seq<char>>> {
        if shared_kernel::uuid_parsed(self.execution_id@) is Err {
            Some(
                seq![
                    "Invalid execution_id format (expected UUID)"@,
                    shared_kernel::uuid_parsed(self.execution_id@)->Err_0,
                ],
            )
        } else if clock::rfc3339(self.timestamp@) is Err {
            Some(
                seq![
                    "Invalid timestamp format (expected RFC3339)"@,
                    clock::rfc3339(self.timestamp@)->Err_0,
                ],
            )
        } else {
            match kind_of(self.event_type@) {
                Some(kind) => self.kind_error(kind),
                None => Some(seq!["Unknown event_type: "@ + self.event_type@]),
            }
        }
    }

    /// What the payload lacks for an event of the given kind.
    pub open spec fn kind_error(self, kind: EventKind) -> Option<Seq<Seq<char>>> {
        match kind {
            EventKind::ExecutionStarted => None,
            EventKind::StateEntered => text_error(
                self.state_name,
                "state_name required for WorkflowStateEntered event"@,
            ),
            EventKind::StateExited => first_error(
                text_error(self.state_name, "state_name required for WorkflowStateExited event"@),
                field_error(self.output, "output required for WorkflowStateExited event"@),
            ),
            EventKind::IterationStarted => field_error(
                self.iteration_number,
                "iteration_number required for WorkflowIterationStarted event"@,
            ),
            EventKind::IterationCompleted => first_error(
                field_error(
                    self.iteration_number,
                    "iteration_number required for WorkflowIterationCompleted event"@,
                ),
                field_error(self.output, "output required for WorkflowIterationCompleted event"@),
            ),
            EventKind::IterationFailed => first_error(
                field_error(
                    self.iteration_number,
                    "iteration_number required for WorkflowIterationFailed event"@,
                ),
                text_error(self.error, "error required for WorkflowIterationFailed event"@),
            ),
            EventKind::ExecutionCompleted => None,
            EventKind::ExecutionFailed => text_error(
                self.error,
                "error required for WorkflowExecutionFailed event"@,
            ),
            EventKind::ExecutionCancelled => None,
            EventKind::SubworkflowTriggered => first_error(
                id_error(
                    self.child_execution_id,
                    "SubworkflowTriggered missing child_execution_id"@,
                ),
                id_error(
                    self.child_workflow_id,
                    "SubworkflowTriggered missing child_workflow_id"@,
                ),
            ),
            EventKind::SubworkflowCompleted => id_error(
                self.child_execution_id,
                "SubworkflowCompleted missing child_execution_id"@,
            ),
            EventKind::SubworkflowFailed => id_error(
                self.child_execution_id,
                "SubworkflowFailed missing child_execution_id"@,
            ),
            EventKind::PipelineStarted => first_error(
                id_error(
                    self.workflow_execution_id,
                    "IntentExecutionPipelineStarted missing workflow_execution_id"@,
                ),
                first_error(
                    text_error(self.intent, "IntentExecutionPipelineStarted missing intent"@),
                    self.volume_error(),
                ),
            ),
            EventKind::PipelineCompleted => first_error(
                id_error(
                    self.workflow_execution_id,
                    "IntentExecutionPipelineCompleted missing workflow_execution_id"@,
                ),
                self.tenant_error(),
            ),
            EventKind::PipelineFailed => id_error(
                self.workflow_execution_id,
                "IntentExecutionPipelineFailed missing workflow_execution_id"@,
            ),
        }
    }

    /// What is wrong with the workspace volume of a started pipeline.
    pub open spec fn volume_error(self) -> Option<Seq<Seq<char>>> {
        match self.workspace_volume_id {
            None => Some(seq!["IntentExecutionPipelineStarted missing workspace_volume_id"@]),
            Some(s) => if shared_kernel::uuid_parsed(s@) is Err {
                Some(
                    seq![
                        "IntentExecutionPipelineStarted: invalid workspace_volume_id UUID"@,
                        shared_kernel::uuid_parsed(s@)->Err_0,
                    ],
                )
            } else {
                None
            },
        }
    }

    /// What is wrong with the tenant of a completed pipeline.
    pub open spec fn tenant_error(self) -> Option<Seq<Seq<char>>> {
        match self.tenant_id {
            None => Some(seq!["IntentExecutionPipelineCompleted missing tenant_id"@]),
            Some(s) => if s@.len() == 0 {
                Some(
                    seq![
                        "IntentExecutionPipelineCompleted: invalid tenant_id"@,
                        "tenant id must not be empty"@,
                    ],
                )
            } else {
                None
            },
        }
    }

    /// Whether `event` is the event that the payload reports.
    pub open spec fn maps_to(self, event: WorkflowEvent) -> bool {
        match kind_of(self.event_type@) {
            Some(kind) => self.maps_to_kind(kind, self.execution(), self.time(), event),
            None => false,
        }
    }

    /// Whether `event` is of the given kind, of the given execution and time,
    /// with the payload's contents.
    pub open spec fn maps_to_kind(
        self,
        kind: EventKind,
        execution: ExecutionId,
        time: Timestamp,
        event: WorkflowEvent,
    ) -> bool {
        match kind {
            EventKind::ExecutionStarted => event == (WorkflowEvent::WorkflowExecutionStarted {
                execution_id: execution,
                workflow_id: self.workflow(),
                started_at: time,
            }),
            EventKind::StateEntered => event == (WorkflowEvent::WorkflowStateEntered {
                execution_id: execution,
                state_name: self.state_name->0,
                entered_at: time,
            }),
            EventKind::StateExited => event == (WorkflowEvent::WorkflowStateExited {
                execution_id: execution,
                state_name: self.state_name->0,
                output: self.output->0,
                exited_at: time,
            }),
            EventKind::IterationStarted => event == (WorkflowEvent::WorkflowIterationStarted {
                execution_id: execution,
                iteration_number: self.iteration_number->0,
                started_at: time,
            }),
            EventKind::IterationCompleted => event == (WorkflowEvent::WorkflowIterationCompleted {
                execution_id: execution,
                iteration_number: self.iteration_number->0,
                output: self.output->0,
                completed_at: time,
            }),
            EventKind::IterationFailed => event == (WorkflowEvent::WorkflowIterationFailed {
                execution_id: execution,
                iteration_number: self.iteration_number->0,
                error: self.error->0,
                failed_at: time,
            }),
            EventKind::ExecutionCompleted => event matches
                WorkflowEvent::WorkflowExecutionCompleted {
                execution_id,
                final_blackboard,
                artifacts,
                completed_at,
            } && {
                &&& execution_id == execution
                &&& completed_at == time
                &&& self.final_blackboard is Some ==> final_blackboard == self.final_blackboard->0
                &&& self.final_blackboard is None ==> json::json_members(final_blackboard) == Some(
                    Map::<Seq<char>, serde_json::Value>::empty(),
                )
                &&& artifacts_match(self.artifacts, artifacts)
            },
            EventKind::ExecutionFailed => event == (WorkflowEvent::WorkflowExecutionFailed {
                execution_id: execution,
                reason: self.error->0,
                failed_at: time,
            }),
            EventKind::ExecutionCancelled => event == (WorkflowEvent::WorkflowExecutionCancelled {
                execution_id: execution,
                cancelled_at: time,
            }),
            EventKind::SubworkflowTriggered => event matches WorkflowEvent::SubworkflowTriggered {
                parent_execution_id,
                child_execution_id,
                child_workflow_id,
                mode,
                parent_state_name,
                triggered_at,
            } && {
                &&& parent_execution_id == execution
                &&& child_execution_id.0 == id_in(self.child_execution_id->0@)
                &&& child_workflow_id.0 == id_in(self.child_workflow_id->0@)
                &&& mode@ == text::text_or(self.mode, "blocking"@)
                &&& parent_state_name@ == first_text(self.parent_state_name, self.state_name)
                &&& triggered_at == time
            },
            EventKind::SubworkflowCompleted => event matches WorkflowEvent::SubworkflowCompleted {
                parent_execution_id,
                child_execution_id,
                result_key,
                completed_at,
            } && {
                &&& parent_execution_id == execution
                &&& child_execution_id.0 == id_in(self.child_execution_id->0@)
                &&& result_key@ == text::text_or_empty(self.result_key)
                &&& completed_at == time
            },
            EventKind::SubworkflowFailed => event matches WorkflowEvent::SubworkflowFailed {
                parent_execution_id,
                child_execution_id,
                reason,
                failed_at,
            } && {
                &&& parent_execution_id == execution
                &&& child_execution_id.0 == id_in(self.child_execution_id->0@)
                &&& reason@ == text::text_or(self.error, "Unknown child workflow failure"@)
                &&& failed_at == time
            },
            EventKind::PipelineStarted => event == (WorkflowEvent::IntentExecutionPipelineStarted {
                pipeline_execution_id: execution,
                workflow_execution_id: ExecutionId(id_in(self.workflow_execution_id->0@)),
                intent: self.intent->0,
                language: language_of(self.language),
                workspace_volume_id: VolumeId(id_in(self.workspace_volume_id->0@)),
                started_at: time,
            }),
            EventKind::PipelineCompleted => event matches
                WorkflowEvent::IntentExecutionPipelineCompleted {
                pipeline_execution_id,
                workflow_execution_id,
                tenant_id,
                final_result,
                duration_ms,
                reused_existing_agent,
                agent_similarity_score,
                completed_at,
            } && {
                &&& pipeline_execution_id == execution
                &&& workflow_execution_id.0 == id_in(self.workflow_execution_id->0@)
                &&& tenant_id@ == self.tenant_id->0@
                &&& final_result@ == text::text_or_empty(self.final_result)
                &&& duration_ms == (if self.duration_ms is Some { self.duration_ms->0 } else { 0 })
                &&& reused_existing_agent == (self.reused_existing_agent == Some(true))
                &&& agent_similarity_score == self.agent_similarity_score
                &&& completed_at == time
            },
            EventKind::PipelineFailed => event matches
                WorkflowEvent::IntentExecutionPipelineFailed {
                pipeline_execution_id,
                workflow_execution_id,
                failed_at_state,
                reason,
                failed_at,
            } && {
                &&& pipeline_execution_id == execution
                &&& workflow_execution_id.0 == id_in(self.workflow_execution_id->0@)
                &&& failed_at_state@ == first_text(self.failed_at_state, self.state_name)
                &&& reason@ == text::text_or(self.error, "Unknown pipeline failure"@)
                &&& failed_at == time
            },
        }
    }

    fn parse_workflow(&self) -> (r: WorkflowId)
        ensures
            r == self.workflow(),
    {
        match &self.workflow_id {
            Some(s) => match Uuid::parse_str(s.as_str()) {
                Ok(id) => WorkflowId(id),
                Err(_) => WorkflowId(Uuid::nil()),
            },
            None => WorkflowId(Uuid::nil()),
        }
    }
}

/// Turns worker payloads into domain events.
#[derive(Debug)]
pub struct TemporalEventMapper;

impl TemporalEventMapper {
    /// The workflow event that `payload` reports, or what is wrong with it.
    pub fn to_domain_event(payload: &TemporalEventPayload) -> (r: Result<WorkflowEvent, Failure>)
        ensures
            match r {
                Ok(event) => payload.mapping_error() is None && payload.maps_to(event),
                Err(failure) => payload.mapping_error() == Some(failure@),
            },
    {
        let execution_id = match Uuid::parse_str(payload.execution_id.as_str()) {
            Ok(id) => ExecutionId(id),
            Err(e) => {
                let failure = Failure::new(e).context("Invalid execution_id format (expected UUID)");
                proof {
                    assert(failure@ =~= payload.mapping_error()->0);
                }
                return Err(failure);
            },
        };
        let timestamp = match Timestamp::from_rfc3339(payload.timestamp.as_str()) {
            Ok(t) => t,
            Err(e) => {
                let failure = Failure::new(e).context("Invalid timestamp format (expected RFC3339)");
                proof {
                    assert(failure@ =~= payload.mapping_error()->0);
                }
                return Err(failure);
            },
        };
        match find_kind(payload.event_type.as_str()) {
            Some(kind) => Self::event_of_kind(payload, kind, execution_id, timestamp),
            None => {
                let message = "Unknown event_type: ".to_owned().concat(payload.event_type.as_str());
                Err(Failure::new(message))
            },
        }
    }

    /// The event of the given kind, execution and time with the payload's
    /// contents, or what it lacks.
    pub fn event_of_kind(
        payload: &TemporalEventPayload,
        kind: EventKind,
        execution_id: ExecutionId,
        timestamp: Timestamp,
    ) -> (r: Result<WorkflowEvent, Failure>)
        ensures
            match r {
                Ok(event) => payload.kind_error(kind) is None && payload.maps_to_kind(
                    kind,
                    execution_id,
                    timestamp,
                    event,
                ),
                Err(failure) => payload.kind_error(kind) == Some(failure@),
            },
    {
        match kind {
            EventKind::ExecutionStarted => Ok(
                WorkflowEvent::WorkflowExecutionStarted {
                    execution_id,
                    workflow_id: payload.parse_workflow(),
                    started_at: timestamp,
                },
            ),
            EventKind::StateEntered => {
                let state_name = match require_text(
                    &payload.state_name,
                    "state_name required for WorkflowStateEntered event",
                ) {
                    Ok(s) => s,
                    Err(f) => return Err(f),
                };
                Ok(
                    WorkflowEvent::WorkflowStateEntered {
                        execution_id,
                        state_name,
                        entered_at: timestamp,
                    },
                )
            },
            EventKind::StateExited => {
                let state_name = match require_text(
                    &payload.state_name,
                    "state_name required for WorkflowStateExited event",
                ) {
                    Ok(s) => s,
                    Err(f) => return Err(f),
                };
                let output = match require_json(
                    &payload.output,
                    "output required for WorkflowStateExited event",
                ) {
                    Ok(v) => v,
                    Err(f) => return Err(f),
                };
                Ok(
                    WorkflowEvent::WorkflowStateExited {
                        execution_id,
                        state_name,
                        output,
                        exited_at: timestamp,
                    },
                )
            },
            EventKind::IterationStarted => {
                let iteration_number: u8 = match require_number(
                    payload.iteration_number,
                    "iteration_number required for WorkflowIterationStarted event",
                ) {
                    Ok(n) => n,
                    Err(f) => return Err(f),
                };
                Ok(
                    WorkflowEvent::WorkflowIterationStarted {
                        execution_id,
                        iteration_number,
                        started_at: timestamp,
                    },
                )
            },
            EventKind::IterationCompleted => {
                let iteration_number: u8 = match require_number(
                    payload.iteration_number,
                    "iteration_number required for WorkflowIterationCompleted event",
                ) {
                    Ok(n) => n,
                    Err(f) => return Err(f),
                };
                let output = match require_json(
                    &payload.output,
                    "output required for WorkflowIterationCompleted event",
                ) {
                    Ok(v) => v,
                    Err(f) => return Err(f),
                };
                Ok(
                    WorkflowEvent::WorkflowIterationCompleted {
                        execution_id,
                        iteration_number,
                        output,
                        completed_at: timestamp,
                    },
                )
            },
            EventKind::IterationFailed => {
                let iteration_number: u8 = match require_number(
                    payload.iteration_number,
                    "iteration_number required for WorkflowIterationFailed event",
                ) {
                    Ok(n) => n,
                    Err(f) => return Err(f),
                };
                let error = match require_text(
                    &payload.error,
                    "error required for WorkflowIterationFailed event",
                ) {
                    Ok(s) => s,
                    Err(f) => return Err(f),
                };
                Ok(
                    WorkflowEvent::WorkflowIterationFailed {
                        execution_id,
                        iteration_number,
                        error,
                        failed_at: timestamp,
                    },
                )
            },
            EventKind::ExecutionCompleted => {
                let final_blackboard = match &payload.final_blackboard {
                    Some(v) => v.clone(),
                    None => empty_object(),
                };
                Ok(
                    WorkflowEvent::WorkflowExecutionCompleted {
                        execution_id,
                        final_blackboard,
                        artifacts: artifacts_value(&payload.artifacts),
                        completed_at: timestamp,
                    },
                )
            },
            EventKind::ExecutionFailed => {
                let reason = match require_text(
                    &payload.error,
                    "error required for WorkflowExecutionFailed event",
                ) {
                    Ok(s) => s,
                    Err(f) => return Err(f),
                };
                Ok(
                    WorkflowEvent::WorkflowExecutionFailed {
                        execution_id,
                        reason,
                        failed_at: timestamp,
                    },
                )
            },
            EventKind::ExecutionCancelled => Ok(
                WorkflowEvent::WorkflowExecutionCancelled { execution_id, cancelled_at: timestamp },
            ),
            EventKind::SubworkflowTriggered => {
                let child_execution_id = match require_id(
                    &payload.child_execution_id,
                    "SubworkflowTriggered missing child_execution_id",
                ) {
                    Ok(id) => ExecutionId(id),
                    Err(f) => return Err(f),
                };
                let child_workflow_id = match require_id(
                    &payload.child_workflow_id,
                    "SubworkflowTriggered missing child_workflow_id",
                ) {
                    Ok(id) => WorkflowId(id),
                    Err(f) => return Err(f),
                };
                Ok(
                    WorkflowEvent::SubworkflowTriggered {
                        parent_execution_id: execution_id,
                        child_execution_id,
                        child_workflow_id,
                        mode: copy_text_or(&payload.mode, "blocking"),
                        parent_state_name: copy_first_text(
                            &payload.parent_state_name,
                            &payload.state_name,
                        ),
                        triggered_at: timestamp,
                    },
                )
            },
            EventKind::SubworkflowCompleted => {
                let child_execution_id = match require_id(
                    &payload.child_execution_id,
                    "SubworkflowCompleted missing child_execution_id",
                ) {
                    Ok(id) => ExecutionId(id),
                    Err(f) => return Err(f),
                };
                Ok(
                    WorkflowEvent::SubworkflowCompleted {
                        parent_execution_id: execution_id,
                        child_execution_id,
                        result_key: copy_text_or_empty(&payload.result_key),
                        completed_at: timestamp,
                    },
                )
            },
            EventKind::SubworkflowFailed => {
                let child_execution_id = match require_id(
                    &payload.child_execution_id,
                    "SubworkflowFailed missing child_execution_id",
                ) {
                    Ok(id) => ExecutionId(id),
                    Err(f) => return Err(f),
                };
                Ok(
                    WorkflowEvent::SubworkflowFailed {
                        parent_execution_id: execution_id,
                        child_execution_id,
                        reason: copy_text_or(&payload.error, "Unknown child workflow failure"),
                        failed_at: timestamp,
                    },
                )
            },
            EventKind::PipelineStarted => {
                let workflow_execution_id = match require_id(
                    &payload.workflow_execution_id,
                    "IntentExecutionPipelineStarted missing workflow_execution_id",
                ) {
                    Ok(id) => ExecutionId(id),
                    Err(f) => return Err(f),
                };
                let intent = match require_text(
                    &payload.intent,
                    "IntentExecutionPipelineStarted missing intent",
                ) {
                    Ok(s) => s,
                    Err(f) => return Err(f),
                };
                let workspace_volume_id = match Self::workspace_volume(payload) {
                    Ok(id) => id,
                    Err(f) => return Err(f),
                };
                Ok(
                    WorkflowEvent::IntentExecutionPipelineStarted {
                        pipeline_execution_id: execution_id,
                        workflow_execution_id,
                        intent,
                        language: read_language(&payload.language),
                        workspace_volume_id,
                        started_at: timestamp,
                    },
                )
            },
            EventKind::PipelineCompleted => {
                let workflow_execution_id = match require_id(
                    &payload.workflow_execution_id,
                    "IntentExecutionPipelineCompleted missing workflow_execution_id",
                ) {
                    Ok(id) => ExecutionId(id),
                    Err(f) => return Err(f),
                };
                let tenant_id = match Self::pipeline_tenant(payload) {
                    Ok(id) => id,
                    Err(f) => return Err(f),
                };
                let duration_ms: u64 = match payload.duration_ms {
                    Some(n) => n,
                    None => 0,
                };
                let reused_existing_agent = match payload.reused_existing_agent {
                    Some(b) => b,
                    None => false,
                };
                Ok(
                    WorkflowEvent::IntentExecutionPipelineCompleted {
                        pipeline_execution_id: execution_id,
                        workflow_execution_id,
                        tenant_id,
                        final_result: copy_text_or_empty(&payload.final_result),
                        duration_ms,
                        reused_existing_agent,
                        agent_similarity_score: payload.agent_similarity_score,
                        completed_at: timestamp,
                    },
                )
            },
            EventKind::PipelineFailed => {
                let workflow_execution_id = match require_id(
                    &payload.workflow_execution_id,
                    "IntentExecutionPipelineFailed missing workflow_execution_id",
                ) {
                    Ok(id) => ExecutionId(id),
                    Err(f) => return Err(f),
                };
                Ok(
                    WorkflowEvent::IntentExecutionPipelineFailed {
                        pipeline_execution_id: execution_id,
                        workflow_execution_id,
                        failed_at_state: copy_first_text(
                            &payload.failed_at_state,
                            &payload.state_name,
                        ),
                        reason: copy_text_or(&payload.error, "Unknown pipeline failure"),
                        failed_at: timestamp,
                    },
                )
            },
        }
    }

    fn workspace_volume(payload: &TemporalEventPayload) -> (r: Result<VolumeId, Failure>)
        ensures
            match r {
                Ok(id) => payload.volume_error() is None && id.0 == id_in(
                    payload.workspace_volume_id->0@,
                ),
                Err(failure) => payload.volume_error() == Some(failure@),
            },
    {
        match &payload.workspace_volume_id {
            None => Err(
                Failure::msg("IntentExecutionPipelineStarted missing workspace_volume_id"),
            ),
            Some(s) => match Uuid::parse_str(s.as_str()) {
                Ok(id) => Ok(VolumeId(id)),
                Err(e) => {
                    let failure = Failure::new(e).context(
                        "IntentExecutionPipelineStarted: invalid workspace_volume_id UUID",
                    );
                    proof {
                        assert(failure@ =~= payload.volume_error()->0);
                    }
                    Err(failure)
                },
            },
        }
    }

    fn pipeline_tenant(payload: &TemporalEventPayload) -> (r: Result<TenantId, Failure>)
        ensures
            match r {
                Ok(id) => payload.tenant_error() is None && id@ == payload.tenant_id->0@,
                Err(failure) => payload.tenant_error() == Some(failure@),
            },
    {
        match &payload.tenant_id {
            None => Err(Failure::msg("IntentExecutionPipelineCompleted missing tenant_id")),
            Some(s) => match TenantId::from_string(s.as_str()) {
                Ok(id) => Ok(id),
                Err(e) => {
                    let failure = e.context("IntentExecutionPipelineCompleted: invalid tenant_id");
                    proof {
                        assert(failure@ =~= payload.tenant_error()->0);
                    }
                    Err(failure)
                },
            },
        }
    }
}

/// An event that the payload maps to belongs to the execution that it names.
pub proof fn mapped_event_belongs_to_execution(payload: TemporalEventPayload, event: WorkflowEvent)
    requires
        payload.maps_to(event),
    ensures
        event.scope() == Some(payload.execution()),
{
}

/// A payload maps to an event that ends its execution exactly where its type
/// says that the execution completed, failed or was cancelled.
pub proof fn terminal_types_end_execution(payload: TemporalEventPayload, event: WorkflowEvent)
    requires
        payload.maps_to(event),
    ensures
        event.ends_execution() <==> {
            ||| kind_of(payload.event_type@) == Some(EventKind::ExecutionCompleted)
            ||| kind_of(payload.event_type@) == Some(EventKind::ExecutionFailed)
            ||| kind_of(payload.event_type@) == Some(EventKind::ExecutionCancelled)
        },
{
}

/// How a workflow execution ended.
#[derive(Clone, Copy, Debug, PartialEq, Eq, Structural)]
pub enum CompletionStatus {
    Success,
    Failed,
    Cancelled,
}

/// What the end of a workflow execution is recorded with.
#[derive(Debug)]
pub struct CompleteWorkflowExecutionRequest {
    pub execution_id: String,
    pub status: CompletionStatus,
    pub final_blackboard: Option<serde_json::Value>,
    pub final_output: Option<serde_json::Value>,
    pub error_reason: Option<String>,
    pub artifacts: Option<serde_json::Value>,
    pub final_state: Option<String>,
}

impl CompleteWorkflowExecutionRequest {
    /// Whether the request records the end that `event` reports.
    pub open spec fn records(self, payload: TemporalEventPayload, event: WorkflowEvent) -> bool {
        &&& event.scope() is Some
        &&& self.execution_id@ == shared_kernel::uuid_text((event.scope()->0).0.bits)
        &&& self.final_blackboard == payload.final_blackboard
        &&& self.final_state == payload.state_name
        &&& match event {
            WorkflowEvent::WorkflowExecutionCompleted { .. } => {
                &&& self.status == CompletionStatus::Success
                &&& self.final_output == payload.final_output
                &&& self.error_reason is None
                &&& artifacts_match(payload.artifacts, self.artifacts)
            },
            WorkflowEvent::WorkflowExecutionFailed { reason, .. } => {
                &&& self.status == CompletionStatus::Failed
                &&& self.final_output == payload.final_output
                &&& self.error_reason == Some(reason)
                &&& self.artifacts is None
            },
            WorkflowEvent::WorkflowExecutionCancelled { .. } => {
                &&& self.status == CompletionStatus::Cancelled
                &&& self.final_output is None
                &&& self.error_reason is None
                &&& self.artifacts is None
            },
            _ => false,
        }
    }
}

/// What happens once the payload is in the event log.
#[derive(Debug)]
pub enum AfterAppend {
    /// The refinement is published.
    Refinement { event: ExecutionEvent, reply: String },
    /// The event is published or, where it ends its execution, the end is
    /// recorded with `completion`.
    Workflow {
        execution_id: ExecutionId,
        event: WorkflowEvent,
        completion: Option<CompleteWorkflowExecutionRequest>,
    },
}

/// What came of writing the payload to the event log.
#[derive(Debug)]
pub enum AppendOutcome {
    Stored,
    /// The payload had no JSON form; with the reason.
    NotSerialized(String),
    /// The log refused it; with the reason.
    NotStored(String),
}

/// One step of handling a payload: what the caller does, and what follows.
#[derive(Debug)]
pub enum ListenerStep {
    /// Write the payload to the event log, then go on with
    /// [`TemporalEventListener::appended`].
    Append {
        execution_id: ExecutionId,
        sequence_number: i64,
        event_type: String,
        iteration_number: Option<u8>,
        next: AfterAppend,
    },
    /// Find the tenant of the execution, then go on with
    /// [`TemporalEventListener::tenant_resolved`].
    ResolveTenant { execution_id: ExecutionId, request: CompleteWorkflowExecutionRequest },
    /// Record the end of the execution, then answer with `reply`.
    Complete { tenant_id: TenantId, request: CompleteWorkflowExecutionRequest, reply: String },
    /// Publish the event, then answer with `reply`.
    PublishExecution { event: ExecutionEvent, reply: String },
    /// Publish the event, then answer with `reply`.
    PublishContainerRun { event: ContainerRunEvent, reply: String },
    /// Publish the event, then answer with `reply`.
    PublishWorkflow { event: WorkflowEvent, reply: String },
    /// Answer with the failure.
    Fail(Failure),
}

impl TemporalEventPayload {
    /// Whether the payload reports an applied refinement.
    pub open spec fn is_refinement(self) -> bool {
        self.event_type@ == "RefinementApplied"@
    }

    /// Whether the payload reports a container step.
    pub open spec fn is_container_run(self) -> bool {
        ||| self.event_type@ == "ContainerRunStarted"@
        ||| self.event_type@ == "ContainerRunCompleted"@
        ||| self.event_type@ == "ContainerRunFailed"@
    }

    /// What is wrong with a payload as the report of a refinement.
    pub open spec fn refinement_error(self) -> Option<Seq<Seq<char>>> {
        if shared_kernel::uuid_parsed(self.execution_id@) is Err {
            Some(seq![shared_kernel::uuid_parsed(self.execution_id@)->Err_0])
        } else if self.agent_id is None {
            Some(seq!["RefinementApplied event requires agent_id"@])
        } else if shared_kernel::uuid_parsed(self.agent_id->0@) is Err {
            Some(
                seq![
                    "Failed to parse agent_id as UUID for RefinementApplied event"@,
                    shared_kernel::uuid_parsed(self.agent_id->0@)->Err_0,
                ],
            )
        } else if self.iteration_number is None {
            Some(seq!["Missing iteration_number for RefinementApplied event"@])
        } else if self.code_diff is None {
            Some(seq!["Missing code_diff for RefinementApplied event"@])
        } else if json::json_text(self.code_diff->0) is None {
            Some(
                seq![
                    "Invalid code_diff format for RefinementApplied event: expected string, got "@
                        + json::json_rendering(self.code_diff->0),
                ],
            )
        } else if clock::rfc3339(self.timestamp@) is Err {
            Some(
                seq![
                    "Failed to parse timestamp as RFC3339 for RefinementApplied event"@,
                    clock::rfc3339(self.timestamp@)->Err_0,
                ],
            )
        } else {
            None
        }
    }

    /// Whether `event` is the refinement that the payload reports.
    pub open spec fn refines_to(self, event: ExecutionEvent) -> bool {
        event matches ExecutionEvent::RefinementApplied {
            execution_id,
            agent_id,
            iteration_number,
            code_diff,
            applied_at,
            cortex_pattern_id,
            cortex_pattern_category,
            cortex_success_score,
            cortex_solution_approach,
        } && {
            &&& execution_id == self.execution()
            &&& agent_id.0 == id_in(self.agent_id->0@)
            &&& Some(iteration_number) == self.iteration_number
            &&& code_diff.file_path@ == "validation_feedback"@
            &&& Some(code_diff.diff@) == json::json_text(self.code_diff->0)
            &&& applied_at == self.time()
            &&& cortex_pattern_id is None
            &&& cortex_pattern_category is None
            &&& cortex_success_score is None
            &&& cortex_solution_approach is None
        }
    }

    /// What is wrong with a payload as the report of a container step.
    pub open spec fn container_error(self) -> Option<Seq<Seq<char>>> {
        if shared_kernel::uuid_parsed(self.execution_id@) is Err {
            Some(
                seq![
                    "Invalid execution_id for ContainerRun event"@,
                    shared_kernel::uuid_parsed(self.execution_id@)->Err_0,
                ],
            )
        } else if clock::rfc3339(self.timestamp@) is Err {
            Some(
                seq![
                    "Invalid timestamp for ContainerRun event"@,
                    clock::rfc3339(self.timestamp@)->Err_0,
                ],
            )
        } else {
            None
        }
    }

    /// Whether `reason` is why the reported container step failed: its exit
    /// code where there is one, else the error or what it wrote to its error
    /// stream.
    pub open spec fn failed_because(self, reason: ContainerRunFailureReason) -> bool {
        match reason {
            ContainerRunFailureReason::NonZeroExitCode { code } => self.exit_code == Some(code),
            ContainerRunFailureReason::ResourceExhausted { detail } => self.exit_code is None
                && detail@ == first_text(self.error, self.stderr),
        }
    }

    /// Whether `event` is the container event that the payload reports.
    pub open spec fn runs_to(self, event: ContainerRunEvent) -> bool {
        match event {
            ContainerRunEvent::ContainerRunStarted {
                execution_id,
                state_name,
                step_name,
                image,
                command,
                started_at,
            } => {
                &&& self.event_type@ == "ContainerRunStarted"@
                &&& execution_id == self.execution()
                &&& state_name@ == text::text_or_empty(self.state_name)
                &&& step_name@ == text::text_or_empty(self.name)
                &&& image@ == text::text_or_empty(self.image)
                &&& command@.len() == 0
                &&& started_at == self.time()
            },
            ContainerRunEvent::ContainerRunCompleted {
                execution_id,
                state_name,
                step_name,
                exit_code,
                stdout_bytes,
                stderr_bytes,
                duration_ms,
                completed_at,
            } => {
                &&& self.event_type@ == "ContainerRunCompleted"@
                &&& execution_id == self.execution()
                &&& state_name@ == text::text_or_empty(self.state_name)
                &&& step_name@ == text::text_or_empty(self.name)
                &&& exit_code == (if self.exit_code is Some { self.exit_code->0 } else { 0 })
                &&& stdout_bytes == 0
                &&& stderr_bytes == 0
                &&& duration_ms == (if self.duration_ms is Some { self.duration_ms->0 } else { 0 })
                &&& completed_at == self.time()
            },
            ContainerRunEvent::ContainerRunFailed {
                execution_id,
                state_name,
                step_name,
                reason,
                failed_at,
            } => {
                &&& self.event_type@ == "ContainerRunFailed"@
                &&& execution_id == self.execution()
                &&& state_name@ == text::text_or_empty(self.state_name)
                &&& step_name@ == text::text_or_empty(self.name)
                &&& self.failed_because(reason)
                &&& failed_at == self.time()
            },
        }
    }

    /// Why a payload is not handled at all.
    pub open spec fn handling_error(self) -> Option<Seq<Seq<char>>> {
        if self.is_refinement() {
            self.refinement_error()
        } else if self.is_container_run() {
            self.container_error()
        } else {
            match self.mapping_error() {
                Some(chain) => Some(seq!["Failed to map Temporal event to domain event"@] + chain),
                None => None,
            }
        }
    }

    /// Whether `step` is the first step of handling the payload.
    pub open spec fn starts_with_step(self, step: ListenerStep) -> bool {
        match step {
            ListenerStep::Fail(failure) => self.handling_error() == Some(failure@),
            ListenerStep::PublishContainerRun { event, reply } => {
                &&& self.handling_error() is None
                &&& !self.is_refinement()
                &&& self.is_container_run()
                &&& self.runs_to(event)
                &&& reply@ == self.execution_id@
            },
            ListenerStep::Append {
                execution_id,
                sequence_number,
                event_type,
                iteration_number,
                next,
            } => {
                &&& self.handling_error() is None
                &&& execution_id == self.execution()
                &&& sequence_number == self.temporal_sequence_number
                &&& event_type == self.event_type
                &&& iteration_number == self.iteration_number
                &&& match next {
                    AfterAppend::Refinement { event, reply } => {
                        &&& self.is_refinement()
                        &&& self.refines_to(event)
                        &&& reply@ == self.execution_id@
                    },
                    AfterAppend::Workflow { execution_id: scope, event, completion } => {
                        &&& !self.is_refinement()
                        &&& !self.is_container_run()
                        &&& scope == self.execution()
                        &&& self.maps_to(event)
                        &&& completion is Some <==> event.ends_execution()
                        &&& completion is Some ==> completion->0.records(self, event)
                    },
                }
            },
            _ => false,
        }
    }
}

impl AfterAppend {
    /// Whether `step` follows the given outcome of writing to the event log.
    pub open spec fn leads_to(self, outcome: AppendOutcome, step: ListenerStep) -> bool {
        match outcome {
            AppendOutcome::NotStored(reason) => step matches ListenerStep::Fail(failure)
                && failure@ == seq!["Failed to persist execution event"@, reason@],
            AppendOutcome::NotSerialized(reason) => step matches ListenerStep::Fail(failure)
                && failure@ == (match self {
                AfterAppend::Refinement { .. } => seq![
                    "Failed to serialize TemporalEventPayload for persistence"@,
                    reason@,
                ],
                AfterAppend::Workflow { .. } => seq![reason@],
            }),
            AppendOutcome::Stored => match self {
                AfterAppend::Refinement { event, reply } => step
                    == (ListenerStep::PublishExecution { event, reply }),
                AfterAppend::Workflow { execution_id, event, completion } => match completion {
                    Some(request) => step == (ListenerStep::ResolveTenant {
                        execution_id,
                        request,
                    }),
                    None => step matches ListenerStep::PublishWorkflow { event: published, reply }
                        && published == event && reply@ == shared_kernel::uuid_text(
                        execution_id.0.bits,
                    ),
                },
            },
        }
    }
}

/// Whether `step` follows from looking up the tenant of an execution whose end
/// is to be recorded with `request`.
pub open spec fn tenant_leads_to(
    execution_id: ExecutionId,
    request: CompleteWorkflowExecutionRequest,
    found: Result<Option<TenantId>, String>,
    step: ListenerStep,
) -> bool {
    match found {
        Err(reason) => step matches ListenerStep::Fail(failure) && failure@
            == seq!["Failed to resolve workflow execution tenant"@, reason@],
        Ok(None) => step matches ListenerStep::Fail(failure) && failure@
            == seq!["Workflow execution not found: "@ + shared_kernel::uuid_text(execution_id.0.bits)],
        Ok(Some(tenant)) => step matches ListenerStep::Complete {
            tenant_id,
            request: recorded,
            reply,
        } && {
            &&& tenant_id == tenant
            &&& recorded == request
            &&& reply@ == shared_kernel::uuid_text(execution_id.0.bits)
        },
    }
}

/// Nothing is published, and no end is recorded, unless the payload is in the
/// event log: where it was not stored, handling fails.
pub proof fn nothing_is_published_unless_stored(
    next: AfterAppend,
    outcome: AppendOutcome,
    step: ListenerStep,
)
    requires
        next.leads_to(outcome, step),
        !(outcome is Stored),
    ensures
        step is Fail,
{
}

/// A workflow event or a refinement is never the first step: handling begins
/// with the event log, with the publication of a container event, or fails.
pub proof fn handling_begins_with_the_log(payload: TemporalEventPayload, step: ListenerStep)
    requires
        payload.starts_with_step(step),
        !payload.is_container_run(),
    ensures
        step is Append || step is Fail,
{
}

/// An event that ends its execution is not published by the listener: once it
/// is stored, its tenant is looked up so that the end can be recorded.
pub proof fn terminal_events_are_recorded(
    payload: TemporalEventPayload,
    first: ListenerStep,
    step: ListenerStep,
)
    requires
        payload.starts_with_step(first),
        first is Append,
        first->next is Workflow,
        first->next->Workflow_event.ends_execution(),
        first->next.leads_to(AppendOutcome::Stored, step),
    ensures
        step is ResolveTenant,
        step->ResolveTenant_execution_id == payload.execution(),
        step->ResolveTenant_request.records(payload, first->next->Workflow_event),
{
}

/// Decides what is done with a payload of the worker.
#[derive(Debug)]
pub struct TemporalEventListener;

impl TemporalEventListener {
    /// The first step of handling `payload`.
    pub fn handle_event(payload: &TemporalEventPayload) -> (step: ListenerStep)
        ensures
            payload.starts_with_step(step),
    {
        if same_text(payload.event_type.as_str(), "RefinementApplied") {
            return Self::handle_refinement(payload);
        }
        if same_text(payload.event_type.as_str(), "ContainerRunStarted") || same_text(
            payload.event_type.as_str(),
            "ContainerRunCompleted",
        ) || same_text(payload.event_type.as_str(), "ContainerRunFailed") {
            return Self::handle_container_run(payload);
        }
        let event = match TemporalEventMapper::to_domain_event(payload) {
            Ok(event) => event,
            Err(f) => {
                return ListenerStep::Fail(
                    f.context("Failed to map Temporal event to domain event"),
                );
            },
        };
        proof {
            mapped_event_belongs_to_execution(*payload, event);
        }
        let execution_id = match event.execution_scope() {
            Some(id) => id,
            None => {
                return ListenerStep::Fail(
                    Failure::msg("event of a workflow definition in execution-scoped handling"),
                );
            },
        };
        let completion = Self::completion_request(execution_id, payload, &event);
        ListenerStep::Append {
            execution_id,
            sequence_number: payload.temporal_sequence_number,
            event_type: payload.event_type.clone(),
            iteration_number: payload.iteration_number,
            next: AfterAppend::Workflow { execution_id, event, completion },
        }
    }

    /// The step that follows the outcome of writing the payload to the event
    /// log.
    pub fn appended(next: AfterAppend, outcome: AppendOutcome) -> (step: ListenerStep)
        ensures
            next.leads_to(outcome, step),
    {
        match outcome {
            AppendOutcome::NotStored(reason) => {
                let failure = Failure::new(reason).context("Failed to persist execution event");
                proof {
                    assert(failure@ =~= seq!["Failed to persist execution event"@, reason@]);
                }
                ListenerStep::Fail(failure)
            },
            AppendOutcome::NotSerialized(reason) => match next {
                AfterAppend::Refinement { .. } => {
                    let failure = Failure::new(reason).context(
                        "Failed to serialize TemporalEventPayload for persistence",
                    );
                    proof {
                        assert(failure@ =~= seq![
                            "Failed to serialize TemporalEventPayload for persistence"@,
                            reason@,
                        ]);
                    }
                    ListenerStep::Fail(failure)
                },
                AfterAppend::Workflow { .. } => ListenerStep::Fail(Failure::new(reason)),
            },
            AppendOutcome::Stored => match next {
                AfterAppend::Refinement { event, reply } => ListenerStep::PublishExecution {
                    event,
                    reply,
                },
                AfterAppend::Workflow { execution_id, event, completion } => match completion {
                    Some(request) => ListenerStep::ResolveTenant { execution_id, request },
                    None => ListenerStep::PublishWorkflow {
                        event,
                        reply: execution_id.0.to_string(),
                    },
                },
            },
        }
    }

    /// The step that follows the search for the tenant of an execution.
    pub fn tenant_resolved(
        execution_id: ExecutionId,
        request: CompleteWorkflowExecutionRequest,
        found: Result<Option<TenantId>, String>,
    ) -> (step: ListenerStep)
        ensures
            tenant_leads_to(execution_id, request, found, step),
    {
        match found {
            Err(reason) => {
                let failure = Failure::new(reason).context(
                    "Failed to resolve workflow execution tenant",
                );
                proof {
                    assert(failure@ =~= seq![
                        "Failed to resolve workflow execution tenant"@,
                        reason@,
                    ]);
                }
                ListenerStep::Fail(failure)
            },
            Ok(None) => {
                let id = execution_id.0.to_string();
                ListenerStep::Fail(
                    Failure::new("Workflow execution not found: ".to_owned().concat(id.as_str())),
                )
            },
            Ok(Some(tenant_id)) => ListenerStep::Complete {
                tenant_id,
                request,
                reply: execution_id.0.to_string(),
            },
        }
    }

    /// What the end of an execution is recorded with, where `event` ends it.
    fn completion_request(
        execution_id: ExecutionId,
        payload: &TemporalEventPayload,
        event: &WorkflowEvent,
    ) -> (r: Option<CompleteWorkflowExecutionRequest>)
        requires
            event.scope() == Some(execution_id),
        ensures
            r is Some <==> event.ends_execution(),
            r is Some ==> r->0.records(*payload, *event),
    {
        match event {
            WorkflowEvent::WorkflowExecutionCompleted { .. } => Some(
                CompleteWorkflowExecutionRequest {
                    execution_id: execution_id.0.to_string(),
                    status: CompletionStatus::Success,
                    final_blackboard: payload.final_blackboard.clone(),
                    final_output: payload.final_output.clone(),
                    error_reason: None,
                    artifacts: artifacts_value(&payload.artifacts),
                    final_state: payload.state_name.clone(),
                },
            ),
            WorkflowEvent::WorkflowExecutionFailed { reason, .. } => Some(
                CompleteWorkflowExecutionRequest {
                    execution_id: execution_id.0.to_string(),
                    status: CompletionStatus::Failed,
                    final_blackboard: payload.final_blackboard.clone(),
                    final_output: payload.final_output.clone(),
                    error_reason: Some(reason.clone()),
                    artifacts: None,
                    final_state: payload.state_name.clone(),
                },
            ),
            WorkflowEvent::WorkflowExecutionCancelled { .. } => Some(
                CompleteWorkflowExecutionRequest {
                    execution_id: execution_id.0.to_string(),
                    status: CompletionStatus::Cancelled,
                    final_blackboard: payload.final_blackboard.clone(),
                    final_output: None,
                    error_reason: None,
                    artifacts: None,
                    final_state: payload.state_name.clone(),
                },
            ),
            _ => None,
        }
    }

    fn handle_refinement(payload: &TemporalEventPayload) -> (step: ListenerStep)
        requires
            payload.is_refinement(),
        ensures
            payload.starts_with_step(step),
    {
        let execution_id = match Uuid::parse_str(payload.execution_id.as_str()) {
            Ok(id) => ExecutionId(id),
            Err(e) => return ListenerStep::Fail(Failure::new(e)),
        };
        let agent_text = match require_text(
            &payload.agent_id,
            "RefinementApplied event requires agent_id",
        ) {
            Ok(s) => s,
            Err(f) => return ListenerStep::Fail(f),
        };
        let agent_id = match Uuid::parse_str(agent_text.as_str()) {
            Ok(id) => AgentId(id),
            Err(e) => {
                let failure = Failure::new(e).context(
                    "Failed to parse agent_id as UUID for RefinementApplied event",
                );
                proof {
                    assert(failure@ =~= payload.refinement_error()->0);
                }
                return ListenerStep::Fail(failure);
            },
        };
        let iteration_number: u8 = match require_number(
            payload.iteration_number,
            "Missing iteration_number for RefinementApplied event",
        ) {
            Ok(n) => n,
            Err(f) => return ListenerStep::Fail(f),
        };
        let diff_value = match require_json(
            &payload.code_diff,
            "Missing code_diff for RefinementApplied event",
        ) {
            Ok(v) => v,
            Err(f) => return ListenerStep::Fail(f),
        };
        let diff = match as_text(&diff_value) {
            Some(s) => s,
            None => {
                let message =
                    "Invalid code_diff format for RefinementApplied event: expected string, got ".to_owned().concat(
                render(&diff_value).as_str());
                return ListenerStep::Fail(Failure::new(message));
            },
        };
        let applied_at = match Timestamp::from_rfc3339(payload.timestamp.as_str()) {
            Ok(t) => t,
            Err(e) => {
                let failure = Failure::new(e).context(
                    "Failed to parse timestamp as RFC3339 for RefinementApplied event",
                );
                proof {
                    assert(failure@ =~= payload.refinement_error()->0);
                }
                return ListenerStep::Fail(failure);
            },
        };
        let event = ExecutionEvent::RefinementApplied {
            execution_id,
            agent_id,
            iteration_number,
            code_diff: CodeDiff { file_path: "validation_feedback".to_owned(), diff },
            applied_at,
            cortex_pattern_id: None,
            cortex_pattern_category: None,
            cortex_success_score: None,
            cortex_solution_approach: None,
        };
        ListenerStep::Append {
            execution_id,
            sequence_number: payload.temporal_sequence_number,
            event_type: payload.event_type.clone(),
            iteration_number: Some(iteration_number),
            next: AfterAppend::Refinement { event, reply: payload.execution_id.clone() },
        }
    }

    fn handle_container_run(payload: &TemporalEventPayload) -> (step: ListenerStep)
        requires
            payload.is_container_run(),
            !payload.is_refinement(),
        ensures
            payload.starts_with_step(step),
    {
        let execution_id = match Uuid::parse_str(payload.execution_id.as_str()) {
            Ok(id) => ExecutionId(id),
            Err(e) => {
                let failure = Failure::new(e).context("Invalid execution_id for ContainerRun event");
                proof {
                    assert(failure@ =~= payload.container_error()->0);
                }
                return ListenerStep::Fail(failure);
            },
        };
        let timestamp = match Timestamp::from_rfc3339(payload.timestamp.as_str()) {
            Ok(t) => t,
            Err(e) => {
                let failure = Failure::new(e).context("Invalid timestamp for ContainerRun event");
                proof {
                    assert(failure@ =~= payload.container_error()->0);
                }
                return ListenerStep::Fail(failure);
            },
        };
        let state_name = copy_text_or_empty(&payload.state_name);
        let step_name = copy_text_or_empty(&payload.name);
        let event = if same_text(payload.event_type.as_str(), "ContainerRunStarted") {
            ContainerRunEvent::ContainerRunStarted {
                execution_id,
                state_name,
                step_name,
                image: copy_text_or_empty(&payload.image),
                command: Vec::new(),
                started_at: timestamp,
            }
        } else if same_text(payload.event_type.as_str(), "ContainerRunCompleted") {
            let exit_code: i32 = match payload.exit_code {
                Some(code) => code,
                None => 0,
            };
            let duration_ms: u64 = match payload.duration_ms {
                Some(ms) => ms,
                None => 0,
            };
            ContainerRunEvent::ContainerRunCompleted {
                execution_id,
                state_name,
                step_name,
                exit_code,
                stdout_bytes: 0,
                stderr_bytes: 0,
                duration_ms,
                completed_at: timestamp,
            }
        } else {
            let reason = match payload.exit_code {
                Some(code) => ContainerRunFailureReason::NonZeroExitCode { code },
                None => ContainerRunFailureReason::ResourceExhausted {
                    detail: copy_first_text(&payload.error, &payload.stderr),
                },
            };
            ContainerRunEvent::ContainerRunFailed {
                execution_id,
                state_name,
                step_name,
                reason,
                failed_at: timestamp,
            }
        };
        ListenerStep::PublishContainerRun { event, reply: payload.execution_id.clone() }
    }
}

/// What tells the event types apart.
proof fn lemma_types_differ()
    ensures
        "WorkflowExecutionStarted"@.len() == 24,
        "WorkflowExecutionStarted"@[8] == 'E',
        "WorkflowIterationStarted"@.len() == 24,
        "WorkflowIterationStarted"@[8] == 'I',
        "WorkflowStateEntered"@.len() == 20,
        "WorkflowStateEntered"@[11] == 't',
        "SubworkflowTriggered"@.len() == 20,
        "SubworkflowTriggered"@[11] == 'T',
        "SubworkflowCompleted"@.len() == 20,
        "SubworkflowCompleted"@[11] == 'C',
        "WorkflowStateExited"@.len() == 19,
        "WorkflowStateExited"@[0] == 'W',
        "WorkflowIterationCompleted"@.len() == 26,
        "WorkflowIterationCompleted"@[8] == 'I',
        "WorkflowExecutionCompleted"@.len() == 26,
        "WorkflowExecutionCompleted"@[8] == 'E',
        "WorkflowExecutionCompleted"@[18] == 'o',
        "WorkflowExecutionCancelled"@.len() == 26,
        "WorkflowExecutionCancelled"@[8] == 'E',
        "WorkflowExecutionCancelled"@[18] == 'a',
        "WorkflowIterationFailed"@.len() == 23,
        "WorkflowIterationFailed"@[8] == 'I',
        "WorkflowExecutionFailed"@.len() == 23,
        "WorkflowExecutionFailed"@[8] == 'E',
        "SubworkflowFailed"@.len() == 17,
        "SubworkflowFailed"@[0] == 'S',
        "IntentExecutionPipelineStarted"@.len() == 30,
        "IntentExecutionPipelineCompleted"@.len() == 32,
        "IntentExecutionPipelineFailed"@.len() == 29,
        "RefinementApplied"@.len() == 17,
        "RefinementApplied"@[0] == 'R',
        "ContainerRunStarted"@.len() == 19,
        "ContainerRunStarted"@[0] == 'C',
        "ContainerRunCompleted"@.len() == 21,
        "ContainerRunFailed"@.len() == 18,
{
    reveal_strlit("WorkflowExecutionStarted");
    reveal_strlit("WorkflowIterationStarted");
    reveal_strlit("WorkflowStateEntered");
    reveal_strlit("SubworkflowTriggered");
    reveal_strlit("SubworkflowCompleted");
    reveal_strlit("WorkflowStateExited");
    reveal_strlit("WorkflowIterationCompleted");
    reveal_strlit("WorkflowExecutionCompleted");
    reveal_strlit("WorkflowExecutionCancelled");
    reveal_strlit("WorkflowIterationFailed");
    reveal_strlit("WorkflowExecutionFailed");
    reveal_strlit("SubworkflowFailed");
    reveal_strlit("IntentExecutionPipelineStarted");
    reveal_strlit("IntentExecutionPipelineCompleted");
    reveal_strlit("IntentExecutionPipelineFailed");
    reveal_strlit("RefinementApplied");
    reveal_strlit("ContainerRunStarted");
    reveal_strlit("ContainerRunCompleted");
    reveal_strlit("ContainerRunFailed");
}

/// A payload reports the event that its type names, and no other.
pub proof fn event_variant_follows_type(payload: TemporalEventPayload, event: WorkflowEvent)
    requires
        payload.maps_to(event),
    ensures
        event is WorkflowExecutionStarted <==> payload.event_type@ == "WorkflowExecutionStarted"@,
        event is WorkflowStateEntered <==> payload.event_type@ == "WorkflowStateEntered"@,
        event is WorkflowStateExited <==> payload.event_type@ == "WorkflowStateExited"@,
        event is WorkflowIterationStarted <==> payload.event_type@ == "WorkflowIterationStarted"@,
        event is WorkflowIterationCompleted <==> payload.event_type@
            == "WorkflowIterationCompleted"@,
        event is WorkflowIterationFailed <==> payload.event_type@ == "WorkflowIterationFailed"@,
        event is WorkflowExecutionCompleted <==> payload.event_type@
            == "WorkflowExecutionCompleted"@,
        event is WorkflowExecutionFailed <==> payload.event_type@ == "WorkflowExecutionFailed"@,
        event is WorkflowExecutionCancelled <==> payload.event_type@
            == "WorkflowExecutionCancelled"@,
        event is SubworkflowTriggered <==> payload.event_type@ == "SubworkflowTriggered"@,
        event is SubworkflowCompleted <==> payload.event_type@ == "SubworkflowCompleted"@,
        event is SubworkflowFailed <==> payload.event_type@ == "SubworkflowFailed"@,
        event is IntentExecutionPipelineStarted <==> payload.event_type@
            == "IntentExecutionPipelineStarted"@,
        event is IntentExecutionPipelineCompleted <==> payload.event_type@
            == "IntentExecutionPipelineCompleted"@,
        event is IntentExecutionPipelineFailed <==> payload.event_type@
            == "IntentExecutionPipelineFailed"@,
        !(event is WorkflowRegistered),
        !(event is WorkflowScopeChanged),
        !(event is WorkflowRemoved),
{
    lemma_types_differ();
}

/// Whether `id` is what the text of an identifier reads as.
pub open spec fn names(text: String, id: Uuid) -> bool {
    shared_kernel::uuid_parsed(text@) == Ok::<u128, Seq<char>>(id.bits)
}

/// Whether `time` is what the text of a time reads as.
pub open spec fn tells(text: String, time: Timestamp) -> bool {
    clock::rfc3339(text@) == Ok::<(i64, u32), Seq<char>>((time.seconds, time.nanos))
}

/// An event of an execution says of it what the payload says: which execution,
/// when, and the fields that its type calls for, each from the field of its own
/// name.
pub proof fn execution_events_say_what_was_sent(
    payload: TemporalEventPayload,
    event: WorkflowEvent,
)
    requires
        payload.mapping_error() is None,
        payload.maps_to(event),
    ensures
        match event {
            WorkflowEvent::WorkflowExecutionStarted { execution_id, workflow_id, started_at } => {
                &&& names(payload.execution_id, execution_id.0)
                &&& tells(payload.timestamp, started_at)
                &&& match payload.workflow_id {
                    Some(s) => names(s, workflow_id.0) || (shared_kernel::uuid_parsed(s@) is Err
                        && workflow_id.0.bits == 0),
                    None => workflow_id.0.bits == 0,
                }
            },
            WorkflowEvent::WorkflowStateEntered { execution_id, state_name, entered_at } => {
                &&& names(payload.execution_id, execution_id.0)
                &&& tells(payload.timestamp, entered_at)
                &&& payload.state_name == Some(state_name)
            },
            WorkflowEvent::WorkflowStateExited { execution_id, state_name, output, exited_at } => {
                &&& names(payload.execution_id, execution_id.0)
                &&& tells(payload.timestamp, exited_at)
                &&& payload.state_name == Some(state_name)
                &&& payload.output == Some(output)
            },
            WorkflowEvent::WorkflowIterationStarted {
                execution_id,
                iteration_number,
                started_at,
            } => {
                &&& names(payload.execution_id, execution_id.0)
                &&& tells(payload.timestamp, started_at)
                &&& payload.iteration_number == Some(iteration_number)
            },
            WorkflowEvent::WorkflowIterationCompleted {
                execution_id,
                iteration_number,
                output,
                completed_at,
            } => {
                &&& names(payload.execution_id, execution_id.0)
                &&& tells(payload.timestamp, completed_at)
                &&& payload.iteration_number == Some(iteration_number)
                &&& payload.output == Some(output)
            },
            WorkflowEvent::WorkflowIterationFailed {
                execution_id,
                iteration_number,
                error,
                failed_at,
            } => {
                &&& names(payload.execution_id, execution_id.0)
                &&& tells(payload.timestamp, failed_at)
                &&& payload.iteration_number == Some(iteration_number)
                &&& payload.error == Some(error)
            },
            WorkflowEvent::WorkflowExecutionCompleted {
                execution_id,
                final_blackboard,
                artifacts,
                completed_at,
            } => {
                &&& names(payload.execution_id, execution_id.0)
                &&& tells(payload.timestamp, completed_at)
                &&& match payload.final_blackboard {
                    Some(sent) => final_blackboard == sent,
                    None => json::json_members(final_blackboard) == Some(
                        Map::<Seq<char>, serde_json::Value>::empty(),
                    ),
                }
                &&& lists_artifacts(payload.artifacts, artifacts)
            },
            WorkflowEvent::WorkflowExecutionFailed { execution_id, reason, failed_at } => {
                &&& names(payload.execution_id, execution_id.0)
                &&& tells(payload.timestamp, failed_at)
                &&& payload.error == Some(reason)
            },
            WorkflowEvent::WorkflowExecutionCancelled { execution_id, cancelled_at } => {
                &&& names(payload.execution_id, execution_id.0)
                &&& tells(payload.timestamp, cancelled_at)
            },
            _ => true,
        },
{
    lemma_types_differ();
    assert(text::texts(payload.artifacts->0@).len() == payload.artifacts->0@.len());
    assert forall|i: int| 0 <= i < payload.artifacts->0@.len() implies text::texts(
        payload.artifacts->0@,
    )[i] == (#[trigger] payload.artifacts->0@[i])@ by {}
}

/// Whether a value is the JSON array of the artifacts that were sent, item by
/// item, absent where none were.
pub open spec fn lists_artifacts(sent: Option<Vec<String>>, value: Option<serde_json::Value>) -> bool {
    &&& value is Some <==> sent is Some
    &&& value is Some ==> {
        &&& json::json_items(value->0) is Some
        &&& json::json_items(value->0)->0.len() == sent->0@.len()
        &&& forall|i: int|
            0 <= i < sent->0@.len() ==> json::json_text(json::json_items(value->0)->0[i]) == Some(
                (#[trigger] sent->0@[i])@,
            )
    }
}

/// An event of a subworkflow or of a pipeline says what the payload says, each
/// field from the field of its own name; what was left out is the default that
/// belongs to the field.
pub proof fn nested_events_say_what_was_sent(payload: TemporalEventPayload, event: WorkflowEvent)
    requires
        payload.mapping_error() is None,
        payload.maps_to(event),
    ensures
        match event {
            WorkflowEvent::SubworkflowTriggered {
                parent_execution_id,
                child_execution_id,
                child_workflow_id,
                mode,
                parent_state_name,
                triggered_at,
            } => {
                &&& names(payload.execution_id, parent_execution_id.0)
                &&& payload.child_execution_id is Some
                &&& names(payload.child_execution_id->0, child_execution_id.0)
                &&& payload.child_workflow_id is Some
                &&& names(payload.child_workflow_id->0, child_workflow_id.0)
                &&& mode@ == (match payload.mode {
                    Some(s) => s@,
                    None => "blocking"@,
                })
                &&& payload.parent_state_name is Some ==> parent_state_name@
                    == payload.parent_state_name->0@
                &&& payload.parent_state_name is None && payload.state_name is Some
                    ==> parent_state_name@ == payload.state_name->0@
                &&& payload.parent_state_name is None && payload.state_name is None
                    ==> parent_state_name@.len() == 0
                &&& tells(payload.timestamp, triggered_at)
            },
            WorkflowEvent::SubworkflowCompleted {
                parent_execution_id,
                child_execution_id,
                result_key,
                completed_at,
            } => {
                &&& names(payload.execution_id, parent_execution_id.0)
                &&& payload.child_execution_id is Some
                &&& names(payload.child_execution_id->0, child_execution_id.0)
                &&& payload.result_key is Some ==> result_key@ == payload.result_key->0@
                &&& payload.result_key is None ==> result_key@.len() == 0
                &&& tells(payload.timestamp, completed_at)
            },
            WorkflowEvent::SubworkflowFailed {
                parent_execution_id,
                child_execution_id,
                reason,
                failed_at,
            } => {
                &&& names(payload.execution_id, parent_execution_id.0)
                &&& payload.child_execution_id is Some
                &&& names(payload.child_execution_id->0, child_execution_id.0)
                &&& reason@ == (match payload.error {
                    Some(s) => s@,
                    None => "Unknown child workflow failure"@,
                })
                &&& tells(payload.timestamp, failed_at)
            },
            WorkflowEvent::IntentExecutionPipelineStarted {
                pipeline_execution_id,
                workflow_execution_id,
                intent,
                language,
                workspace_volume_id,
                started_at,
            } => {
                &&& names(payload.execution_id, pipeline_execution_id.0)
                &&& payload.workflow_execution_id is Some
                &&& names(payload.workflow_execution_id->0, workflow_execution_id.0)
                &&& payload.intent == Some(intent)
                &&& payload.workspace_volume_id is Some
                &&& names(payload.workspace_volume_id->0, workspace_volume_id.0)
                &&& language is Tagged <==> payload.language is Some && payload.language->0.known
                &&& language is Tagged ==> language->0 == payload.language->0.text
                &&& tells(payload.timestamp, started_at)
            },
            WorkflowEvent::IntentExecutionPipelineCompleted {
                pipeline_execution_id,
                workflow_execution_id,
                tenant_id,
                final_result,
                duration_ms,
                reused_existing_agent,
                agent_similarity_score,
                completed_at,
            } => {
                &&& names(payload.execution_id, pipeline_execution_id.0)
                &&& payload.workflow_execution_id is Some
                &&& names(payload.workflow_execution_id->0, workflow_execution_id.0)
                &&& payload.tenant_id is Some
                &&& tenant_id@ == payload.tenant_id->0@
                &&& payload.final_result is Some ==> final_result@ == payload.final_result->0@
                &&& payload.final_result is None ==> final_result@.len() == 0
                &&& payload.duration_ms is Some ==> payload.duration_ms == Some(duration_ms)
                &&& payload.duration_ms is None ==> duration_ms == 0
                &&& payload.reused_existing_agent is Some ==> payload.reused_existing_agent == Some(
                    reused_existing_agent,
                )
                &&& payload.reused_existing_agent is None ==> !reused_existing_agent
                &&& agent_similarity_score == payload.agent_similarity_score
                &&& tells(payload.timestamp, completed_at)
            },
            WorkflowEvent::IntentExecutionPipelineFailed {
                pipeline_execution_id,
                workflow_execution_id,
                failed_at_state,
                reason,
                failed_at,
            } => {
                &&& names(payload.execution_id, pipeline_execution_id.0)
                &&& payload.workflow_execution_id is Some
                &&& names(payload.workflow_execution_id->0, workflow_execution_id.0)
                &&& payload.failed_at_state is Some ==> failed_at_state@
                    == payload.failed_at_state->0@
                &&& payload.failed_at_state is None && payload.state_name is Some
                    ==> failed_at_state@ == payload.state_name->0@
                &&& payload.failed_at_state is None && payload.state_name is None
                    ==> failed_at_state@.len() == 0
                &&& reason@ == (match payload.error {
                    Some(s) => s@,
                    None => "Unknown pipeline failure"@,
                })
                &&& tells(payload.timestamp, failed_at)
            },
            _ => true,
        },
{
    lemma_types_differ();
}

/// Whether the text of an identifier is there and reads as one.
pub open spec fn readable_id(text: Option<String>) -> bool {
    text is Some && shared_kernel::uuid_parsed(text->0@) is Ok
}

/// A payload reports an event exactly where its execution and time can be read,
/// its type is one of the fifteen, and what that type calls for is there.
pub proof fn payloads_map_where_complete(payload: TemporalEventPayload)
    ensures
        payload.mapping_error() is None <==> {
            &&& shared_kernel::uuid_parsed(payload.execution_id@) is Ok
            &&& clock::rfc3339(payload.timestamp@) is Ok
            &&& {
                ||| payload.event_type@ == "WorkflowExecutionStarted"@
                ||| payload.event_type@ == "WorkflowExecutionCompleted"@
                ||| payload.event_type@ == "WorkflowExecutionCancelled"@
                ||| payload.event_type@ == "WorkflowStateEntered"@ && payload.state_name is Some
                ||| payload.event_type@ == "WorkflowStateExited"@ && payload.state_name is Some
                    && payload.output is Some
                ||| payload.event_type@ == "WorkflowIterationStarted"@
                    && payload.iteration_number is Some
                ||| payload.event_type@ == "WorkflowIterationCompleted"@
                    && payload.iteration_number is Some && payload.output is Some
                ||| payload.event_type@ == "WorkflowIterationFailed"@
                    && payload.iteration_number is Some && payload.error is Some
                ||| payload.event_type@ == "WorkflowExecutionFailed"@ && payload.error is Some
                ||| payload.event_type@ == "SubworkflowTriggered"@ && readable_id(
                    payload.child_execution_id,
                ) && readable_id(payload.child_workflow_id)
                ||| payload.event_type@ == "SubworkflowCompleted"@ && readable_id(
                    payload.child_execution_id,
                )
                ||| payload.event_type@ == "SubworkflowFailed"@ && readable_id(
                    payload.child_execution_id,
                )
                ||| payload.event_type@ == "IntentExecutionPipelineStarted"@ && readable_id(
                    payload.workflow_execution_id,
                ) && payload.intent is Some && readable_id(payload.workspace_volume_id)
                ||| payload.event_type@ == "IntentExecutionPipelineCompleted"@ && readable_id(
                    payload.workflow_execution_id,
                ) && payload.tenant_id is Some && payload.tenant_id->0@.len() > 0
                ||| payload.event_type@ == "IntentExecutionPipelineFailed"@ && readable_id(
                    payload.workflow_execution_id,
                )
            }
        },
{
    lemma_types_differ();
}

/// The first thing that is wrong with a payload is what the failure names: the
/// execution before the time, the time before the type, the type before the
/// fields, and the fields in the order in which they are called for.
pub proof fn mapping_failures_name_the_fault(payload: TemporalEventPayload, chain: Seq<Seq<char>>)
    requires
        payload.mapping_error() == Some(chain),
    ensures
        shared_kernel::uuid_parsed(payload.execution_id@) is Err ==> chain == seq![
            "Invalid execution_id format (expected UUID)"@,
            shared_kernel::uuid_parsed(payload.execution_id@)->Err_0,
        ],
        shared_kernel::uuid_parsed(payload.execution_id@) is Ok && clock::rfc3339(
            payload.timestamp@,
        ) is Err ==> chain == seq![
            "Invalid timestamp format (expected RFC3339)"@,
            clock::rfc3339(payload.timestamp@)->Err_0,
        ],
        shared_kernel::uuid_parsed(payload.execution_id@) is Ok && clock::rfc3339(
            payload.timestamp@,
        ) is Ok ==> {
            &&& payload.event_type@ == "WorkflowStateEntered"@ ==> chain == seq![
                "state_name required for WorkflowStateEntered event"@,
            ]
            &&& payload.event_type@ == "WorkflowStateExited"@ && payload.state_name is None
                ==> chain == seq!["state_name required for WorkflowStateExited event"@]
            &&& payload.event_type@ == "WorkflowStateExited"@ && payload.state_name is Some
                ==> chain == seq!["output required for WorkflowStateExited event"@]
            &&& payload.event_type@ == "WorkflowIterationStarted"@ ==> chain == seq![
                "iteration_number required for WorkflowIterationStarted event"@,
            ]
            &&& payload.event_type@ == "WorkflowIterationCompleted"@
                && payload.iteration_number is None ==> chain == seq![
                "iteration_number required for WorkflowIterationCompleted event"@,
            ]
            &&& payload.event_type@ == "WorkflowIterationCompleted"@
                && payload.iteration_number is Some ==> chain == seq![
                "output required for WorkflowIterationCompleted event"@,
            ]
            &&& payload.event_type@ == "WorkflowIterationFailed"@
                && payload.iteration_number is None ==> chain == seq![
                "iteration_number required for WorkflowIterationFailed event"@,
            ]
            &&& payload.event_type@ == "WorkflowIterationFailed"@
                && payload.iteration_number is Some ==> chain == seq![
                "error required for WorkflowIterationFailed event"@,
            ]
            &&& payload.event_type@ == "WorkflowExecutionFailed"@ ==> chain == seq![
                "error required for WorkflowExecutionFailed event"@,
            ]
            &&& payload.event_type@ == "SubworkflowTriggered"@ && payload.child_execution_id is None
                ==> chain == seq!["SubworkflowTriggered missing child_execution_id"@]
            &&& payload.event_type@ == "SubworkflowTriggered"@ && readable_id(
                payload.child_execution_id,
            ) && payload.child_workflow_id is None ==> chain == seq![
                "SubworkflowTriggered missing child_workflow_id"@,
            ]
            &&& payload.event_type@ == "SubworkflowCompleted"@ && payload.child_execution_id is None
                ==> chain == seq!["SubworkflowCompleted missing child_execution_id"@]
            &&& payload.event_type@ == "SubworkflowFailed"@ && payload.child_execution_id is None
                ==> chain == seq!["SubworkflowFailed missing child_execution_id"@]
            &&& payload.event_type@ == "IntentExecutionPipelineStarted"@
                && payload.workflow_execution_id is None ==> chain == seq![
                "IntentExecutionPipelineStarted missing workflow_execution_id"@,
            ]
            &&& payload.event_type@ == "IntentExecutionPipelineStarted"@ && readable_id(
                payload.workflow_execution_id,
            ) && payload.intent is None ==> chain == seq![
                "IntentExecutionPipelineStarted missing intent"@,
            ]
            &&& payload.event_type@ == "IntentExecutionPipelineStarted"@ && readable_id(
                payload.workflow_execution_id,
            ) && payload.intent is Some && payload.workspace_volume_id is None ==> chain == seq![
                "IntentExecutionPipelineStarted missing workspace_volume_id"@,
            ]
            &&& payload.event_type@ == "IntentExecutionPipelineStarted"@ && readable_id(
                payload.workflow_execution_id,
            ) && payload.intent is Some && payload.workspace_volume_id is Some ==> chain == seq![
                "IntentExecutionPipelineStarted: invalid workspace_volume_id UUID"@,
                shared_kernel::uuid_parsed(payload.workspace_volume_id->0@)->Err_0,
            ]
            &&& payload.event_type@ == "IntentExecutionPipelineCompleted"@
                && payload.workflow_execution_id is None ==> chain == seq![
                "IntentExecutionPipelineCompleted missing workflow_execution_id"@,
            ]
            &&& payload.event_type@ == "IntentExecutionPipelineCompleted"@ && readable_id(
                payload.workflow_execution_id,
            ) && payload.tenant_id is None ==> chain == seq![
                "IntentExecutionPipelineCompleted missing tenant_id"@,
            ]
            &&& payload.event_type@ == "IntentExecutionPipelineCompleted"@ && readable_id(
                payload.workflow_execution_id,
            ) && payload.tenant_id is Some ==> chain == seq![
                "IntentExecutionPipelineCompleted: invalid tenant_id"@,
                "tenant id must not be empty"@,
            ]
            &&& payload.event_type@ == "IntentExecutionPipelineFailed"@
                && payload.workflow_execution_id is None ==> chain == seq![
                "IntentExecutionPipelineFailed missing workflow_execution_id"@,
            ]
            &&& !({
                ||| payload.event_type@ == "WorkflowStateEntered"@
                ||| payload.event_type@ == "WorkflowStateExited"@
                ||| payload.event_type@ == "WorkflowIterationStarted"@
                ||| payload.event_type@ == "WorkflowIterationCompleted"@
                ||| payload.event_type@ == "WorkflowIterationFailed"@
                ||| payload.event_type@ == "WorkflowExecutionFailed"@
                ||| payload.event_type@ == "SubworkflowTriggered"@
                ||| payload.event_type@ == "SubworkflowCompleted"@
                ||| payload.event_type@ == "SubworkflowFailed"@
                ||| payload.event_type@ == "IntentExecutionPipelineStarted"@
                ||| payload.event_type@ == "IntentExecutionPipelineCompleted"@
                ||| payload.event_type@ == "IntentExecutionPipelineFailed"@
            }) ==> chain == seq!["Unknown event_type: "@ + payload.event_type@]
        },
{
    lemma_types_differ();
}

/// An identifier inside a payload that is there and cannot be read fails with
/// what its reader says, and with nothing before it.
pub proof fn unreadable_identifiers_fail_as_read(
    payload: TemporalEventPayload,
    chain: Seq<Seq<char>>,
)
    requires
        payload.mapping_error() == Some(chain),
        shared_kernel::uuid_parsed(payload.execution_id@) is Ok,
        clock::rfc3339(payload.timestamp@) is Ok,
    ensures
        ({
            ||| payload.event_type@ == "SubworkflowTriggered"@
            ||| payload.event_type@ == "SubworkflowCompleted"@
            ||| payload.event_type@ == "SubworkflowFailed"@
        }) && payload.child_execution_id is Some && !readable_id(payload.child_execution_id)
            ==> chain == seq![shared_kernel::uuid_parsed(payload.child_execution_id->0@)->Err_0],
        payload.event_type@ == "SubworkflowTriggered"@ && readable_id(payload.child_execution_id)
            && payload.child_workflow_id is Some ==> chain == seq![
            shared_kernel::uuid_parsed(payload.child_workflow_id->0@)->Err_0,
        ],
        ({
            ||| payload.event_type@ == "IntentExecutionPipelineStarted"@
            ||| payload.event_type@ == "IntentExecutionPipelineCompleted"@
            ||| payload.event_type@ == "IntentExecutionPipelineFailed"@
        }) && payload.workflow_execution_id is Some && !readable_id(payload.workflow_execution_id)
            ==> chain == seq![shared_kernel::uuid_parsed(payload.workflow_execution_id->0@)->Err_0],
{
    lemma_types_differ();
}

/// How a payload is handled is a matter of its type: a container step is
/// published at once, an applied refinement and everything else goes to the
/// event log first, under the payload's own execution, number, type and
/// iteration.
pub proof fn handling_follows_type(payload: TemporalEventPayload, step: ListenerStep)
    requires
        payload.starts_with_step(step),
    ensures
        step is Fail || step is Append || step is PublishContainerRun,
        step is PublishContainerRun ==> {
            ||| payload.event_type@ == "ContainerRunStarted"@
            ||| payload.event_type@ == "ContainerRunCompleted"@
            ||| payload.event_type@ == "ContainerRunFailed"@
        },
        step is Append ==> {
            &&& payload.event_type@ != "ContainerRunStarted"@
            &&& payload.event_type@ != "ContainerRunCompleted"@
            &&& payload.event_type@ != "ContainerRunFailed"@
            &&& names(payload.execution_id, step->Append_execution_id.0)
            &&& step->sequence_number == payload.temporal_sequence_number
            &&& step->event_type@ == payload.event_type@
            &&& step->iteration_number == payload.iteration_number
            &&& step->next is Refinement <==> payload.event_type@ == "RefinementApplied"@
        },
        step matches ListenerStep::PublishContainerRun { event, reply } ==> {
            &&& reply@ == payload.execution_id@
            &&& event is ContainerRunStarted <==> payload.event_type@ == "ContainerRunStarted"@
            &&& event is ContainerRunCompleted <==> payload.event_type@ == "ContainerRunCompleted"@
            &&& event is ContainerRunFailed <==> payload.event_type@ == "ContainerRunFailed"@
        },
{
    lemma_types_differ();
}

/// A container step or a refinement is handled exactly where what it calls for
/// is there and can be read.
pub proof fn handling_succeeds_where_complete(payload: TemporalEventPayload, step: ListenerStep)
    requires
        payload.starts_with_step(step),
    ensures
        ({
            ||| payload.event_type@ == "ContainerRunStarted"@
            ||| payload.event_type@ == "ContainerRunCompleted"@
            ||| payload.event_type@ == "ContainerRunFailed"@
        }) ==> (step is PublishContainerRun <==> shared_kernel::uuid_parsed(
            payload.execution_id@,
        ) is Ok && clock::rfc3339(payload.timestamp@) is Ok),
        payload.event_type@ == "RefinementApplied"@ ==> (step is Append <==> {
            &&& shared_kernel::uuid_parsed(payload.execution_id@) is Ok
            &&& readable_id(payload.agent_id)
            &&& payload.iteration_number is Some
            &&& payload.code_diff is Some
            &&& json::json_text(payload.code_diff->0) is Some
            &&& clock::rfc3339(payload.timestamp@) is Ok
        }),
        payload.mapping_error() is None ==> step is Append,
        payload.event_type@ != "RefinementApplied"@ && payload.event_type@ != "ContainerRunStarted"@
            && payload.event_type@ != "ContainerRunCompleted"@ && payload.event_type@
            != "ContainerRunFailed"@ ==> match payload.mapping_error() {
            None => step is Append,
            Some(chain) => step matches ListenerStep::Fail(failure) && failure@.len() == chain.len()
                + 1 && failure@[0] == "Failed to map Temporal event to domain event"@
                && failure@.skip(1) == chain,
        },
{
    lemma_types_differ();
    if let ListenerStep::Fail(failure) = step {
        if let Some(chain) = payload.mapping_error() {
            let all = seq!["Failed to map Temporal event to domain event"@] + chain;
            assert(all.skip(1) =~= chain);
        }
    }
}

/// What a failed container step or refinement fails with.
pub proof fn handling_failures_name_the_fault(payload: TemporalEventPayload, failure: Failure)
    requires
        payload.starts_with_step(ListenerStep::Fail(failure)),
    ensures
        ({
            ||| payload.event_type@ == "ContainerRunStarted"@
            ||| payload.event_type@ == "ContainerRunCompleted"@
            ||| payload.event_type@ == "ContainerRunFailed"@
        }) ==> match shared_kernel::uuid_parsed(payload.execution_id@) {
            Err(e) => failure@ == seq!["Invalid execution_id for ContainerRun event"@, e],
            Ok(_) => failure@ == seq![
                "Invalid timestamp for ContainerRun event"@,
                clock::rfc3339(payload.timestamp@)->Err_0,
            ],
        },
        payload.event_type@ == "RefinementApplied"@ ==> match shared_kernel::uuid_parsed(
            payload.execution_id@,
        ) {
            Err(e) => failure@ == seq![e],
            Ok(_) => {
                &&& payload.agent_id is None ==> failure@ == seq![
                    "RefinementApplied event requires agent_id"@,
                ]
                &&& payload.agent_id is Some && !readable_id(payload.agent_id) ==> failure@
                    == seq![
                    "Failed to parse agent_id as UUID for RefinementApplied event"@,
                    shared_kernel::uuid_parsed(payload.agent_id->0@)->Err_0,
                ]
                &&& readable_id(payload.agent_id) && payload.iteration_number is None ==> failure@
                    == seq!["Missing iteration_number for RefinementApplied event"@]
                &&& readable_id(payload.agent_id) && payload.iteration_number is Some
                    && payload.code_diff is None ==> failure@ == seq![
                    "Missing code_diff for RefinementApplied event"@,
                ]
                &&& readable_id(payload.agent_id) && payload.iteration_number is Some
                    && payload.code_diff is Some && json::json_text(payload.code_diff->0) is None
                    ==> failure@ == seq![
                    "Invalid code_diff format for RefinementApplied event: expected string, got "@
                        + json::json_rendering(payload.code_diff->0),
                ]
                &&& readable_id(payload.agent_id) && payload.iteration_number is Some
                    && payload.code_diff is Some && json::json_text(payload.code_diff->0) is Some
                    ==> failure@ == seq![
                    "Failed to parse timestamp as RFC3339 for RefinementApplied event"@,
                    clock::rfc3339(payload.timestamp@)->Err_0,
                ]
            },
        },
{
    lemma_types_differ();
}

/// A container event says what the payload says of the step; what was left out
/// is empty or zero, and a step that failed with an exit code failed of that.
pub proof fn container_events_say_what_was_sent(
    payload: TemporalEventPayload,
    event: ContainerRunEvent,
    reply: String,
)
    requires
        payload.starts_with_step(ListenerStep::PublishContainerRun { event, reply }),
    ensures
        match event {
            ContainerRunEvent::ContainerRunStarted {
                execution_id,
                state_name,
                step_name,
                image,
                command,
                started_at,
            } => {
                &&& names(payload.execution_id, execution_id.0)
                &&& tells(payload.timestamp, started_at)
                &&& copies(payload.state_name, state_name)
                &&& copies(payload.name, step_name)
                &&& copies(payload.image, image)
                &&& command@.len() == 0
            },
            ContainerRunEvent::ContainerRunCompleted {
                execution_id,
                state_name,
                step_name,
                exit_code,
                stdout_bytes,
                stderr_bytes,
                duration_ms,
                completed_at,
            } => {
                &&& names(payload.execution_id, execution_id.0)
                &&& tells(payload.timestamp, completed_at)
                &&& copies(payload.state_name, state_name)
                &&& copies(payload.name, step_name)
                &&& payload.exit_code is Some ==> payload.exit_code == Some(exit_code)
                &&& payload.exit_code is None ==> exit_code == 0
                &&& payload.duration_ms is Some ==> payload.duration_ms == Some(duration_ms)
                &&& payload.duration_ms is None ==> duration_ms == 0
                &&& stdout_bytes == 0 && stderr_bytes == 0
            },
            ContainerRunEvent::ContainerRunFailed {
                execution_id,
                state_name,
                step_name,
                reason,
                failed_at,
            } => {
                &&& names(payload.execution_id, execution_id.0)
                &&& tells(payload.timestamp, failed_at)
                &&& copies(payload.state_name, state_name)
                &&& copies(payload.name, step_name)
                &&& reason is NonZeroExitCode <==> payload.exit_code is Some
                &&& reason is NonZeroExitCode ==> payload.exit_code == Some(reason->code)
                &&& reason is ResourceExhausted && payload.error is Some ==> reason->detail@
                    == payload.error->0@
                &&& reason is ResourceExhausted && payload.error is None ==> copies(
                    payload.stderr,
                    reason->detail,
                )
            },
        },
{
    lemma_types_differ();
}

/// Whether `text` is the text that was sent, or empty where none was.
pub open spec fn copies(sent: Option<String>, text: String) -> bool {
    match sent {
        Some(s) => text@ == s@,
        None => text@.len() == 0,
    }
}

/// A refinement says what the payload says: the agent, the iteration, and the
/// text of the difference.
pub proof fn refinements_say_what_was_sent(
    payload: TemporalEventPayload,
    step: ListenerStep,
    event: ExecutionEvent,
    reply: String,
)
    requires
        payload.starts_with_step(step),
        step is Append,
        step->next == (AfterAppend::Refinement { event, reply }),
    ensures
        reply@ == payload.execution_id@,
        event matches ExecutionEvent::RefinementApplied {
            execution_id,
            agent_id,
            iteration_number,
            code_diff,
            applied_at,
            ..
        } && {
            &&& names(payload.execution_id, execution_id.0)
            &&& names(payload.agent_id->0, agent_id.0)
            &&& payload.iteration_number == Some(iteration_number)
            &&& code_diff.file_path@ == "validation_feedback"@
            &&& json::json_text(payload.code_diff->0) == Some(code_diff.diff@)
            &&& tells(payload.timestamp, applied_at)
        },
{
    lemma_types_differ();
}

/// The end of an execution is recorded with the payload's own execution, state
/// and blackboard: as a success with its output and artifacts where it
/// completed, as a failure with its output and error where it failed, and with
/// neither where it was cancelled. No other event records an end.
pub proof fn recorded_end_follows_type(
    payload: TemporalEventPayload,
    step: ListenerStep,
    execution_id: ExecutionId,
    event: WorkflowEvent,
    completion: Option<CompleteWorkflowExecutionRequest>,
)
    requires
        payload.starts_with_step(step),
        step is Append,
        step->next == (AfterAppend::Workflow { execution_id, event, completion }),
    ensures
        payload.maps_to(event),
        names(payload.execution_id, execution_id.0),
        completion is Some <==> {
            ||| payload.event_type@ == "WorkflowExecutionCompleted"@
            ||| payload.event_type@ == "WorkflowExecutionFailed"@
            ||| payload.event_type@ == "WorkflowExecutionCancelled"@
        },
        completion matches Some(request) ==> {
            &&& request.execution_id@ == shared_kernel::uuid_text(execution_id.0.bits)
            &&& request.final_blackboard == payload.final_blackboard
            &&& request.final_state == payload.state_name
            &&& request.status is Success <==> payload.event_type@ == "WorkflowExecutionCompleted"@
            &&& request.status is Failed <==> payload.event_type@ == "WorkflowExecutionFailed"@
            &&& request.status is Cancelled <==> payload.event_type@
                == "WorkflowExecutionCancelled"@
            &&& payload.event_type@ == "WorkflowExecutionCancelled"@ ==> request.final_output is None
            &&& payload.event_type@ != "WorkflowExecutionCancelled"@ ==> request.final_output
                == payload.final_output
            &&& payload.event_type@ == "WorkflowExecutionFailed"@ ==> request.error_reason
                == payload.error && payload.error is Some
            &&& payload.event_type@ != "WorkflowExecutionFailed"@ ==> request.error_reason is None
            &&& payload.event_type@ == "WorkflowExecutionCompleted"@ ==> lists_artifacts(
                payload.artifacts,
                request.artifacts,
            )
            &&& payload.event_type@ != "WorkflowExecutionCompleted"@ ==> request.artifacts is None
        },
{
    lemma_types_differ();
    mapped_event_belongs_to_execution(payload, event);
    event_variant_follows_type(payload, event);
    assert(text::texts(payload.artifacts->0@).len() == payload.artifacts->0@.len());
    assert forall|i: int| 0 <= i < payload.artifacts->0@.len() implies text::texts(
        payload.artifacts->0@,
    )[i] == (#[trigger] payload.artifacts->0@[i])@ by {}
}

/// Once a payload is in the log, its refinement or event is published as it was
/// mapped, and an end goes on to its tenant; where it is not, the failure says
/// why.
pub proof fn outcome_of_the_log_decides(
    next: AfterAppend,
    outcome: AppendOutcome,
    step: ListenerStep,
)
    requires
        next.leads_to(outcome, step),
    ensures
        outcome matches AppendOutcome::NotStored(reason) ==> step matches ListenerStep::Fail(f)
            && f@ == seq!["Failed to persist execution event"@, reason@],
        outcome matches AppendOutcome::NotSerialized(reason) ==> step matches ListenerStep::Fail(f)
            && f@.last() == reason@ && (next is Workflow ==> f@.len() == 1) && (next is Refinement
            ==> f@.len() == 2 && f@[0]
            == "Failed to serialize TemporalEventPayload for persistence"@),
        outcome is Stored ==> match next {
            AfterAppend::Refinement { event, reply } => step
                matches ListenerStep::PublishExecution { event: e, reply: said } && e == event
                && said == reply,
            AfterAppend::Workflow { execution_id, event, completion } => {
                &&& completion is None ==> (step matches ListenerStep::PublishWorkflow {
                    event: e,
                    reply,
                } && e == event && reply@ == shared_kernel::uuid_text(execution_id.0.bits))
                &&& completion is Some ==> (step matches ListenerStep::ResolveTenant {
                    execution_id: id,
                    request,
                } && id == execution_id && Some(request) == completion)
            },
        },
{
}

/// An end is recorded exactly where the tenant was found, under that tenant and
/// with the request as it was; nothing else is done.
pub proof fn ends_are_recorded_under_the_tenant_found(
    execution_id: ExecutionId,
    request: CompleteWorkflowExecutionRequest,
    found: Result<Option<TenantId>, String>,
    step: ListenerStep,
)
    requires
        tenant_leads_to(execution_id, request, found, step),
    ensures
        step is Complete <==> found is Ok && found->Ok_0 is Some,
        step is Fail <==> found is Err || found->Ok_0 is None,
        step matches ListenerStep::Complete { tenant_id, request: recorded, reply } ==> {
            &&& found == Ok::<Option<TenantId>, String>(Some(tenant_id))
            &&& recorded == request
            &&& reply@ == shared_kernel::uuid_text(execution_id.0.bits)
        },
        step matches ListenerStep::Fail(failure) ==> match found {
            Err(reason) => failure@ == seq![
                "Failed to resolve workflow execution tenant"@,
                reason@,
            ],
            Ok(_) => failure@ == seq![
                "Workflow execution not found: "@ + shared_kernel::uuid_text(execution_id.0.bits),
            ],
        },
{
}

/// An event that is made of a kind is of that kind, whatever the payload's type
/// says.
pub proof fn events_are_of_their_kind(
    payload: TemporalEventPayload,
    kind: EventKind,
    execution: ExecutionId,
    time: Timestamp,
    event: WorkflowEvent,
)
    requires
        payload.maps_to_kind(kind, execution, time, event),
    ensures
        event is WorkflowExecutionStarted <==> kind is ExecutionStarted,
        event is WorkflowStateEntered <==> kind is StateEntered,
        event is WorkflowStateExited <==> kind is StateExited,
        event is WorkflowIterationStarted <==> kind is IterationStarted,
        event is WorkflowIterationCompleted <==> kind is IterationCompleted,
        event is WorkflowIterationFailed <==> kind is IterationFailed,
        event is WorkflowExecutionCompleted <==> kind is ExecutionCompleted,
        event is WorkflowExecutionFailed <==> kind is ExecutionFailed,
        event is WorkflowExecutionCancelled <==> kind is ExecutionCancelled,
        event is SubworkflowTriggered <==> kind is SubworkflowTriggered,
        event is SubworkflowCompleted <==> kind is SubworkflowCompleted,
        event is SubworkflowFailed <==> kind is SubworkflowFailed,
        event is IntentExecutionPipelineStarted <==> kind is PipelineStarted,
        event is IntentExecutionPipelineCompleted <==> kind is PipelineCompleted,
        event is IntentExecutionPipelineFailed <==> kind is PipelineFailed,
        event.scope() == Some(execution),
{
}

} // verus!

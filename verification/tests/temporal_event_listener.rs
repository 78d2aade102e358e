use aegis_orchestrator_core::domain::events::{
    ContainerRunEvent, ContainerRunFailureReason, ExecutionEvent, SimilarityScore, WorkflowEvent,
};
use aegis_orchestrator_core::domain::execution::ExecutionStatus;
use aegis_orchestrator_core::domain::shared_kernel::{ExecutionId, TenantId, Uuid, WorkflowId};
use aegis_orchestrator_core::domain::workflow::{
    Blackboard, ExecutionLanguage, StateName, WorkflowExecution,
};
use aegis_orchestrator_core::infrastructure::repositories::InMemoryWorkflowExecutionRepository;
use aegis_orchestrator_core::infrastructure::temporal_event_listener::{
    AfterAppend, AppendOutcome, CompleteWorkflowExecutionRequest, CompletionStatus, EventKind,
    LanguageTag, ListenerStep, TemporalEventListener, TemporalEventMapper, TemporalEventPayload,
};
use aegis_orchestrator_core::support::clock::Timestamp;
use aegis_orchestrator_core::support::text_map::TextMap;
use serde_json::Value;

const EXECUTION: &str = "550e8400-e29b-41d4-a716-446655440000";
const WORKFLOW: &str = "123e4567-e89b-12d3-a456-426614174000";

fn json(text: &str) -> Value {
    serde_json::from_str(text).unwrap()
}

fn payload(event_type: &str, sequence: i64) -> TemporalEventPayload {
    TemporalEventPayload {
        event_type: event_type.to_string(),
        execution_id: EXECUTION.to_string(),
        temporal_sequence_number: sequence,
        timestamp: "2026-02-19T12:00:00Z".to_string(),
        ..Default::default()
    }
}

fn append(step: ListenerStep) -> AfterAppend {
    match step {
        ListenerStep::Append { next, .. } => next,
        other => panic!("not appended: {other:?}"),
    }
}

fn failure(step: ListenerStep) -> Vec<String> {
    match step {
        ListenerStep::Fail(failure) => failure.messages,
        other => panic!("did not fail: {other:?}"),
    }
}

#[test]
fn test_map_workflow_execution_started() {
    let payload = TemporalEventPayload {
        event_type: "WorkflowExecutionStarted".to_string(),
        execution_id: "550e8400-e29b-41d4-a716-446655440000".to_string(),
        temporal_sequence_number: 1,
        workflow_id: Some("123e4567-e89b-12d3-a456-426614174000".to_string()),
        timestamp: "2026-02-19T12:00:00Z".to_string(),
        ..Default::default()
    };

    let event = TemporalEventMapper::to_domain_event(&payload).unwrap();
    assert!(
        matches!(event, WorkflowEvent::WorkflowExecutionStarted { .. }),
        "Expected WorkflowExecutionStarted, got {event:?}"
    );
    let WorkflowEvent::WorkflowExecutionStarted { execution_id, .. } = event else {
        return;
    };
    assert_eq!(
        execution_id.0.to_string(),
        "550e8400-e29b-41d4-a716-446655440000"
    );
}

#[test]
fn test_map_invalid_execution_id() {
    let payload = TemporalEventPayload {
        event_type: "WorkflowExecutionStarted".to_string(),
        execution_id: "not-a-uuid".to_string(),
        temporal_sequence_number: 2,
        timestamp: "2026-02-19T12:00:00Z".to_string(),
        ..Default::default()
    };

    let result = TemporalEventMapper::to_domain_event(&payload);
    assert!(result.is_err());
}

#[test]
fn test_map_unknown_event_type() {
    let payload = TemporalEventPayload {
        event_type: "UnknownEvent".to_string(),
        execution_id: "550e8400-e29b-41d4-a716-446655440000".to_string(),
        temporal_sequence_number: 3,
        timestamp: "2026-02-19T12:00:00Z".to_string(),
        ..Default::default()
    };

    let result = TemporalEventMapper::to_domain_event(&payload);
    assert!(result.is_err());
}

#[test]
fn test_map_state_entered_requires_state_name() {
    let payload = TemporalEventPayload {
        event_type: "WorkflowStateEntered".to_string(),
        execution_id: "550e8400-e29b-41d4-a716-446655440000".to_string(),
        temporal_sequence_number: 10,
        timestamp: "2026-02-19T12:00:00Z".to_string(),
        ..Default::default()
    };

    let err = TemporalEventMapper::to_domain_event(&payload).unwrap_err();
    assert!(err.to_string().contains("state_name required"));
}

#[test]
fn test_map_state_exited_requires_output() {
    let payload = TemporalEventPayload {
        event_type: "WorkflowStateExited".to_string(),
        execution_id: "550e8400-e29b-41d4-a716-446655440000".to_string(),
        temporal_sequence_number: 11,
        state_name: Some("BUILD".to_string()),
        timestamp: "2026-02-19T12:00:00Z".to_string(),
        ..Default::default()
    };

    let err = TemporalEventMapper::to_domain_event(&payload).unwrap_err();
    assert!(err.to_string().contains("output required"));
}

#[test]
fn test_map_intent_execution_pipeline_completed_carries_tenant_id() {
    let pipeline_exec_id = "550e8400-e29b-41d4-a716-446655440001";
    let workflow_exec_id = "550e8400-e29b-41d4-a716-446655440002";

    let payload = TemporalEventPayload {
        event_type: "IntentExecutionPipelineCompleted".to_string(),
        execution_id: pipeline_exec_id.to_string(),
        temporal_sequence_number: 42,
        timestamp: "2026-04-06T10:00:00Z".to_string(),
        workflow_execution_id: Some(workflow_exec_id.to_string()),
        tenant_id: Some("acme-corp".to_string()),
        final_result: Some("print('hello')".to_string()),
        duration_ms: Some(1234),
        reused_existing_agent: Some(true),
        agent_similarity_score: Some(SimilarityScore { bits: 0.95f32.to_bits() }),
        ..Default::default()
    };

    let event = TemporalEventMapper::to_domain_event(&payload).unwrap();
    let WorkflowEvent::IntentExecutionPipelineCompleted {
        pipeline_execution_id,
        workflow_execution_id,
        tenant_id,
        final_result,
        duration_ms,
        reused_existing_agent,
        agent_similarity_score,
        ..
    } = event
    else {
        panic!("Expected IntentExecutionPipelineCompleted, got a different variant");
    };

    assert_eq!(pipeline_execution_id.0.to_string(), pipeline_exec_id);
    assert_eq!(workflow_execution_id.0.to_string(), workflow_exec_id);
    assert_eq!(tenant_id.as_str(), "acme-corp");
    assert!(
        !tenant_id.as_str().is_empty(),
        "tenant_id must not be empty"
    );
    assert_eq!(final_result, "print('hello')");
    assert_eq!(duration_ms, 1234);
    assert!(reused_existing_agent);
    assert_eq!(
        agent_similarity_score.map(|score| f32::from_bits(score.bits)),
        Some(0.95)
    );
}

#[test]
fn test_map_intent_execution_pipeline_completed_requires_tenant_id() {
    let payload = TemporalEventPayload {
        event_type: "IntentExecutionPipelineCompleted".to_string(),
        execution_id: "550e8400-e29b-41d4-a716-446655440001".to_string(),
        temporal_sequence_number: 43,
        timestamp: "2026-04-06T10:00:00Z".to_string(),
        workflow_execution_id: Some("550e8400-e29b-41d4-a716-446655440002".to_string()),
        tenant_id: None,
        ..Default::default()
    };

    let err = TemporalEventMapper::to_domain_event(&payload).unwrap_err();
    assert!(
        err.to_string().contains("tenant_id"),
        "Error should mention missing tenant_id, got: {}",
        err.to_string()
    );
}

#[test]
fn event_times_are_read() {
    let event = TemporalEventMapper::to_domain_event(&payload("WorkflowExecutionCancelled", 1));
    let WorkflowEvent::WorkflowExecutionCancelled { execution_id, cancelled_at } = event.unwrap()
    else {
        panic!("Expected WorkflowExecutionCancelled");
    };
    assert_eq!(execution_id.0.to_string(), EXECUTION);
    assert_eq!(cancelled_at, Timestamp { seconds: 1_771_502_400, nanos: 0 });
    let mut bad = payload("WorkflowExecutionCancelled", 1);
    bad.timestamp = "yesterday".to_string();
    assert!(TemporalEventMapper::to_domain_event(&bad).is_err());
}

#[test]
fn test_handle_event_persists_and_publishes_workflow_event() {
    let mut started = payload("WorkflowExecutionStarted", 99);
    started.workflow_id = Some(WORKFLOW.to_string());
    let step = TemporalEventListener::handle_event(&started);
    match &step {
        ListenerStep::Append {
            execution_id, sequence_number, event_type, iteration_number, ..
        } => {
            assert_eq!(execution_id.0.to_string(), EXECUTION);
            assert_eq!(*sequence_number, 99);
            assert_eq!(event_type, "WorkflowExecutionStarted");
            assert!(iteration_number.is_none());
        }
        other => panic!("not appended: {other:?}"),
    }
    match TemporalEventListener::appended(append(step), AppendOutcome::Stored) {
        ListenerStep::PublishWorkflow {
            event: WorkflowEvent::WorkflowExecutionStarted { execution_id, workflow_id, .. },
            reply,
        } => {
            assert_eq!(reply, EXECUTION);
            assert_eq!(execution_id.0.to_string(), reply);
            assert_eq!(workflow_id.0.to_string(), WORKFLOW);
        }
        other => panic!("expected workflow event, got {other:?}"),
    }
}

#[test]
fn test_handle_event_refinement_applied_publishes_execution_event() {
    let mut refined = payload("RefinementApplied", 5);
    refined.iteration_number = Some(2);
    refined.agent_id = Some(WORKFLOW.to_string());
    refined.code_diff = Some(Value::from("updated prompt"));
    let next = append(TemporalEventListener::handle_event(&refined));
    match TemporalEventListener::appended(next, AppendOutcome::Stored) {
        ListenerStep::PublishExecution {
            event:
                ExecutionEvent::RefinementApplied {
                    execution_id, agent_id, iteration_number, code_diff, ..
                },
            reply,
        } => {
            assert_eq!(reply, EXECUTION);
            assert_eq!(execution_id.0.to_string(), reply);
            assert_eq!(agent_id.0.to_string(), WORKFLOW);
            assert_eq!(iteration_number, 2);
            assert_eq!(code_diff.file_path, "validation_feedback");
            assert_eq!(code_diff.diff, "updated prompt");
        }
        other => panic!("expected execution refinement event, got {other:?}"),
    }
}

#[test]
fn refinements_must_be_complete() {
    let mut refined = payload("RefinementApplied", 5);
    assert_eq!(
        failure(TemporalEventListener::handle_event(&refined)),
        vec!["RefinementApplied event requires agent_id"]
    );
    refined.agent_id = Some(WORKFLOW.to_string());
    assert_eq!(
        failure(TemporalEventListener::handle_event(&refined)),
        vec!["Missing iteration_number for RefinementApplied event"]
    );
    refined.iteration_number = Some(2);
    assert_eq!(
        failure(TemporalEventListener::handle_event(&refined)),
        vec!["Missing code_diff for RefinementApplied event"]
    );
    refined.code_diff = Some(json(r#"{"a":1}"#));
    assert_eq!(
        failure(TemporalEventListener::handle_event(&refined)),
        vec![
            r#"Invalid code_diff format for RefinementApplied event: expected string, got {"a":1}"#
        ]
    );
    refined.code_diff = Some(Value::from("x"));
    refined.timestamp = "never".to_string();
    assert_eq!(
        failure(TemporalEventListener::handle_event(&refined))[0],
        "Failed to parse timestamp as RFC3339 for RefinementApplied event"
    );
    refined.agent_id = Some("nobody".to_string());
    assert_eq!(
        failure(TemporalEventListener::handle_event(&refined))[0],
        "Failed to parse agent_id as UUID for RefinementApplied event"
    );
}

#[test]
fn test_handle_event_does_not_publish_when_append_fails() {
    let mut started = payload("WorkflowExecutionStarted", 12);
    started.workflow_id = Some(WORKFLOW.to_string());
    let next = append(TemporalEventListener::handle_event(&started));
    let step = TemporalEventListener::appended(
        next,
        AppendOutcome::NotStored("Database error: append failed".to_string()),
    );
    assert_eq!(
        failure(step),
        vec!["Failed to persist execution event", "Database error: append failed"]
    );
    let next = append(TemporalEventListener::handle_event(&started));
    let step =
        TemporalEventListener::appended(next, AppendOutcome::NotSerialized("bad".to_string()));
    assert_eq!(failure(step), vec!["bad"]);
}

fn completed() -> TemporalEventPayload {
    let mut completed = payload("WorkflowExecutionCompleted", 100);
    completed.workflow_id = Some(WORKFLOW.to_string());
    completed.final_blackboard = Some(json(r#"{"result": "done"}"#));
    completed.artifacts = Some(vec!["report.md".to_string()]);
    completed
}

fn resolve(payload: &TemporalEventPayload) -> CompleteWorkflowExecutionRequest {
    let next = append(TemporalEventListener::handle_event(payload));
    match TemporalEventListener::appended(next, AppendOutcome::Stored) {
        ListenerStep::ResolveTenant { execution_id, request } => {
            assert_eq!(execution_id.0.to_string(), EXECUTION);
            request
        }
        other => panic!("tenant not looked up: {other:?}"),
    }
}

#[test]
fn test_handle_terminal_event_updates_persisted_status_for_non_local_tenant() {
    let tenant_id = TenantId::from_string("tenant-blue").unwrap();
    let execution_id = ExecutionId(Uuid::parse_str(EXECUTION).unwrap());
    let started = Timestamp { seconds: 1_771_502_400, nanos: 0 };
    let execution = WorkflowExecution {
        id: execution_id,
        workflow_id: WorkflowId(Uuid::parse_str(WORKFLOW).unwrap()),
        tenant_id: tenant_id.clone(),
        status: ExecutionStatus::Running,
        current_state: StateName::new("START").unwrap(),
        blackboard: Blackboard::new(),
        input: json(r#"{"task": "ship"}"#),
        state_outputs: TextMap::new(),
        final_output: None,
        started_at: started,
        last_transition_at: started,
    };
    let mut repo = InMemoryWorkflowExecutionRepository::new();
    repo.save_for_tenant(&tenant_id, &execution).unwrap();

    // The end is recorded under the tenant that the execution is kept under.
    let request = resolve(&completed());
    let found = repo.find_tenant_id_by_execution(execution_id).unwrap();
    match TemporalEventListener::tenant_resolved(execution_id, request, Ok(found)) {
        ListenerStep::Complete { tenant_id: recorded, request, reply } => {
            assert_eq!(recorded, tenant_id);
            assert_eq!(reply, EXECUTION);
            assert_eq!(request.execution_id, EXECUTION);
            assert_eq!(request.status, CompletionStatus::Success);
            assert_eq!(
                request.final_blackboard.as_ref().and_then(|b| b.get("result")),
                Some(&Value::from("done"))
            );
            assert_eq!(request.artifacts, Some(json(r#"["report.md"]"#)));
            assert!(request.error_reason.is_none());
        }
        other => panic!("end not recorded: {other:?}"),
    }

    // The execution is not visible to another tenant.
    let other_tenant = TenantId::from_string("tenant-red").unwrap();
    assert!(
        repo.find_by_id_for_tenant(&other_tenant, execution_id).unwrap().is_none(),
        "cross-tenant lookup should return None for an execution owned by a different tenant"
    );

    match TemporalEventMapper::to_domain_event(&completed()).unwrap() {
        WorkflowEvent::WorkflowExecutionCompleted {
            execution_id: published_id,
            final_blackboard,
            artifacts,
            ..
        } => {
            assert_eq!(published_id, execution_id);
            assert_eq!(final_blackboard.get("result"), Some(&Value::from("done")));
            assert_eq!(artifacts, Some(json(r#"["report.md"]"#)));
        }
        other => panic!("expected workflow completion event, got {other:?}"),
    }
}

fn started_pipeline(language: Option<LanguageTag>) -> ExecutionLanguage {
    let mut started = payload("IntentExecutionPipelineStarted", 4);
    started.workflow_execution_id = Some(WORKFLOW.to_string());
    started.intent = Some("count words".to_string());
    started.workspace_volume_id = Some(WORKFLOW.to_string());
    started.language = language;
    match TemporalEventMapper::to_domain_event(&started).unwrap() {
        WorkflowEvent::IntentExecutionPipelineStarted { language, intent, .. } => {
            assert_eq!(intent, "count words");
            language
        }
        other => panic!("expected a started pipeline, got {other:?}"),
    }
}

#[test]
fn unknown_languages_give_way_to_the_default() {
    let tag = |text: &str, known: bool| Some(LanguageTag { text: text.to_string(), known });
    assert_eq!(started_pipeline(None), ExecutionLanguage::Preset);
    assert_eq!(started_pipeline(tag("klingon", false)), ExecutionLanguage::Preset);
    assert_eq!(
        started_pipeline(tag("python", true)),
        ExecutionLanguage::Tagged("python".to_string())
    );
}

#[test]
fn events_are_of_the_execution_and_time_that_were_read() {
    let id = ExecutionId(Uuid { bits: 9 });
    let time = Timestamp { seconds: 8, nanos: 7 };
    let mut entered = payload("WorkflowStateEntered", 1);
    let event =
        TemporalEventMapper::event_of_kind(&entered, EventKind::StateEntered, id, time);
    assert_eq!(
        event.unwrap_err().messages,
        vec!["state_name required for WorkflowStateEntered event"]
    );
    entered.state_name = Some("BUILD".to_string());
    match TemporalEventMapper::event_of_kind(&entered, EventKind::StateEntered, id, time).unwrap()
    {
        WorkflowEvent::WorkflowStateEntered { execution_id, state_name, entered_at } => {
            assert_eq!((execution_id, entered_at), (id, time));
            assert_eq!(state_name, "BUILD");
        }
        other => panic!("expected an entered state, got {other:?}"),
    }
}

#[test]
fn ends_without_a_tenant_fail() {
    let next = append(TemporalEventListener::handle_event(&completed()));
    let AfterAppend::Workflow { execution_id, .. } = next else {
        panic!("not a workflow event");
    };
    let step = TemporalEventListener::tenant_resolved(execution_id, resolve(&completed()), Ok(None));
    assert_eq!(failure(step), vec![format!("Workflow execution not found: {EXECUTION}")]);
    let step = TemporalEventListener::tenant_resolved(
        execution_id,
        resolve(&completed()),
        Err("down".to_string()),
    );
    assert_eq!(failure(step), vec!["Failed to resolve workflow execution tenant", "down"]);
}

#[test]
fn failed_and_cancelled_executions_are_recorded_as_such() {
    let mut failed = payload("WorkflowExecutionFailed", 7);
    failed.error = Some("out of memory".to_string());
    failed.state_name = Some("BUILD".to_string());
    let request = resolve(&failed);
    assert_eq!(request.status, CompletionStatus::Failed);
    assert_eq!(request.error_reason.as_deref(), Some("out of memory"));
    assert_eq!(request.final_state.as_deref(), Some("BUILD"));
    let request = resolve(&payload("WorkflowExecutionCancelled", 8));
    assert_eq!(request.status, CompletionStatus::Cancelled);
    assert!(request.final_output.is_none() && request.artifacts.is_none());
}

#[test]
fn container_steps_are_published_at_once() {
    let mut started = payload("ContainerRunStarted", 1);
    started.image = Some("alpine".to_string());
    match TemporalEventListener::handle_event(&started) {
        ListenerStep::PublishContainerRun {
            event: ContainerRunEvent::ContainerRunStarted { image, command, .. },
            reply,
        } => {
            assert_eq!(image, "alpine");
            assert!(command.is_empty());
            assert_eq!(reply, EXECUTION);
        }
        other => panic!("not published: {other:?}"),
    }
    let mut completed = payload("ContainerRunCompleted", 2);
    completed.duration_ms = Some(12);
    match TemporalEventListener::handle_event(&completed) {
        ListenerStep::PublishContainerRun {
            event:
                ContainerRunEvent::ContainerRunCompleted { exit_code, duration_ms, stdout_bytes, .. },
            ..
        } => {
            assert_eq!((exit_code, duration_ms, stdout_bytes), (0, 12, 0));
        }
        other => panic!("not published: {other:?}"),
    }
    let mut failed = payload("ContainerRunFailed", 3);
    failed.stderr = Some("killed".to_string());
    match TemporalEventListener::handle_event(&failed) {
        ListenerStep::PublishContainerRun {
            event: ContainerRunEvent::ContainerRunFailed { reason, .. },
            ..
        } => {
            assert!(matches!(
                reason,
                ContainerRunFailureReason::ResourceExhausted { detail } if detail == "killed"
            ));
        }
        other => panic!("not published: {other:?}"),
    }
    failed.exit_code = Some(137);
    match TemporalEventListener::handle_event(&failed) {
        ListenerStep::PublishContainerRun {
            event: ContainerRunEvent::ContainerRunFailed { reason, .. },
            ..
        } => {
            assert!(matches!(reason, ContainerRunFailureReason::NonZeroExitCode { code: 137 }));
        }
        other => panic!("not published: {other:?}"),
    }
    failed.execution_id = "x".to_string();
    assert_eq!(
        failure(TemporalEventListener::handle_event(&failed))[0],
        "Invalid execution_id for ContainerRun event"
    );
}

#[test]
fn unknown_events_fail_to_map() {
    assert_eq!(
        failure(TemporalEventListener::handle_event(&payload("UnknownEvent", 3)))[0],
        "Failed to map Temporal event to domain event"
    );
}

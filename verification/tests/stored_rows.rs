use aegis_orchestrator_core::domain::execution::{
    ExecutionInput, ExecutionStatus, Iteration,
};
use aegis_orchestrator_core::domain::repository::RepositoryError;
use aegis_orchestrator_core::domain::shared_kernel::{ExecutionId, TenantId, Uuid, WorkflowId};
use aegis_orchestrator_core::infrastructure::repositories::postgres_execution as executions;
use aegis_orchestrator_core::infrastructure::repositories::postgres_execution::{
    ExecutionColumns, ReadAs,
};
use aegis_orchestrator_core::infrastructure::repositories::postgres_workflow_execution as workflow_executions;
use aegis_orchestrator_core::infrastructure::repositories::postgres_workflow_execution::{
    AppendStep, EventColumns, WorkflowExecutionColumns,
};
use aegis_orchestrator_core::support::clock::Timestamp;
use serde_json::Value;

const AT: Timestamp = Timestamp { seconds: 1_700_000_000, nanos: 5 };

fn tenant(slug: &str) -> TenantId {
    TenantId::new(slug.to_string()).unwrap()
}

fn json(text: &str) -> Value {
    serde_json::from_str(text).unwrap()
}

fn row() -> ExecutionColumns {
    ExecutionColumns {
        id: Uuid { bits: 1 },
        tenant_id: "acme".to_string(),
        agent_id: Uuid { bits: 2 },
        status: "completed".to_string(),
        input: Ok(ExecutionInput { document: Value::from("in") }),
        iterations: Ok(vec![
            Iteration { output: None, record: Value::Null },
            Iteration { output: Some("out".to_string()), record: Value::from(1) },
        ]),
        max_iterations: 255,
        container_uid: 1000,
        container_gid: 0,
        started_at: AT,
        completed_at: Some(AT),
        error_message: Some("late".to_string()),
        parent_execution_id: None,
        security_context_name: "ctx".to_string(),
        initiating_user_sub: Some("user".to_string()),
    }
}

fn message<T>(r: Result<T, RepositoryError>) -> String {
    match r {
        Ok(_) => panic!("accepted"),
        Err(RepositoryError::Serialization(m)) => m,
        Err(e) => panic!("{e:?}"),
    }
}

#[test]
fn execution_rows_are_read() {
    let execution = executions::decode(&row(), &tenant("t"), ReadAs::Single).unwrap();
    assert_eq!(execution.id, ExecutionId(Uuid { bits: 1 }));
    assert_eq!(execution.tenant_id.as_str(), "t");
    assert_eq!(execution.status, ExecutionStatus::Completed);
    assert_eq!(execution.iterations.len(), 2);
    assert_eq!(execution.max_iterations, 255);
    assert_eq!((execution.container_uid, execution.container_gid), (1000, 0));
    assert_eq!(execution.ended_at, Some(AT));
    assert_eq!(execution.error.as_deref(), Some("late"));
    assert_eq!(execution.hierarchy.depth, 0);
    assert_eq!(execution.hierarchy.path, vec![execution.id]);
    let unscoped = executions::find_by_id_unscoped(&Some(row())).unwrap().unwrap();
    assert_eq!(unscoped.tenant_id.as_str(), "acme");
    assert!(executions::find_by_id_unscoped(&None).unwrap().is_none());
    assert!(executions::find_by_id_for_tenant(&None, &tenant("t")).unwrap().is_none());
}

#[test]
fn children_keep_their_parent_alone() {
    let mut child = row();
    child.parent_execution_id = Some(Uuid { bits: 77 });
    let execution = executions::decode(&child, &tenant("t"), ReadAs::Single).unwrap();
    assert_eq!(
        execution.hierarchy.parent_execution_id,
        Some(ExecutionId(Uuid { bits: 77 }))
    );
    assert_eq!(execution.hierarchy.depth, 1);
    assert_eq!(execution.hierarchy.path, vec![execution.id]);
    assert!(execution.hierarchy.swarm_id.is_none());
}

#[test]
fn faulty_execution_rows_are_refused() {
    let t = tenant("t");
    let mut bad = row();
    bad.container_gid = -2;
    assert_eq!(
        message(executions::decode(&bad, &t, ReadAs::Single)),
        "Invalid container_gid value (expected non-negative i32): -2"
    );
    bad.container_uid = -1;
    assert_eq!(
        message(executions::decode(&bad, &t, ReadAs::Single)),
        "Invalid container_uid value (expected non-negative i32): -1"
    );
    bad.max_iterations = 256;
    assert_eq!(
        message(executions::decode(&bad, &t, ReadAs::Single)),
        "Invalid max_iterations value 256: expected 0-255"
    );
    bad.iterations = Err("no list".to_string());
    assert_eq!(
        message(executions::decode(&bad, &t, ReadAs::Single)),
        "Failed to deserialize iterations: no list"
    );
    bad.input = Err("no object".to_string());
    assert_eq!(
        message(executions::decode(&bad, &t, ReadAs::Single)),
        "Failed to deserialize input: no object"
    );
    assert_eq!(
        message(executions::decode(&bad, &t, ReadAs::Listed)),
        "Failed to deserialize execution input: no object"
    );
    bad.status = "lost".to_string();
    assert_eq!(
        message(executions::decode(&bad, &t, ReadAs::Single)),
        "Unknown execution status value from database: 'lost'"
    );
    bad.tenant_id = String::new();
    assert_eq!(
        message(executions::decode_unscoped(&bad, ReadAs::Single)),
        "Invalid tenant_id in database: tenant id must not be empty"
    );
}

#[test]
fn the_first_faulty_row_spoils_a_listing() {
    let mut a = row();
    a.status = "first".to_string();
    let mut b = row();
    b.status = "second".to_string();
    let rows = vec![row(), a, b];
    assert_eq!(
        message(executions::decode_rows(&rows, &tenant("t"))),
        "Unknown execution status value from database: 'first'"
    );
    let mut c = row();
    c.tenant_id = String::new();
    assert!(message(executions::decode_rows_unscoped(&vec![row(), c])).starts_with("Invalid tenant"));
    let listed = executions::decode_rows_unscoped(&vec![row(), row()]).unwrap();
    assert_eq!(listed.len(), 2);
    assert_eq!(executions::decode_rows(&vec![row()], &tenant("t")).unwrap().len(), 1);
}

#[test]
fn saved_executions_are_read_back() {
    let owner = tenant("owner");
    let execution = executions::decode(&row(), &owner, ReadAs::Single).unwrap();
    let saved = executions::encode(&owner, &execution);
    assert_eq!(saved.current_iteration, 2);
    assert_eq!(saved.final_output.as_deref(), Some("out"));
    assert_eq!(saved.columns.status, "completed");
    assert_eq!(saved.columns.tenant_id, "owner");
    let again = executions::decode_unscoped(&saved.columns, ReadAs::Single).unwrap();
    assert_eq!(again, execution);
}

#[test]
fn large_users_are_refused_when_read() {
    let owner = tenant("owner");
    let mut execution = executions::decode(&row(), &owner, ReadAs::Single).unwrap();
    execution.container_uid = 0x8000_0000;
    let saved = executions::encode(&owner, &execution);
    assert_eq!(saved.columns.container_uid, i32::MIN);
    assert_eq!(
        message(executions::decode(&saved.columns, &owner, ReadAs::Single)),
        "Invalid container_uid value (expected non-negative i32): -2147483648"
    );
    execution.iterations.clear();
    assert!(executions::encode(&owner, &execution).final_output.is_none());
}

#[test]
fn execution_status_survives_storage() {
    for status in [
        ExecutionStatus::Pending,
        ExecutionStatus::Running,
        ExecutionStatus::Completed,
        ExecutionStatus::Failed,
        ExecutionStatus::Cancelled,
    ] {
        assert_eq!(executions::parse_status(executions::status_to_str(status)), Some(status));
    }
    assert_eq!(executions::parse_status("PENDING"), None);
}

#[test]
fn execution_counts_and_errors() {
    assert_eq!(executions::running_count(-3), 0);
    assert_eq!(executions::running_count(12), 12);
    assert_eq!(
        executions::save_refused("disk full"),
        RepositoryError::Database("Failed to save execution: disk full".to_string())
    );
}

fn workflow_row() -> WorkflowExecutionColumns {
    WorkflowExecutionColumns {
        id: Uuid { bits: 1 },
        tenant_id: "acme".to_string(),
        workflow_id: Uuid { bits: 2 },
        input_params: json(r#"{"task": "ship"}"#),
        status: "failed".to_string(),
        current_state: "BUILD".to_string(),
        blackboard: json(r#"{"a": 1}"#),
        state_outputs: json(r#"{"START": "ok", "": "nameless"}"#),
        final_output: Some(Value::from("end")),
        started_at: AT,
        last_transition_at: AT,
    }
}

#[test]
fn workflow_execution_rows_are_read_leniently() {
    let t = tenant("t");
    let execution = workflow_executions::decode(&workflow_row(), &t);
    assert_eq!(execution.workflow_id, WorkflowId(Uuid { bits: 2 }));
    assert_eq!(execution.status, ExecutionStatus::Failed);
    assert_eq!(execution.current_state.as_str(), "BUILD");
    assert_eq!(execution.blackboard.get("a"), Some(&Value::from(1)));
    assert_eq!(execution.state_outputs.get("START").unwrap().value, Value::from("ok"));
    assert!(execution.state_outputs.get("").is_none());
    let mut odd = workflow_row();
    odd.status = "lost".to_string();
    odd.current_state = String::new();
    odd.blackboard = Value::from(3);
    odd.state_outputs = Value::Null;
    let execution = match workflow_executions::find_by_id_for_tenant(&Some(odd), &t) {
        Some(execution) => execution,
        None => panic!("not found"),
    };
    assert_eq!(execution.status, ExecutionStatus::Pending);
    assert_eq!(execution.current_state.as_str(), "start");
    assert!(execution.blackboard.get("a").is_none());
    assert!(execution.state_outputs.keys().is_empty());
    assert!(workflow_executions::find_by_id_for_tenant(&None, &t).is_none());
}

#[test]
fn workflow_listings_are_read() {
    let t = tenant("t");
    let rows = vec![workflow_row(), workflow_row()];
    assert_eq!(workflow_executions::decode_rows(&rows, &t).len(), 2);
    let active = workflow_executions::find_active_for_tenant(&rows, &t);
    assert_eq!(active[1].status, ExecutionStatus::Running);
    let all = match workflow_executions::list_paginated_all(&rows) {
        Ok(all) => all,
        Err(e) => panic!("{e:?}"),
    };
    assert_eq!(all[0].tenant_id.as_str(), "acme");
    let mut nameless = workflow_row();
    nameless.tenant_id = String::new();
    assert_eq!(
        message(workflow_executions::list_paginated_all(&vec![workflow_row(), nameless])),
        "Invalid tenant_id in database: tenant id must not be empty"
    );
}

#[test]
fn saved_workflow_executions_are_read_back() {
    let t = tenant("t");
    let execution = workflow_executions::decode(&workflow_row(), &t);
    let saved = workflow_executions::encode(&t, &execution);
    assert_eq!(saved.temporal_workflow_id, "00000000-0000-0000-0000-000000000001");
    assert_eq!(saved.temporal_run_id, "");
    assert_eq!(saved.state_history, json(r#"["BUILD"]"#));
    assert_eq!(saved.columns.blackboard, json(r#"{"a": 1}"#));
    assert_eq!(saved.columns.state_outputs, json(r#"{"START": "ok"}"#));
    let again = workflow_executions::decode(&saved.columns, &t);
    assert_eq!(again.id, execution.id);
    assert_eq!(again.status, execution.status);
    assert_eq!(again.current_state, execution.current_state);
    assert_eq!(again.blackboard.get("a"), Some(&Value::from(1)));
    assert_eq!(again.final_output, execution.final_output);
}

#[test]
fn tenants_of_executions_are_read() {
    let found = workflow_executions::find_tenant_id_by_execution(&Some("acme".to_string()));
    assert_eq!(found, Ok(Some(tenant("acme"))));
    assert_eq!(workflow_executions::find_tenant_id_by_execution(&None), Ok(None));
    assert_eq!(
        workflow_executions::find_tenant_id_by_execution(&Some(String::new())),
        Err(RepositoryError::Database(
            "Invalid tenant_id '': tenant id must not be empty".to_string()
        ))
    );
}

#[test]
fn events_raise_the_iteration_count() {
    let event = workflow_executions::append_event(
        ExecutionId(Uuid { bits: 4 }),
        17,
        "WorkflowIterationStarted".to_string(),
        json(r#"{"n": 3}"#),
        Some(3),
    );
    assert_eq!((event.execution_id.bits, event.sequence_number), (4, 17));
    assert_eq!(event.event_type, "WorkflowIterationStarted");
    assert_eq!(event.event_payload, json(r#"{"n": 3}"#));
    assert_eq!(event.iteration_number, Some(3));
    assert_eq!(workflow_executions::iteration_column(Some(255)), Some(255));
    assert_eq!(workflow_executions::iteration_column(None), None);
    assert!(matches!(
        workflow_executions::event_written(Some(3), Ok(())),
        AppendStep::RaiseIterationCount(3)
    ));
    assert!(matches!(
        workflow_executions::event_written(None, Ok(())),
        AppendStep::Done(Ok(()))
    ));
    assert!(matches!(
        workflow_executions::event_written(Some(3), Err("x".to_string())),
        AppendStep::Done(Err(RepositoryError::Database(m)))
            if m == "Failed to append execution event: x"
    ));
    assert_eq!(workflow_executions::count_raised(Ok(())), Ok(()));
    assert_eq!(
        workflow_executions::count_raised(Err("x".to_string())),
        Err(RepositoryError::Database("Failed to update iteration_count: x".to_string()))
    );
}

#[test]
fn event_rows_are_read() {
    let rows = vec![EventColumns {
        sequence_number: 4,
        event_type: "WorkflowIterationStarted".to_string(),
        event_payload: json("{}"),
        iteration_number: Some(200),
        created_at: AT,
    }];
    let records = workflow_executions::read_events(&rows);
    assert_eq!(records.len(), 1);
    assert_eq!(records[0].sequence, 4);
    assert_eq!(records[0].iteration_number, Some(200));
    assert!(records[0].state_name.is_none());
    assert_eq!(records[0].recorded_at, AT);
}

#[test]
fn workflow_execution_errors() {
    assert_eq!(
        workflow_executions::save_refused("x"),
        RepositoryError::Database("Failed to save workflow execution: x".to_string())
    );
    assert_eq!(
        workflow_executions::linkage_refused(ExecutionId(Uuid::nil()), "x"),
        RepositoryError::Database(
            "Failed to update Temporal linkage for workflow execution \
             00000000-0000-0000-0000-000000000000: x"
                .to_string()
        )
    );
    assert_eq!(
        workflow_executions::events_refused("x"),
        RepositoryError::Database("Failed to query execution events: x".to_string())
    );
}

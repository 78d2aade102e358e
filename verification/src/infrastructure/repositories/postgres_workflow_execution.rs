//! Workflow executions as rows of the `workflow_executions` table, and their
//! events as rows of `execution_events`.

use vstd::prelude::*;
use crate::domain::execution::ExecutionStatus;
use crate::domain::repository::RepositoryError;
use crate::domain::shared_kernel;
use crate::domain::shared_kernel::{ExecutionId, TenantId, Uuid, WorkflowId};
use crate::domain::workflow;
use crate::domain::workflow::{
    read_state_outputs, Blackboard, StateName, WorkflowExecution, WorkflowExecutionEventRecord,
    WorkflowExecutionView,
};
use crate::infrastructure::repositories::postgres_execution;
use crate::infrastructure::repositories::postgres_execution::{parse_status, status_to_str};
use crate::support::clock::Timestamp;
use crate::support::json;
use crate::support::json::{array_of_texts, object_of};
use crate::support::text;

verus! {

/// The columns that a workflow execution is read from.
#[derive(Debug)]
pub struct WorkflowExecutionColumns {
    pub id: Uuid,
    pub tenant_id: String,
    pub workflow_id: Uuid,
    pub input_params: serde_json::Value,
    pub status: String,
    pub current_state: String,
    pub blackboard: serde_json::Value,
    pub state_outputs: serde_json::Value,
    pub final_output: Option<serde_json::Value>,
    pub started_at: Timestamp,
    pub last_transition_at: Timestamp,
}

/// What a save writes: the columns that are read back, the link to the
/// workflow engine, and what is added to the history of states.
#[derive(Debug)]
pub struct SavedWorkflowExecution {
    pub columns: WorkflowExecutionColumns,
    pub temporal_workflow_id: String,
    pub temporal_run_id: String,
    pub state_history: serde_json::Value,
}

/// The columns that an event is read from.
#[derive(Debug)]
pub struct EventColumns {
    pub sequence_number: i64,
    pub event_type: String,
    pub event_payload: serde_json::Value,
    pub iteration_number: Option<i16>,
    pub created_at: Timestamp,
}

/// The status that a row holds; what is not known counts as pending.
pub open spec fn lenient_status(name: Seq<char>) -> ExecutionStatus {
    match postgres_execution::status_named(name) {
        Some(status) => status,
        None => ExecutionStatus::Pending,
    }
}

/// The entries of a stored blackboard; what is no object holds none.
pub open spec fn stored_blackboard(v: serde_json::Value) -> Map<Seq<char>, serde_json::Value> {
    match json::json_members(v) {
        Some(members) => members,
        None => Map::empty(),
    }
}

/// The execution that a row stands for, in the given status.
pub open spec fn decoded(
    row: WorkflowExecutionColumns,
    tenant: Seq<char>,
    status: ExecutionStatus,
) -> WorkflowExecutionView {
    WorkflowExecutionView {
        id: ExecutionId(row.id),
        workflow_id: WorkflowId(row.workflow_id),
        tenant,
        status,
        current_state: if row.current_state@.len() > 0 {
            row.current_state@
        } else {
            "start"@
        },
        blackboard: stored_blackboard(row.blackboard),
        input: row.input_params,
        state_outputs: workflow::named_members(row.state_outputs),
        final_output: row.final_output,
        started_at: row.started_at,
        last_transition_at: row.last_transition_at,
    }
}

/// Whether `row` holds what a save of `e` under `tenant` writes.
pub open spec fn holds_execution(
    row: WorkflowExecutionColumns,
    e: WorkflowExecutionView,
    tenant: Seq<char>,
) -> bool {
    &&& row.id == e.id.0
    &&& row.tenant_id@ == tenant
    &&& row.workflow_id == e.workflow_id.0
    &&& row.input_params == e.input
    &&& row.status@ == postgres_execution::status_name(e.status)
    &&& row.current_state@ == e.current_state
    &&& json::json_members(row.blackboard) == Some(e.blackboard)
    &&& json::json_members(row.state_outputs) == Some(e.state_outputs)
    &&& row.final_output == e.final_output
    &&& row.started_at == e.started_at
    &&& row.last_transition_at == e.last_transition_at
}

/// A workflow execution is read back as it was saved. Its current state and
/// the states with an output have a name, as states do.
pub proof fn saved_execution_is_read_back(
    row: WorkflowExecutionColumns,
    e: WorkflowExecutionView,
    tenant: Seq<char>,
)
    requires
        holds_execution(row, e, tenant),
        e.current_state.len() > 0,
        !e.state_outputs.contains_key(Seq::empty()),
    ensures
        decoded(row, tenant, lenient_status(row.status@)) == (WorkflowExecutionView {
            tenant,
            ..e
        }),
{
    postgres_execution::status_survives_storage(e.status);
    assert(e.state_outputs.remove(Seq::empty()) =~= e.state_outputs);
}

fn read_blackboard(v: &serde_json::Value) -> (r: Blackboard)
    ensures
        r.data@ == stored_blackboard(*v),
{
    match Blackboard::from_json(v) {
        Some(blackboard) => blackboard,
        None => Blackboard::new(),
    }
}

fn decode_with(
    row: &WorkflowExecutionColumns,
    tenant_id: &TenantId,
    status: ExecutionStatus,
) -> (r: WorkflowExecution)
    ensures
        r@ == decoded(*row, tenant_id@, status),
{
    WorkflowExecution {
        id: ExecutionId(row.id),
        workflow_id: WorkflowId(row.workflow_id),
        tenant_id: tenant_id.copy(),
        status,
        current_state: StateName::or_start(row.current_state.as_str()),
        blackboard: read_blackboard(&row.blackboard),
        input: row.input_params.clone(),
        state_outputs: read_state_outputs(&row.state_outputs),
        final_output: row.final_output.clone(),
        started_at: row.started_at,
        last_transition_at: row.last_transition_at,
    }
}

/// The execution that a row stands for, under a tenant that is known.
pub fn decode(row: &WorkflowExecutionColumns, tenant_id: &TenantId) -> (r: WorkflowExecution)
    ensures
        r@ == decoded(*row, tenant_id@, lenient_status(row.status@)),
{
    let status = match parse_status(row.status.as_str()) {
        Some(status) => status,
        None => ExecutionStatus::Pending,
    };
    decode_with(row, tenant_id, status)
}

/// A row that was looked up by identifier within a tenant.
pub fn find_by_id_for_tenant(
    row: &Option<WorkflowExecutionColumns>,
    tenant_id: &TenantId,
) -> (r: Option<WorkflowExecution>)
    ensures
        r is Some <==> row is Some,
        r is Some ==> r->0@ == decoded(row->0, tenant_id@, lenient_status(row->0.status@)),
{
    match row {
        Some(row) => Some(decode(row, tenant_id)),
        None => None,
    }
}

/// The executions of a listing within a tenant, in order.
pub fn decode_rows(rows: &Vec<WorkflowExecutionColumns>, tenant_id: &TenantId) -> (r: Vec<
    WorkflowExecution,
>)
    ensures
        r@.len() == rows@.len(),
        forall|i: int|
            0 <= i < rows@.len() ==> (#[trigger] r@[i])@ == decoded(
                rows@[i],
                tenant_id@,
                lenient_status(rows@[i].status@),
            ),
{
    let mut executions: Vec<WorkflowExecution> = Vec::new();
    let mut i: usize = 0;
    while i < rows.len()
        invariant
            i <= rows@.len(),
            executions@.len() == i,
            forall|j: int|
                0 <= j < i ==> (#[trigger] executions@[j])@ == decoded(
                    rows@[j],
                    tenant_id@,
                    lenient_status(rows@[j].status@),
                ),
        decreases rows.len() - i,
    {
        executions.push(decode(&rows[i], tenant_id));
        i = i + 1;
    }
    executions
}

/// The running executions of a tenant, in order. They were selected by their
/// status, which is not read again.
pub fn find_active_for_tenant(
    rows: &Vec<WorkflowExecutionColumns>,
    tenant_id: &TenantId,
) -> (r: Vec<WorkflowExecution>)
    ensures
        r@.len() == rows@.len(),
        forall|i: int|
            0 <= i < rows@.len() ==> (#[trigger] r@[i])@ == decoded(
                rows@[i],
                tenant_id@,
                ExecutionStatus::Running,
            ),
{
    let mut executions: Vec<WorkflowExecution> = Vec::new();
    let mut i: usize = 0;
    while i < rows.len()
        invariant
            i <= rows@.len(),
            executions@.len() == i,
            forall|j: int|
                0 <= j < i ==> (#[trigger] executions@[j])@ == decoded(
                    rows@[j],
                    tenant_id@,
                    ExecutionStatus::Running,
                ),
        decreases rows.len() - i,
    {
        executions.push(decode_with(&rows[i], tenant_id, ExecutionStatus::Running));
        i = i + 1;
    }
    executions
}

/// Whether every row carries a tenant.
pub open spec fn tenants_are_valid(rows: Seq<WorkflowExecutionColumns>) -> bool {
    forall|i: int| 0 <= i < rows.len() ==> (#[trigger] rows[i]).tenant_id@.len() > 0
}

/// The executions of a listing over all tenants, in order; a row without a
/// tenant spoils it.
pub fn list_paginated_all(rows: &Vec<WorkflowExecutionColumns>) -> (r: Result<
    Vec<WorkflowExecution>,
    RepositoryError,
>)
    ensures
        tenants_are_valid(rows@) ==> r is Ok && r->Ok_0@.len() == rows@.len() && forall|i: int|
            0 <= i < rows@.len() ==> (#[trigger] r->Ok_0@[i])@ == decoded(
                rows@[i],
                rows@[i].tenant_id@,
                lenient_status(rows@[i].status@),
            ),
        !tenants_are_valid(rows@) ==> (r matches Err(RepositoryError::Serialization(m)) && m@
            == "Invalid tenant_id in database: "@ + "tenant id must not be empty"@),
{
    let mut executions: Vec<WorkflowExecution> = Vec::new();
    let mut i: usize = 0;
    while i < rows.len()
        invariant
            i <= rows@.len(),
            executions@.len() == i,
            forall|j: int| 0 <= j < i ==> (#[trigger] rows@[j]).tenant_id@.len() > 0,
            forall|j: int|
                0 <= j < i ==> (#[trigger] executions@[j])@ == decoded(
                    rows@[j],
                    rows@[j].tenant_id@,
                    lenient_status(rows@[j].status@),
                ),
        decreases rows.len() - i,
    {
        let tenant = match TenantId::from_string(rows[i].tenant_id.as_str()) {
            Ok(tenant) => tenant,
            Err(e) => {
                assert(rows@[i as int].tenant_id@.len() == 0);
                return Err(
                    RepositoryError::Serialization(
                        "Invalid tenant_id in database: ".to_owned().concat(
                            e.to_string().as_str(),
                        ),
                    ),
                );
            },
        };
        executions.push(decode(&rows[i], &tenant));
        i = i + 1;
    }
    Ok(executions)
}

/// The tenant of an execution, from the row that was found for it.
pub fn find_tenant_id_by_execution(tenant_id: &Option<String>) -> (r: Result<
    Option<TenantId>,
    RepositoryError,
>)
    ensures
        match *tenant_id {
            None => r == Ok::<Option<TenantId>, RepositoryError>(None),
            Some(t) => if t@.len() > 0 {
                r matches Ok(Some(tenant)) && tenant@ == t@
            } else {
                r matches Err(RepositoryError::Database(m)) && m@ == "Invalid tenant_id '"@ + t@
                    + "': "@ + "tenant id must not be empty"@
            },
        },
{
    match tenant_id {
        None => Ok(None),
        Some(t) => match TenantId::from_string(t.as_str()) {
            Ok(tenant) => Ok(Some(tenant)),
            Err(e) => Err(
                RepositoryError::Database(
                    "Invalid tenant_id '".to_owned().concat(t.as_str()).concat("': ").concat(
                        e.to_string().as_str(),
                    ),
                ),
            ),
        },
    }
}

/// What a save of `execution` under the tenant writes. Until the engine tells
/// better, the execution's own identifier stands for the engine's workflow, and
/// the run is not known.
pub fn encode(tenant_id: &TenantId, execution: &WorkflowExecution) -> (r: SavedWorkflowExecution)
    ensures
        holds_execution(r.columns, execution@, tenant_id@),
        r.temporal_workflow_id@ == shared_kernel::uuid_text(execution.id.0.bits),
        r.temporal_run_id@ == Seq::<char>::empty(),
        json::is_array_of_texts(r.state_history, seq![execution@.current_state]),
{
    let state = execution.current_state.as_str().to_owned();
    let mut history: Vec<String> = Vec::new();
    history.push(execution.current_state.as_str().to_owned());
    proof {
        assert(text::texts(history@) =~= seq![execution@.current_state]);
    }
    SavedWorkflowExecution {
        columns: WorkflowExecutionColumns {
            id: execution.id.0,
            tenant_id: tenant_id.as_str().to_owned(),
            workflow_id: execution.workflow_id.0,
            input_params: execution.input.clone(),
            status: status_to_str(execution.status).to_owned(),
            current_state: state,
            blackboard: object_of(&execution.blackboard.data),
            state_outputs: object_of(&execution.state_outputs),
            final_output: execution.final_output.clone(),
            started_at: execution.started_at,
            last_transition_at: execution.last_transition_at,
        },
        temporal_workflow_id: execution.id.0.to_string(),
        temporal_run_id: String::new(),
        state_history: array_of_texts(&history),
    }
}

/// The error of a save that the database refused.
pub fn save_refused(message: &str) -> (r: RepositoryError)
    ensures
        r matches RepositoryError::Database(m) && m@ == "Failed to save workflow execution: "@
            + message@,
{
    RepositoryError::Database("Failed to save workflow execution: ".to_owned().concat(message))
}

/// The error of a change of the engine's identifiers that the database refused.
pub fn linkage_refused(execution_id: ExecutionId, message: &str) -> (r: RepositoryError)
    ensures
        r matches RepositoryError::Database(m) && m@
            == "Failed to update Temporal linkage for workflow execution "@
            + shared_kernel::uuid_text(execution_id.0.bits) + ": "@ + message@,
{
    RepositoryError::Database(
        "Failed to update Temporal linkage for workflow execution ".to_owned().concat(
            execution_id.0.to_string().as_str(),
        ).concat(": ").concat(message),
    )
}

/// What appending an event comes to.
#[derive(Debug)]
pub enum AppendStep {
    /// The count of iterations is raised to the number, where it is lower.
    RaiseIterationCount(i16),
    Done(Result<(), RepositoryError>),
}

/// The number of an iteration as its column holds it.
pub fn iteration_column(iteration_number: Option<u8>) -> (r: Option<i16>)
    ensures
        r is Some <==> iteration_number is Some,
        r is Some ==> r->0 == iteration_number->0,
{
    match iteration_number {
        Some(n) => Some(n as i16),
        None => None,
    }
}

/// An event as it is written to the log. The log is keyed by execution and
/// sequence number: where an event is there under both, it stays and this one is
/// passed over.
#[derive(Debug)]
pub struct EventInsert {
    pub execution_id: Uuid,
    pub sequence_number: i64,
    pub event_type: String,
    pub event_payload: serde_json::Value,
    pub iteration_number: Option<i16>,
}

/// What is written to the log for an event.
pub fn append_event(
    execution_id: ExecutionId,
    sequence_number: i64,
    event_type: String,
    payload: serde_json::Value,
    iteration_number: Option<u8>,
) -> (r: EventInsert)
    ensures
        r.execution_id == execution_id.0,
        r.sequence_number == sequence_number,
        r.event_type == event_type,
        r.event_payload == payload,
        r.iteration_number is Some <==> iteration_number is Some,
        r.iteration_number is Some ==> r.iteration_number->0 == iteration_number->0,
{
    EventInsert {
        execution_id: execution_id.0,
        sequence_number,
        event_type,
        event_payload: payload,
        iteration_number: iteration_column(iteration_number),
    }
}

/// Whether two events have the same key in the log.
pub open spec fn same_number(a: EventInsert, b: EventInsert) -> bool {
    a.execution_id == b.execution_id && a.sequence_number == b.sequence_number
}

/// Whether the log holds an event under the key of `insert`.
pub open spec fn is_logged(log: Seq<EventInsert>, insert: EventInsert) -> bool {
    exists|i: int| 0 <= i < log.len() && same_number(#[trigger] log[i], insert)
}

/// The log once `insert` was carried out.
pub open spec fn logged(log: Seq<EventInsert>, insert: EventInsert) -> Seq<EventInsert> {
    if is_logged(log, insert) {
        log
    } else {
        log.push(insert)
    }
}

/// Whether no execution has two events of one sequence number.
pub open spec fn one_event_per_number(log: Seq<EventInsert>) -> bool {
    forall|i: int, j: int|
        0 <= i < log.len() && 0 <= j < log.len() && same_number(
            #[trigger] log[i],
            #[trigger] log[j],
        ) ==> i == j
}

/// An execution has one event per sequence number, however often it is
/// appended: what is in the log stays, the event is there afterwards under its
/// number, and appending another under that number changes nothing.
pub proof fn events_are_logged_once(
    log: Seq<EventInsert>,
    insert: EventInsert,
    again: EventInsert,
)
    requires
        one_event_per_number(log),
        same_number(insert, again),
    ensures
        one_event_per_number(logged(log, insert)),
        log.is_prefix_of(logged(log, insert)),
        is_logged(logged(log, insert), insert),
        !is_logged(log, insert) ==> logged(log, insert).last() == insert,
        logged(logged(log, insert), again) == logged(log, insert),
{
    let after = logged(log, insert);
    if !is_logged(log, insert) {
        assert(after[log.len() as int] == insert);
        assert forall|i: int| 0 <= i < log.len() implies !same_number(
            #[trigger] after[i],
            insert,
        ) by {
            assert(after[i] == log[i]);
        }
        assert forall|i: int, j: int|
            0 <= i < after.len() && 0 <= j < after.len() && same_number(
                #[trigger] after[i],
                #[trigger] after[j],
            ) implies i == j by {
            if i < log.len() && j < log.len() {
                assert(same_number(log[i], log[j]));
            } else if i < log.len() {
                assert(!same_number(after[i], insert));
            } else if j < log.len() {
                assert(!same_number(after[j], insert));
            }
        }
    }
    let k = choose|k: int| 0 <= k < after.len() && same_number(#[trigger] after[k], insert);
    assert(same_number(after[k], again));
}

/// The count of iterations once the step was carried out: raised to the number
/// that the step names, where it is lower.
pub open spec fn count_after(count: i16, step: AppendStep) -> i16 {
    match step {
        AppendStep::RaiseIterationCount(n) => if count < n {
            n
        } else {
            count
        },
        AppendStep::Done(_) => count,
    }
}

/// Whether `step` follows an event that was written.
pub open spec fn follows_event(iteration_number: Option<u8>, step: AppendStep) -> bool {
    match iteration_number {
        Some(n) => step == AppendStep::RaiseIterationCount(n as i16),
        None => step == AppendStep::Done(Ok(())),
    }
}

/// The count of iterations never falls, is no lower than the iteration of any
/// event that was appended, and does not depend on the order of two events.
pub proof fn iteration_count_never_falls(
    count: i16,
    first: Option<u8>,
    second: Option<u8>,
    first_step: AppendStep,
    second_step: AppendStep,
)
    requires
        follows_event(first, first_step),
        follows_event(second, second_step),
    ensures
        count_after(count, first_step) >= count,
        first is Some ==> count_after(count, first_step) >= first->0,
        first is None ==> count_after(count, first_step) == count,
        count_after(count_after(count, first_step), second_step) == count_after(
            count_after(count, second_step),
            first_step,
        ),
{
}

/// What follows once the event was, or was not, written: an event of an
/// iteration raises the count of iterations.
pub fn event_written(iteration_number: Option<u8>, written: Result<(), String>) -> (r: AppendStep)
    ensures
        match written {
            Err(e) => r matches AppendStep::Done(Err(RepositoryError::Database(m))) && m@
                == "Failed to append execution event: "@ + e@,
            Ok(_) => follows_event(iteration_number, r),
        },
{
    match written {
        Err(e) => AppendStep::Done(
            Err(
                RepositoryError::Database(
                    "Failed to append execution event: ".to_owned().concat(e.as_str()),
                ),
            ),
        ),
        Ok(_) => match iteration_column(iteration_number) {
            Some(n) => AppendStep::RaiseIterationCount(n),
            None => AppendStep::Done(Ok(())),
        },
    }
}

/// What follows once the count of iterations was, or was not, raised.
pub fn count_raised(raised: Result<(), String>) -> (r: Result<(), RepositoryError>)
    ensures
        match raised {
            Ok(_) => r == Ok::<(), RepositoryError>(()),
            Err(e) => r matches Err(RepositoryError::Database(m)) && m@
                == "Failed to update iteration_count: "@ + e@,
        },
{
    match raised {
        Ok(_) => Ok(()),
        Err(e) => Err(
            RepositoryError::Database(
                "Failed to update iteration_count: ".to_owned().concat(e.as_str()),
            ),
        ),
    }
}

/// The error of a query for events that the database refused.
pub fn events_refused(message: &str) -> (r: RepositoryError)
    ensures
        r matches RepositoryError::Database(m) && m@ == "Failed to query execution events: "@
            + message@,
{
    RepositoryError::Database("Failed to query execution events: ".to_owned().concat(message))
}

/// Whether `record` is what a row of the event log stands for. The log does not
/// hold the name of a state.
pub open spec fn is_record_of(record: WorkflowExecutionEventRecord, row: EventColumns) -> bool {
    &&& record.sequence == row.sequence_number
    &&& record.event_type == row.event_type
    &&& record.state_name is None
    &&& record.iteration_number == (match row.iteration_number {
        Some(n) => Some(n as u8),
        None => None,
    })
    &&& record.payload == row.event_payload
    &&& record.recorded_at == row.created_at
}

/// The number of an iteration is read back as it was written.
pub proof fn iteration_number_survives_storage(n: u8)
    ensures
        (n as i16) as u8 == n,
{
}

/// The entries of an execution's event log, in order.
pub fn read_events(rows: &Vec<EventColumns>) -> (r: Vec<WorkflowExecutionEventRecord>)
    ensures
        r@.len() == rows@.len(),
        forall|i: int| 0 <= i < rows@.len() ==> is_record_of(#[trigger] r@[i], rows@[i]),
{
    let mut records: Vec<WorkflowExecutionEventRecord> = Vec::new();
    let mut i: usize = 0;
    while i < rows.len()
        invariant
            i <= rows@.len(),
            records@.len() == i,
            forall|j: int| 0 <= j < i ==> is_record_of(#[trigger] records@[j], rows@[j]),
        decreases rows.len() - i,
    {
        let row = &rows[i];
        records.push(
            WorkflowExecutionEventRecord {
                sequence: row.sequence_number,
                event_type: row.event_type.clone(),
                state_name: None,
                iteration_number: match row.iteration_number {
                    Some(n) => Some(n as u8),
                    None => None,
                },
                payload: row.event_payload.clone(),
                recorded_at: row.created_at,
            },
        );
        i = i + 1;
    }
    records
}

/// A stored word stands for the status that is stored under it; a word that
/// stands for none counts as pending.
pub proof fn unknown_statuses_are_pending(status: ExecutionStatus, name: Seq<char>)
    ensures
        name == "running"@ <==> lenient_status(name) is Running,
        name == "completed"@ <==> lenient_status(name) is Completed,
        name == "failed"@ <==> lenient_status(name) is Failed,
        name == "cancelled"@ <==> lenient_status(name) is Cancelled,
        name != "running"@ && name != "completed"@ && name != "failed"@ && name != "cancelled"@
            <==> lenient_status(name) is Pending,
        lenient_status(postgres_execution::status_name(status)) == status,
{
    postgres_execution::status_survives_storage(status);
    postgres_execution::status_survives_storage(ExecutionStatus::Pending);
    postgres_execution::status_survives_storage(ExecutionStatus::Running);
    postgres_execution::status_survives_storage(ExecutionStatus::Completed);
    postgres_execution::status_survives_storage(ExecutionStatus::Failed);
    postgres_execution::status_survives_storage(ExecutionStatus::Cancelled);
}

/// A workflow execution has each of its parts from the column of that part. A
/// row without a state is at the start; a blackboard that is no object is empty.
pub proof fn parts_are_read_from_their_columns(
    row: WorkflowExecutionColumns,
    tenant: Seq<char>,
    status: ExecutionStatus,
)
    ensures
        decoded(row, tenant, status).id.0 == row.id,
        decoded(row, tenant, status).workflow_id.0 == row.workflow_id,
        decoded(row, tenant, status).tenant == tenant,
        decoded(row, tenant, status).status == status,
        row.current_state@.len() > 0 ==> decoded(row, tenant, status).current_state
            == row.current_state@,
        row.current_state@.len() == 0 ==> decoded(row, tenant, status).current_state == "start"@,
        json::json_members(row.blackboard) is None ==> decoded(
            row,
            tenant,
            status,
        ).blackboard.dom().is_empty(),
        json::json_members(row.blackboard) is Some ==> decoded(row, tenant, status).blackboard
            == json::json_members(row.blackboard)->0,
        decoded(row, tenant, status).input == row.input_params,
        decoded(row, tenant, status).final_output == row.final_output,
        decoded(row, tenant, status).started_at == row.started_at,
        decoded(row, tenant, status).last_transition_at == row.last_transition_at,
        json::json_members(row.state_outputs) is None ==> decoded(
            row,
            tenant,
            status,
        ).state_outputs.dom().is_empty(),
        json::json_members(row.state_outputs) is Some ==> forall|name: Seq<char>|
            #![trigger decoded(row, tenant, status).state_outputs.contains_key(name)]
            (decoded(row, tenant, status).state_outputs.contains_key(name) <==> name.len() > 0
                && json::json_members(row.state_outputs)->0.contains_key(name)) && (name.len() > 0
                && json::json_members(row.state_outputs)->0.contains_key(name) ==> decoded(
                row,
                tenant,
                status,
            ).state_outputs[name] == json::json_members(row.state_outputs)->0[name]),
{
    assert(Map::<Seq<char>, serde_json::Value>::empty().dom() =~= Set::empty());
    assert forall|name: Seq<char>| name.len() == 0 implies name == Seq::<char>::empty() by {
        assert(name =~= Seq::<char>::empty());
    }
}

/// Each part of a workflow execution is written to the column of that part.
pub proof fn parts_are_written_to_their_columns(
    row: WorkflowExecutionColumns,
    e: WorkflowExecutionView,
    tenant: Seq<char>,
)
    requires
        holds_execution(row, e, tenant),
    ensures
        row.id == e.id.0,
        row.tenant_id@ == tenant,
        row.workflow_id == e.workflow_id.0,
        row.input_params == e.input,
        postgres_execution::status_named(row.status@) == Some(e.status),
        row.current_state@ == e.current_state,
        json::json_members(row.blackboard) == Some(e.blackboard),
        json::json_members(row.state_outputs) == Some(e.state_outputs),
        row.final_output == e.final_output,
        row.started_at == e.started_at,
        row.last_transition_at == e.last_transition_at,
{
    postgres_execution::status_survives_storage(e.status);
}

/// An event that was written for an iteration raises the count of iterations to
/// the greater of the two; one that was not leaves it.
pub proof fn iteration_count_is_the_greatest(count: i16, number: Option<u8>, step: AppendStep)
    requires
        follows_event(number, step),
    ensures
        number is Some && number->0 as i16 > count ==> count_after(count, step) == number->0,
        number is Some && number->0 as i16 <= count ==> count_after(count, step) == count,
        number is None ==> step == AppendStep::Done(Ok(())) && count_after(count, step) == count,
{
}

/// Two events are the same entry of the log exactly where both the execution
/// and the number are the same; an entry of another execution or number does
/// not stand in the way of an event.
pub proof fn entries_are_told_apart(log: Seq<EventInsert>, insert: EventInsert)
    ensures
        (forall|i: int|
            0 <= i < log.len() ==> (#[trigger] log[i]).execution_id != insert.execution_id
                || log[i].sequence_number != insert.sequence_number) ==> logged(log, insert)
            == log.push(insert),
        (exists|i: int|
            0 <= i < log.len() && (#[trigger] log[i]).execution_id == insert.execution_id
                && log[i].sequence_number == insert.sequence_number) ==> logged(log, insert) == log,
{
    if exists|i: int|
        0 <= i < log.len() && (#[trigger] log[i]).execution_id == insert.execution_id
            && log[i].sequence_number == insert.sequence_number {
        let i = choose|i: int|
            0 <= i < log.len() && (#[trigger] log[i]).execution_id == insert.execution_id
                && log[i].sequence_number == insert.sequence_number;
        assert(same_number(log[i], insert));
    }
}

/// An entry that was written for an event is read back with the event's number,
/// type, payload and iteration, and the time at which the log took it in.
pub proof fn events_are_read_back(
    insert: EventInsert,
    number: Option<u8>,
    row: EventColumns,
    record: WorkflowExecutionEventRecord,
)
    requires
        insert.iteration_number is Some <==> number is Some,
        number is Some ==> insert.iteration_number->0 == number->0,
        row.sequence_number == insert.sequence_number,
        row.event_type == insert.event_type,
        row.event_payload == insert.event_payload,
        row.iteration_number == insert.iteration_number,
        is_record_of(record, row),
    ensures
        record.sequence == insert.sequence_number,
        record.event_type@ == insert.event_type@,
        record.payload == insert.event_payload,
        record.iteration_number == number,
        record.recorded_at == row.created_at,
        record.state_name is None,
{
}

/// A listing over all tenants is whole exactly where no row lacks its tenant.
pub proof fn every_row_needs_its_tenant(rows: Seq<WorkflowExecutionColumns>, i: int)
    requires
        0 <= i < rows.len(),
    ensures
        rows[i].tenant_id@ == Seq::<char>::empty() ==> !tenants_are_valid(rows),
        (forall|j: int|
            0 <= j < rows.len() ==> (#[trigger] rows[j]).tenant_id@ != Seq::<char>::empty())
            ==> tenants_are_valid(rows),
{
    assert forall|j: int| 0 <= j < rows.len() && (#[trigger] rows[j]).tenant_id@
        != Seq::<char>::empty() implies rows[j].tenant_id@.len() > 0 by {
        if rows[j].tenant_id@.len() == 0 {
            assert(rows[j].tenant_id@ =~= Seq::<char>::empty());
        }
    }
}

} // verus!

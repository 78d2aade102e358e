//! Agent executions as rows of the `executions` table.

use vstd::prelude::*;
use crate::domain::execution::{
    Execution, ExecutionHierarchy, ExecutionInput, ExecutionStatus, ExecutionView, HierarchyView,
    Iteration,
};
use crate::domain::repository::RepositoryError;
use crate::domain::shared_kernel::{AgentId, ExecutionId, TenantId, Uuid};
use crate::support::clock::Timestamp;
use crate::support::stored::Stored;
use crate::support::text;
use crate::support::text::same_text;

verus! {

/// The columns that an execution is read from. The two documents come parsed,
/// or with what the parser had to say against them.
#[derive(Debug)]
pub struct ExecutionColumns {
    pub id: Uuid,
    pub tenant_id: String,
    pub agent_id: Uuid,
    pub status: String,
    pub input: Result<ExecutionInput, String>,
    pub iterations: Result<Vec<Iteration>, String>,
    pub max_iterations: i32,
    pub container_uid: i32,
    pub container_gid: i32,
    pub started_at: Timestamp,
    pub completed_at: Option<Timestamp>,
    pub error_message: Option<String>,
    pub parent_execution_id: Option<Uuid>,
    pub security_context_name: String,
    pub initiating_user_sub: Option<String>,
}

/// What a save writes: the columns that are read back, and the two that are
/// only for queries.
#[derive(Debug)]
pub struct SavedExecution {
    pub columns: ExecutionColumns,
    pub current_iteration: i32,
    pub final_output: Option<String>,
}

/// Whether a row was asked for by identifier or came with a listing. It shows
/// in one message.
#[derive(Clone, Copy, Debug, PartialEq, Eq, Structural)]
pub enum ReadAs {
    Single,
    Listed,
}

/// How a status is stored.
pub open spec fn status_name(status: ExecutionStatus) -> Seq<char> {
    match status {
        ExecutionStatus::Pending => "pending"@,
        ExecutionStatus::Running => "running"@,
        ExecutionStatus::Completed => "completed"@,
        ExecutionStatus::Failed => "failed"@,
        ExecutionStatus::Cancelled => "cancelled"@,
    }
}

/// The status that is stored as `name`.
pub open spec fn status_named(name: Seq<char>) -> Option<ExecutionStatus> {
    if name == "pending"@ {
        Some(ExecutionStatus::Pending)
    } else if name == "running"@ {
        Some(ExecutionStatus::Running)
    } else if name == "completed"@ {
        Some(ExecutionStatus::Completed)
    } else if name == "failed"@ {
        Some(ExecutionStatus::Failed)
    } else if name == "cancelled"@ {
        Some(ExecutionStatus::Cancelled)
    } else {
        None
    }
}

/// A status is read back as it was stored.
pub proof fn status_survives_storage(status: ExecutionStatus)
    ensures
        status_named(status_name(status)) == Some(status),
{
    reveal_strlit("pending");
    reveal_strlit("running");
    reveal_strlit("completed");
    reveal_strlit("failed");
    reveal_strlit("cancelled");
    assert("pending"@[0] == 'p');
    assert("running"@[0] == 'r');
    assert("completed"@[0] == 'c' && "completed"@[1] == 'o');
    assert("failed"@[0] == 'f');
    assert("cancelled"@[0] == 'c' && "cancelled"@[1] == 'a');
}

/// How a status is stored.
pub fn status_to_str(status: ExecutionStatus) -> (r: &'static str)
    ensures
        r@ == status_name(status),
{
    match status {
        ExecutionStatus::Pending => "pending",
        ExecutionStatus::Running => "running",
        ExecutionStatus::Completed => "completed",
        ExecutionStatus::Failed => "failed",
        ExecutionStatus::Cancelled => "cancelled",
    }
}

/// The status that is stored as `name`.
pub fn parse_status(name: &str) -> (r: Option<ExecutionStatus>)
    ensures
        r == status_named(name@),
{
    if same_text(name, "pending") {
        Some(ExecutionStatus::Pending)
    } else if same_text(name, "running") {
        Some(ExecutionStatus::Running)
    } else if same_text(name, "completed") {
        Some(ExecutionStatus::Completed)
    } else if same_text(name, "failed") {
        Some(ExecutionStatus::Failed)
    } else if same_text(name, "cancelled") {
        Some(ExecutionStatus::Cancelled)
    } else {
        None
    }
}

/// What is wrong with the stored tenant.
pub open spec fn tenant_fault(row: ExecutionColumns) -> Option<Seq<char>> {
    if row.tenant_id@.len() == 0 {
        Some("Invalid tenant_id in database: "@ + "tenant id must not be empty"@)
    } else {
        None
    }
}

/// What is wrong with the rest of a row: the first of its faults, in the order
/// in which the columns are read.
pub open spec fn fault(row: ExecutionColumns, read_as: ReadAs) -> Option<Seq<char>> {
    if status_named(row.status@) is None {
        Some("Unknown execution status value from database: '"@ + row.status@ + "'"@)
    } else if row.input is Err {
        Some(
            (match read_as {
                ReadAs::Single => "Failed to deserialize input: "@,
                ReadAs::Listed => "Failed to deserialize execution input: "@,
            }) + row.input->Err_0@,
        )
    } else if row.iterations is Err {
        Some("Failed to deserialize iterations: "@ + row.iterations->Err_0@)
    } else if !(0 <= row.max_iterations <= 255) {
        Some(
            "Invalid max_iterations value "@ + text::signed_digits(row.max_iterations as int)
                + ": expected 0-255"@,
        )
    } else if row.container_uid < 0 {
        Some(
            "Invalid container_uid value (expected non-negative i32): "@ + text::signed_digits(
                row.container_uid as int,
            ),
        )
    } else if row.container_gid < 0 {
        Some(
            "Invalid container_gid value (expected non-negative i32): "@ + text::signed_digits(
                row.container_gid as int,
            ),
        )
    } else {
        None
    }
}

/// What is wrong with a row that carries its tenant; the tenant comes first.
pub open spec fn unscoped_fault(row: ExecutionColumns, read_as: ReadAs) -> Option<Seq<char>> {
    match tenant_fault(row) {
        Some(m) => Some(m),
        None => fault(row, read_as),
    }
}

/// What is wrong with the first faulty row of a listing.
pub open spec fn first_fault(rows: Seq<ExecutionColumns>, scoped: bool) -> Option<Seq<char>>
    decreases rows.len(),
{
    if rows.len() == 0 {
        None
    } else {
        match first_fault(rows.drop_last(), scoped) {
            Some(m) => Some(m),
            None => if scoped {
                fault(rows.last(), ReadAs::Listed)
            } else {
                unscoped_fault(rows.last(), ReadAs::Listed)
            },
        }
    }
}

/// Where an execution stands, as far as its stored parent tells: without a
/// parent it is a root; with one it is at least one level below some root, and
/// of its path only its own end is known.
pub open spec fn stored_hierarchy(id: Uuid, parent: Option<Uuid>) -> HierarchyView {
    match parent {
        None => HierarchyView {
            parent: None,
            depth: 0,
            path: seq![ExecutionId(id)],
            swarm_id: None,
        },
        Some(p) => HierarchyView {
            parent: Some(ExecutionId(p)),
            depth: 1,
            path: seq![ExecutionId(id)],
            swarm_id: None,
        },
    }
}

/// The execution that a row without faults stands for.
pub open spec fn decoded(row: ExecutionColumns, tenant: Seq<char>) -> ExecutionView {
    ExecutionView {
        id: ExecutionId(row.id),
        agent_id: AgentId(row.agent_id),
        tenant,
        status: status_named(row.status@)->0,
        iterations: row.iterations->Ok_0@,
        max_iterations: row.max_iterations as u8,
        container_uid: row.container_uid as u32,
        container_gid: row.container_gid as u32,
        input: row.input->Ok_0,
        started_at: row.started_at,
        ended_at: row.completed_at,
        error: row.error_message,
        hierarchy: stored_hierarchy(row.id, row.parent_execution_id),
        security_context_name: row.security_context_name,
        initiating_user_sub: row.initiating_user_sub,
    }
}

/// The output of the last iteration, where there is one.
pub open spec fn last_output(iterations: Seq<Iteration>) -> Option<String> {
    if iterations.len() == 0 {
        None
    } else {
        iterations.last().output
    }
}

/// Whether `row` holds what a save of `e` under `tenant` writes.
pub open spec fn holds_execution(
    row: ExecutionColumns,
    e: ExecutionView,
    tenant: Seq<char>,
) -> bool {
    &&& row.id == e.id.0
    &&& row.tenant_id@ == tenant
    &&& row.agent_id == e.agent_id.0
    &&& row.status@ == status_name(e.status)
    &&& row.input == Ok::<ExecutionInput, String>(e.input)
    &&& row.iterations is Ok
    &&& row.iterations->Ok_0@ == e.iterations
    &&& row.max_iterations == e.max_iterations as i32
    &&& row.container_uid == e.container_uid as i32
    &&& row.container_gid == e.container_gid as i32
    &&& row.started_at == e.started_at
    &&& row.completed_at == e.ended_at
    &&& row.error_message == e.error
    &&& row.parent_execution_id == (match e.hierarchy.parent {
        Some(p) => Some(p.0),
        None => None,
    })
    &&& row.security_context_name == e.security_context_name
    &&& row.initiating_user_sub == e.initiating_user_sub
}

/// An execution is read back as it was saved, but for its place among the
/// executions that started it, of which only the parent is stored. User and
/// group must fit the signed columns that hold them.
pub proof fn saved_execution_is_read_back(
    row: ExecutionColumns,
    e: ExecutionView,
    tenant: Seq<char>,
    read_as: ReadAs,
)
    requires
        holds_execution(row, e, tenant),
        e.container_uid <= i32::MAX,
        e.container_gid <= i32::MAX,
    ensures
        fault(row, read_as) is None,
        tenant.len() > 0 ==> unscoped_fault(row, read_as) is None,
        decoded(row, tenant) == (ExecutionView {
            tenant,
            hierarchy: stored_hierarchy(e.id.0, row.parent_execution_id),
            ..e
        }),
        decoded(row, tenant).hierarchy.parent == e.hierarchy.parent,
{
    status_survives_storage(e.status);
}

/// A user or group beyond the signed columns does not survive: the row is
/// refused when it is read.
pub proof fn large_owner_is_refused(
    row: ExecutionColumns,
    e: ExecutionView,
    tenant: Seq<char>,
    read_as: ReadAs,
)
    requires
        holds_execution(row, e, tenant),
        e.container_uid > i32::MAX || e.container_gid > i32::MAX,
    ensures
        fault(row, read_as) is Some,
{
    status_survives_storage(e.status);
    let uid = e.container_uid;
    let gid = e.container_gid;
    assert(uid > 0x7fff_ffffu32 ==> (uid as i32) < 0i32) by (bit_vector);
    assert(gid > 0x7fff_ffffu32 ==> (gid as i32) < 0i32) by (bit_vector);
}

fn refused(message: String) -> (r: RepositoryError)
    ensures
        r matches RepositoryError::Serialization(m) && m@ == message@,
{
    RepositoryError::Serialization(message)
}

/// The tenant that a row carries.
fn stored_tenant(row: &ExecutionColumns) -> (r: Result<TenantId, RepositoryError>)
    ensures
        match tenant_fault(*row) {
            Some(m) => r matches Err(RepositoryError::Serialization(t)) && t@ == m,
            None => r is Ok && r->Ok_0@ == row.tenant_id@,
        },
{
    match TenantId::from_string(row.tenant_id.as_str()) {
        Ok(tenant) => Ok(tenant),
        Err(e) => Err(
            refused("Invalid tenant_id in database: ".to_owned().concat(e.to_string().as_str())),
        ),
    }
}

/// Where an execution stands, as far as its stored parent tells.
pub fn read_hierarchy(id: Uuid, parent: Option<Uuid>) -> (r: ExecutionHierarchy)
    ensures
        r@ == stored_hierarchy(id, parent),
{
    let root = ExecutionHierarchy::root(ExecutionId(id));
    match parent {
        None => root,
        Some(p) => ExecutionHierarchy {
            parent_execution_id: Some(ExecutionId(p)),
            depth: 1,
            path: root.path,
            swarm_id: None,
        },
    }
}

/// The execution that a row stands for, under a tenant that is known, or what
/// is wrong with the row.
pub fn decode(row: &ExecutionColumns, tenant_id: &TenantId, read_as: ReadAs) -> (r: Result<
    Execution,
    RepositoryError,
>)
    ensures
        match fault(*row, read_as) {
            Some(m) => r matches Err(RepositoryError::Serialization(t)) && t@ == m,
            None => r is Ok && r->Ok_0@ == decoded(*row, tenant_id@),
        },
{
    let status = match parse_status(row.status.as_str()) {
        Some(status) => status,
        None => return Err(
            refused(
                "Unknown execution status value from database: '".to_owned().concat(
                    row.status.as_str(),
                ).concat("'"),
            ),
        ),
    };
    let input = match &row.input {
        Ok(input) => ExecutionInput { document: input.document.clone() },
        Err(e) => {
            let wording = match read_as {
                ReadAs::Single => "Failed to deserialize input: ",
                ReadAs::Listed => "Failed to deserialize execution input: ",
            };
            return Err(refused(wording.to_owned().concat(e.as_str())));
        },
    };
    let iterations = match &row.iterations {
        Ok(iterations) => iterations.clone(),
        Err(e) => return Err(
            refused("Failed to deserialize iterations: ".to_owned().concat(e.as_str())),
        ),
    };
    proof {
        assert(iterations@ =~= row.iterations->Ok_0@);
    }
    if row.max_iterations < 0 || row.max_iterations > 255 {
        return Err(
            refused(
                "Invalid max_iterations value ".to_owned().concat(
                    text::signed_decimal(row.max_iterations as i64).as_str(),
                ).concat(": expected 0-255"),
            ),
        );
    }
    if row.container_uid < 0 {
        return Err(
            refused(
                "Invalid container_uid value (expected non-negative i32): ".to_owned().concat(
                    text::signed_decimal(row.container_uid as i64).as_str(),
                ),
            ),
        );
    }
    if row.container_gid < 0 {
        return Err(
            refused(
                "Invalid container_gid value (expected non-negative i32): ".to_owned().concat(
                    text::signed_decimal(row.container_gid as i64).as_str(),
                ),
            ),
        );
    }
    Ok(
        Execution {
            id: ExecutionId(row.id),
            agent_id: AgentId(row.agent_id),
            tenant_id: tenant_id.copy(),
            status,
            iterations,
            max_iterations: row.max_iterations as u8,
            container_uid: row.container_uid as u32,
            container_gid: row.container_gid as u32,
            input,
            started_at: row.started_at,
            ended_at: row.completed_at,
            error: row.error_message.clone(),
            hierarchy: read_hierarchy(row.id, row.parent_execution_id),
            security_context_name: row.security_context_name.clone(),
            initiating_user_sub: row.initiating_user_sub.clone(),
        },
    )
}

/// The execution that a row stands for, under the tenant that it carries, or
/// what is wrong with the row.
pub fn decode_unscoped(row: &ExecutionColumns, read_as: ReadAs) -> (r: Result<
    Execution,
    RepositoryError,
>)
    ensures
        match unscoped_fault(*row, read_as) {
            Some(m) => r matches Err(RepositoryError::Serialization(t)) && t@ == m,
            None => r is Ok && r->Ok_0@ == decoded(*row, row.tenant_id@),
        },
{
    match stored_tenant(row) {
        Ok(tenant) => decode(row, &tenant, read_as),
        Err(e) => Err(e),
    }
}

/// A row that was looked up by identifier within a tenant.
pub fn find_by_id_for_tenant(row: &Option<ExecutionColumns>, tenant_id: &TenantId) -> (r: Result<
    Option<Execution>,
    RepositoryError,
>)
    ensures
        match *row {
            None => r == Ok::<Option<Execution>, RepositoryError>(None),
            Some(row) => match fault(row, ReadAs::Single) {
                Some(m) => r matches Err(RepositoryError::Serialization(t)) && t@ == m,
                None => r matches Ok(Some(e)) && e@ == decoded(row, tenant_id@),
            },
        },
{
    match row {
        None => Ok(None),
        Some(row) => match decode(row, tenant_id, ReadAs::Single) {
            Ok(execution) => Ok(Some(execution)),
            Err(e) => Err(e),
        },
    }
}

/// A row that was looked up by identifier alone.
pub fn find_by_id_unscoped(row: &Option<ExecutionColumns>) -> (r: Result<
    Option<Execution>,
    RepositoryError,
>)
    ensures
        match *row {
            None => r == Ok::<Option<Execution>, RepositoryError>(None),
            Some(row) => match unscoped_fault(row, ReadAs::Single) {
                Some(m) => r matches Err(RepositoryError::Serialization(t)) && t@ == m,
                None => r matches Ok(Some(e)) && e@ == decoded(row, row.tenant_id@),
            },
        },
{
    match row {
        None => Ok(None),
        Some(row) => match decode_unscoped(row, ReadAs::Single) {
            Ok(execution) => Ok(Some(execution)),
            Err(e) => Err(e),
        },
    }
}

/// Where the rows up to some place have a fault, all rows have it.
proof fn lemma_fault_stays(rows: Seq<ExecutionColumns>, n: int, scoped: bool)
    requires
        0 <= n <= rows.len(),
        first_fault(rows.take(n), scoped) is Some,
    ensures
        first_fault(rows, scoped) == first_fault(rows.take(n), scoped),
    decreases rows.len(),
{
    if n < rows.len() {
        assert(rows.drop_last().take(n) =~= rows.take(n));
        lemma_fault_stays(rows.drop_last(), n, scoped);
    } else {
        assert(rows.take(n) =~= rows);
    }
}

/// The executions of a listing within a tenant, in order; the first faulty row
/// spoils it.
pub fn decode_rows(rows: &Vec<ExecutionColumns>, tenant_id: &TenantId) -> (r: Result<
    Vec<Execution>,
    RepositoryError,
>)
    ensures
        match first_fault(rows@, true) {
            Some(m) => r matches Err(RepositoryError::Serialization(t)) && t@ == m,
            None => r is Ok && r->Ok_0@.len() == rows@.len() && forall|i: int|
                0 <= i < rows@.len() ==> (#[trigger] r->Ok_0@[i])@ == decoded(
                    rows@[i],
                    tenant_id@,
                ),
        },
{
    let mut executions: Vec<Execution> = Vec::new();
    let mut i: usize = 0;
    while i < rows.len()
        invariant
            i <= rows@.len(),
            executions@.len() == i,
            first_fault(rows@.take(i as int), true) is None,
            forall|j: int|
                0 <= j < i ==> (#[trigger] executions@[j])@ == decoded(rows@[j], tenant_id@),
        decreases rows.len() - i,
    {
        proof {
            let taken = rows@.take(i as int + 1);
            assert(taken.drop_last() =~= rows@.take(i as int));
            assert(taken.last() == rows@[i as int]);
        }
        match decode(&rows[i], tenant_id, ReadAs::Listed) {
            Ok(execution) => executions.push(execution),
            Err(e) => {
                proof {
                    lemma_fault_stays(rows@, i as int + 1, true);
                }
                return Err(e);
            },
        }
        i = i + 1;
    }
    proof {
        assert(rows@.take(i as int) =~= rows@);
    }
    Ok(executions)
}

/// The executions of a listing over all tenants, in order; the first faulty row
/// spoils it.
pub fn decode_rows_unscoped(rows: &Vec<ExecutionColumns>) -> (r: Result<
    Vec<Execution>,
    RepositoryError,
>)
    ensures
        match first_fault(rows@, false) {
            Some(m) => r matches Err(RepositoryError::Serialization(t)) && t@ == m,
            None => r is Ok && r->Ok_0@.len() == rows@.len() && forall|i: int|
                0 <= i < rows@.len() ==> (#[trigger] r->Ok_0@[i])@ == decoded(
                    rows@[i],
                    rows@[i].tenant_id@,
                ),
        },
{
    let mut executions: Vec<Execution> = Vec::new();
    let mut i: usize = 0;
    while i < rows.len()
        invariant
            i <= rows@.len(),
            executions@.len() == i,
            first_fault(rows@.take(i as int), false) is None,
            forall|j: int|
                0 <= j < i ==> (#[trigger] executions@[j])@ == decoded(
                    rows@[j],
                    rows@[j].tenant_id@,
                ),
        decreases rows.len() - i,
    {
        proof {
            let taken = rows@.take(i as int + 1);
            assert(taken.drop_last() =~= rows@.take(i as int));
            assert(taken.last() == rows@[i as int]);
        }
        match decode_unscoped(&rows[i], ReadAs::Listed) {
            Ok(execution) => executions.push(execution),
            Err(e) => {
                proof {
                    lemma_fault_stays(rows@, i as int + 1, false);
                }
                return Err(e);
            },
        }
        i = i + 1;
    }
    proof {
        assert(rows@.take(i as int) =~= rows@);
    }
    Ok(executions)
}

/// What a save of `execution` under the tenant writes.
pub fn encode(tenant_id: &TenantId, execution: &Execution) -> (r: SavedExecution)
    ensures
        holds_execution(r.columns, execution@, tenant_id@),
        r.current_iteration == execution@.iterations.len() as i32,
        r.final_output == last_output(execution@.iterations),
{
    let copy = execution.duplicate();
    let count: usize = copy.iterations.len();
    let final_output = if count == 0 {
        None
    } else {
        copy.iterations[count - 1].output.clone()
    };
    let columns = ExecutionColumns {
        id: copy.id.0,
        tenant_id: tenant_id.as_str().to_owned(),
        agent_id: copy.agent_id.0,
        status: status_to_str(copy.status).to_owned(),
        input: Ok(copy.input),
        iterations: Ok(copy.iterations),
        max_iterations: copy.max_iterations as i32,
        container_uid: copy.container_uid as i32,
        container_gid: copy.container_gid as i32,
        started_at: copy.started_at,
        completed_at: copy.ended_at,
        error_message: copy.error,
        parent_execution_id: match copy.hierarchy.parent_execution_id {
            Some(p) => Some(p.0),
            None => None,
        },
        security_context_name: copy.security_context_name,
        initiating_user_sub: copy.initiating_user_sub,
    };
    SavedExecution { columns, current_iteration: count as i32, final_output }
}

/// The error of a save that the database refused.
pub fn save_refused(message: &str) -> (r: RepositoryError)
    ensures
        r matches RepositoryError::Database(m) && m@ == "Failed to save execution: "@ + message@,
{
    RepositoryError::Database("Failed to save execution: ".to_owned().concat(message))
}

/// How many executions run, from what the database counted.
pub fn running_count(count: i64) -> (r: u64)
    ensures
        r == (if count < 0 { 0 } else { count as int }),
{
    if count < 0 {
        0
    } else {
        count as u64
    }
}

/// Each status is stored under its own word, and a stored word stands for the
/// status that is stored under it, or for none.
pub proof fn statuses_are_stored_under_their_words(status: ExecutionStatus, name: Seq<char>)
    ensures
        status is Pending ==> status_name(status) == "pending"@,
        status is Running ==> status_name(status) == "running"@,
        status is Completed ==> status_name(status) == "completed"@,
        status is Failed ==> status_name(status) == "failed"@,
        status is Cancelled ==> status_name(status) == "cancelled"@,
        status_named(name) == Some(status) <==> name == status_name(status),
        status_named(name) is None <==> name != "pending"@ && name != "running"@ && name
            != "completed"@ && name != "failed"@ && name != "cancelled"@,
{
    status_survives_storage(status);
}

/// Whether every column of a row can be read.
pub open spec fn readable(row: ExecutionColumns) -> bool {
    &&& row.status@ == "pending"@ || row.status@ == "running"@ || row.status@ == "completed"@
        || row.status@ == "failed"@ || row.status@ == "cancelled"@
    &&& row.input is Ok
    &&& row.iterations is Ok
    &&& 0 <= row.max_iterations < 256
    &&& row.container_uid >= 0
    &&& row.container_gid >= 0
}

/// A row is read exactly where every column can be; otherwise the first column
/// that cannot is named, with what it holds.
pub proof fn rows_are_read_where_every_column_is(row: ExecutionColumns, read_as: ReadAs)
    ensures
        fault(row, read_as) is None <==> readable(row),
        unscoped_fault(row, read_as) is None <==> readable(row) && row.tenant_id@.len() > 0,
        row.tenant_id@.len() == 0 ==> unscoped_fault(row, read_as) == Some(
            "Invalid tenant_id in database: "@ + "tenant id must not be empty"@,
        ),
        row.tenant_id@.len() > 0 ==> unscoped_fault(row, read_as) == fault(row, read_as),
        row.status@ != "pending"@ && row.status@ != "running"@ && row.status@ != "completed"@
            && row.status@ != "failed"@ && row.status@ != "cancelled"@ ==> fault(row, read_as)
            == Some("Unknown execution status value from database: '"@ + row.status@ + "'"@),
        status_named(row.status@) is Some && row.input is Err ==> fault(row, read_as) == Some(
            (if read_as is Single {
                "Failed to deserialize input: "@
            } else {
                "Failed to deserialize execution input: "@
            }) + row.input->Err_0@,
        ),
        status_named(row.status@) is Some && row.input is Ok && row.iterations is Err ==> fault(
            row,
            read_as,
        ) == Some("Failed to deserialize iterations: "@ + row.iterations->Err_0@),
        status_named(row.status@) is Some && row.input is Ok && row.iterations is Ok && (
        row.max_iterations < 0 || row.max_iterations > 255) ==> fault(row, read_as) == Some(
            "Invalid max_iterations value "@ + text::signed_digits(row.max_iterations as int)
                + ": expected 0-255"@,
        ),
        status_named(row.status@) is Some && row.input is Ok && row.iterations is Ok && 0
            <= row.max_iterations <= 255 && row.container_uid < 0 ==> fault(row, read_as) == Some(
            "Invalid container_uid value (expected non-negative i32): "@ + text::signed_digits(
                row.container_uid as int,
            ),
        ),
        status_named(row.status@) is Some && row.input is Ok && row.iterations is Ok && 0
            <= row.max_iterations <= 255 && row.container_uid >= 0 && row.container_gid < 0
            ==> fault(row, read_as) == Some(
            "Invalid container_gid value (expected non-negative i32): "@ + text::signed_digits(
                row.container_gid as int,
            ),
        ),
{
}

/// A listing is spoilt by its first faulty row and by no other, and is whole
/// exactly where every row can be read.
pub proof fn listings_fail_with_their_first_fault(rows: Seq<ExecutionColumns>, scoped: bool, i: int)
    requires
        0 <= i < rows.len(),
    ensures
        first_fault(rows, scoped) is None ==> readable(rows[i]) && (!scoped
            ==> rows[i].tenant_id@.len() > 0),
        (forall|j: int|
            0 <= j < rows.len() ==> readable(#[trigger] rows[j]) && (!scoped
                ==> rows[j].tenant_id@.len() > 0)) ==> first_fault(rows, scoped) is None,
        (forall|j: int|
            0 <= j < i ==> readable(#[trigger] rows[j]) && (!scoped ==> rows[j].tenant_id@.len()
                > 0)) && scoped && !readable(rows[i]) ==> first_fault(rows, scoped) == fault(
            rows[i],
            ReadAs::Listed,
        ),
        (forall|j: int|
            0 <= j < i ==> readable(#[trigger] rows[j]) && (!scoped ==> rows[j].tenant_id@.len()
                > 0)) && !scoped && (!readable(rows[i]) || rows[i].tenant_id@.len() == 0)
            ==> first_fault(rows, scoped) == unscoped_fault(rows[i], ReadAs::Listed),
    decreases rows.len(),
{
    let rest = rows.drop_last();
    let last = rows.last();
    rows_are_read_where_every_column_is(last, ReadAs::Listed);
    assert(rows[rows.len() - 1] == last);
    if rest.len() > 0 {
        if i < rest.len() {
            listings_fail_with_their_first_fault(rest, scoped, i);
            rows_are_read_where_every_column_is(rest[i], ReadAs::Listed);
            assert(rest[i] == rows[i]);
        } else {
            listings_fail_with_their_first_fault(rest, scoped, 0);
        }
        assert forall|j: int| 0 <= j < rest.len() implies #[trigger] rest[j] == rows[j] by {}
    }
}

/// An execution has each of its parts from the column of that part.
pub proof fn parts_are_read_from_their_columns(row: ExecutionColumns, tenant: Seq<char>)
    requires
        readable(row),
    ensures
        decoded(row, tenant).id.0 == row.id,
        decoded(row, tenant).agent_id.0 == row.agent_id,
        decoded(row, tenant).tenant == tenant,
        status_name(decoded(row, tenant).status) == row.status@,
        decoded(row, tenant).iterations == row.iterations->Ok_0@,
        decoded(row, tenant).max_iterations == row.max_iterations,
        decoded(row, tenant).container_uid == row.container_uid,
        decoded(row, tenant).container_gid == row.container_gid,
        decoded(row, tenant).input == row.input->Ok_0,
        decoded(row, tenant).started_at == row.started_at,
        decoded(row, tenant).ended_at == row.completed_at,
        decoded(row, tenant).error == row.error_message,
        decoded(row, tenant).security_context_name == row.security_context_name,
        decoded(row, tenant).initiating_user_sub == row.initiating_user_sub,
        decoded(row, tenant).hierarchy.path.len() == 1,
        decoded(row, tenant).hierarchy.path[0].0 == row.id,
        decoded(row, tenant).hierarchy.swarm_id is None,
        row.parent_execution_id is None ==> decoded(row, tenant).hierarchy.parent is None
            && decoded(row, tenant).hierarchy.depth == 0,
        row.parent_execution_id is Some ==> decoded(row, tenant).hierarchy.parent is Some
            && (decoded(row, tenant).hierarchy.parent->0).0 == row.parent_execution_id->0
            && decoded(row, tenant).hierarchy.depth == 1,
{
}

/// Each part of an execution is written to the column of that part.
pub proof fn parts_are_written_to_their_columns(
    row: ExecutionColumns,
    e: ExecutionView,
    tenant: Seq<char>,
)
    requires
        holds_execution(row, e, tenant),
    ensures
        row.id == e.id.0,
        row.tenant_id@ == tenant,
        row.agent_id == e.agent_id.0,
        status_named(row.status@) == Some(e.status),
        row.input is Ok && row.input->Ok_0 == e.input,
        row.iterations is Ok && row.iterations->Ok_0@ == e.iterations,
        row.max_iterations == e.max_iterations,
        e.container_uid <= i32::MAX ==> row.container_uid == e.container_uid,
        e.container_gid <= i32::MAX ==> row.container_gid == e.container_gid,
        row.started_at == e.started_at,
        row.completed_at == e.ended_at,
        row.error_message == e.error,
        e.hierarchy.parent is None <==> row.parent_execution_id is None,
        e.hierarchy.parent is Some ==> row.parent_execution_id->0 == (e.hierarchy.parent->0).0,
        row.security_context_name == e.security_context_name,
        row.initiating_user_sub == e.initiating_user_sub,
{
    status_survives_storage(e.status);
}

/// The final output is that of the iteration that came last, and there is none
/// without iterations.
pub proof fn the_last_iteration_gives_the_output(iterations: Seq<Iteration>, last: Iteration)
    ensures
        last_output(iterations.push(last)) == last.output,
        last_output(Seq::<Iteration>::empty()) is None,
{
    assert(iterations.push(last).last() == last);
}

} // verus!

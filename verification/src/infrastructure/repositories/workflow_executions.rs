//! Workflow executions in memory.

use vstd::prelude::*;
use crate::domain::execution::ExecutionStatus;
use crate::domain::repository::RepositoryError;
use crate::domain::shared_kernel::{ExecutionId, TenantId, WorkflowId};
use crate::domain::workflow::{
    WorkflowExecution, WorkflowExecutionEventRecord, WorkflowExecutionView,
};
use crate::infrastructure::repositories::store;
use crate::infrastructure::repositories::store::{Row, RowView, TenantStore};
use crate::support::sorting;
use crate::support::stored::Stored;

verus! {

/// Workflow executions by tenant and identifier, kept in memory. No event log
/// is kept.
pub struct InMemoryWorkflowExecutionRepository {
    pub executions: TenantStore<WorkflowExecution>,
}

/// A workflow execution with what it is kept under.
pub type WorkflowExecutionRow = Row<WorkflowExecution>;

/// Executions of a tenant.
pub open spec fn of_tenant(tenant: Seq<char>) -> spec_fn(RowView<WorkflowExecutionView>) -> bool {
    |row: RowView<WorkflowExecutionView>| row.tenant == tenant
}

/// Executions of a workflow in a tenant.
pub open spec fn of_workflow(tenant: Seq<char>, workflow_id: WorkflowId) -> spec_fn(
    RowView<WorkflowExecutionView>,
) -> bool {
    |row: RowView<WorkflowExecutionView>|
        row.tenant == tenant && row.value.workflow_id == workflow_id
}

/// Running executions of a tenant.
pub open spec fn running(tenant: Seq<char>) -> spec_fn(RowView<WorkflowExecutionView>) -> bool {
    |row: RowView<WorkflowExecutionView>|
        row.tenant == tenant && row.value.status == ExecutionStatus::Running
}

/// Every execution.
pub open spec fn any_execution() -> spec_fn(RowView<WorkflowExecutionView>) -> bool {
    |row: RowView<WorkflowExecutionView>| true
}

/// The order of executions by start, the latest first.
pub open spec fn newest_first() -> spec_fn(WorkflowExecutionView, WorkflowExecutionView) -> bool {
    |a: WorkflowExecutionView, b: WorkflowExecutionView|
        b.started_at.order() < a.started_at.order()
}

/// The order by start is a strict one, so that listings run from the latest to
/// the earliest.
pub proof fn newest_first_is_strict()
    ensures
        sorting::strict_order(newest_first()),
{
}

/// A page of executions lists them from the latest to the earliest, and none
/// that was not asked for.
pub proof fn pages_are_newest_first(
    rows: Seq<RowView<WorkflowExecutionView>>,
    keep: spec_fn(RowView<WorkflowExecutionView>) -> bool,
    offset: nat,
    limit: nat,
    i: int,
    j: int,
)
    requires
        0 <= i < j < sorting::page(
            sorting::ordered(store::selected(rows, keep), newest_first()),
            offset,
            limit,
        ).len(),
    ensures
        ({
            let listed = sorting::page(
                sorting::ordered(store::selected(rows, keep), newest_first()),
                offset,
                limit,
            );
            &&& listed.len() <= limit
            &&& listed[i].started_at.order() >= listed[j].started_at.order()
            &&& store::selected(rows, keep).contains(listed[i])
        }),
{
    let chosen = store::selected(rows, keep);
    let all = sorting::ordered(chosen, newest_first());
    newest_first_is_strict();
    sorting::ordered_sorts(chosen, newest_first());
    let listed = sorting::page(all, offset, limit);
    assert(listed[i] == all[offset + i]);
    assert(listed[j] == all[offset + j]);
    assert(!newest_first()(all[offset + j], all[offset + i]));
    broadcast use vstd::seq_lib::group_to_multiset_ensures;

    assert(all.to_multiset().count(all[offset + i]) > 0);
    assert(chosen.to_multiset().count(all[offset + i]) > 0);
}

impl InMemoryWorkflowExecutionRepository {
    /// A repository without executions.
    pub fn new() -> (r: Self)
        ensures
            r.executions@ == Seq::<RowView<WorkflowExecutionView>>::empty(),
            store::keyed::<WorkflowExecution>(r.executions@),
    {
        InMemoryWorkflowExecutionRepository { executions: TenantStore::new() }
    }

    /// Keeps a copy of `execution` under the tenant.
    pub fn save_for_tenant(
        &mut self,
        tenant_id: &TenantId,
        execution: &WorkflowExecution,
    ) -> (r: Result<(), RepositoryError>)
        ensures
            r is Ok,
            final(self).executions@ == store::saved(
                old(self).executions@,
                tenant_id@,
                execution.id.0.bits,
                execution@,
            ),
            store::lookup(final(self).executions@, tenant_id@, execution.id.0.bits) == Some(
                execution@,
            ),
            store::distinct(final(self).executions@),
            store::keyed::<WorkflowExecution>(final(self).executions@),
    {
        self.executions.save(tenant_id, execution.duplicate());
        Ok(())
    }

    /// The execution under the identifier in the tenant.
    pub fn find_by_id_for_tenant(&self, tenant_id: &TenantId, id: ExecutionId) -> (r: Result<
        Option<WorkflowExecution>,
        RepositoryError,
    >)
        ensures
            r is Ok,
            match r->Ok_0 {
                Some(execution) => store::lookup(self.executions@, tenant_id@, id.0.bits) == Some(
                    execution@,
                ),
                None => store::lookup(self.executions@, tenant_id@, id.0.bits) is None,
            },
    {
        Ok(self.executions.get(tenant_id, id.0.bits))
    }

    /// The tenant of the execution under the identifier.
    pub fn find_tenant_id_by_execution(&self, id: ExecutionId) -> (r: Result<
        Option<TenantId>,
        RepositoryError,
    >)
        ensures
            r is Ok,
            match r->Ok_0 {
                Some(tenant) => store::first_with_id(self.executions@, id.0.bits) matches Some(i)
                    && 0 <= i < self.executions@.len() && self.executions@[i].id == id.0.bits
                    && tenant@ == self.executions@[i].tenant,
                None => store::first_with_id(self.executions@, id.0.bits) is None,
            },
    {
        match self.executions.first(id.0.bits) {
            Some((tenant, _)) => Ok(Some(tenant)),
            None => Ok(None),
        }
    }

    /// The running executions of the tenant.
    pub fn find_active_for_tenant(&self, tenant_id: &TenantId) -> (r: Result<
        Vec<WorkflowExecution>,
        RepositoryError,
    >)
        ensures
            r is Ok,
            sorting::views(r->Ok_0@) == store::selected(self.executions@, running(tenant_id@)),
    {
        Ok(
            self.executions.select(
                |row: &WorkflowExecutionRow| -> (b: bool)
                    ensures
                        b == running(tenant_id@)(row@)
                    {
                        row.tenant.same(tenant_id) && row.value.status == ExecutionStatus::Running
                    },
                Ghost(running(tenant_id@)),
            ),
        )
    }

    /// A page of the executions of a workflow in the tenant, the latest first.
    pub fn find_by_workflow_for_tenant(
        &self,
        tenant_id: &TenantId,
        workflow_id: WorkflowId,
        limit: usize,
        offset: usize,
    ) -> (r: Result<Vec<WorkflowExecution>, RepositoryError>)
        ensures
            r is Ok,
            sorting::views(r->Ok_0@) == sorting::page(
                sorting::ordered(
                    store::selected(self.executions@, of_workflow(tenant_id@, workflow_id)),
                    newest_first(),
                ),
                offset as nat,
                limit as nat,
            ),
    {
        let found = self.executions.select(
            |row: &WorkflowExecutionRow| -> (b: bool)
                ensures
                    b == of_workflow(tenant_id@, workflow_id)(row@)
                { row.tenant.same(tenant_id) && row.value.workflow_id == workflow_id },
            Ghost(of_workflow(tenant_id@, workflow_id)),
        );
        Ok(sorting::take_page(Self::sort_newest_first(found), offset, limit))
    }

    fn sort_newest_first(found: Vec<WorkflowExecution>) -> (r: Vec<WorkflowExecution>)
        ensures
            sorting::views(r@) == sorting::ordered(sorting::views(found@), newest_first()),
    {
        sorting::sort(
            found,
            |a: &WorkflowExecution, b: &WorkflowExecution| -> (x: bool)
                ensures
                    x == newest_first()(a@, b@)
                { b.started_at.before(&a.started_at) },
            Ghost(newest_first()),
        )
    }

    /// Links an execution to its run: in memory no such link is kept.
    pub fn update_temporal_linkage_for_tenant(
        &mut self,
        _tenant_id: &TenantId,
        _execution_id: ExecutionId,
        _temporal_workflow_id: &str,
        _temporal_run_id: &str,
    ) -> (r: Result<(), RepositoryError>)
        ensures
            r is Ok,
            final(self).executions@ == old(self).executions@,
    {
        Ok(())
    }

    /// Appends to the event log: in memory there is none.
    pub fn append_event(
        &mut self,
        _execution_id: ExecutionId,
        _sequence_number: i64,
        _event_type: String,
        _payload: serde_json::Value,
        _iteration_number: Option<u8>,
    ) -> (r: Result<(), RepositoryError>)
        ensures
            r is Ok,
            final(self).executions@ == old(self).executions@,
    {
        Ok(())
    }

    /// A page of the event log: in memory there is none.
    pub fn find_events_by_execution(&self, _id: ExecutionId, _limit: usize, _offset: usize) -> (r:
        Result<Vec<WorkflowExecutionEventRecord>, RepositoryError>)
        ensures
            r is Ok,
            r->Ok_0@.len() == 0,
    {
        Ok(Vec::new())
    }

    /// How many executions of the workflow there are in the tenant.
    pub fn count_by_workflow_for_tenant(
        &self,
        tenant_id: &TenantId,
        workflow_id: WorkflowId,
    ) -> (r: Result<i64, RepositoryError>)
        ensures
            r is Ok,
            r->Ok_0 == store::selected(
                self.executions@,
                of_workflow(tenant_id@, workflow_id),
            ).len() as i64,
    {
        let n: usize = self.executions.count(
            |row: &WorkflowExecutionRow| -> (b: bool)
                ensures
                    b == of_workflow(tenant_id@, workflow_id)(row@)
                { row.tenant.same(tenant_id) && row.value.workflow_id == workflow_id },
            Ghost(of_workflow(tenant_id@, workflow_id)),
        );
        Ok(n as i64)
    }

    /// A page of the executions of the tenant, the latest first.
    pub fn list_paginated_for_tenant(
        &self,
        tenant_id: &TenantId,
        limit: usize,
        offset: usize,
    ) -> (r: Result<Vec<WorkflowExecution>, RepositoryError>)
        ensures
            r is Ok,
            sorting::views(r->Ok_0@) == sorting::page(
                sorting::ordered(
                    store::selected(self.executions@, of_tenant(tenant_id@)),
                    newest_first(),
                ),
                offset as nat,
                limit as nat,
            ),
    {
        let found = self.executions.select(
            |row: &WorkflowExecutionRow| -> (b: bool)
                ensures
                    b == of_tenant(tenant_id@)(row@)
                { row.tenant.same(tenant_id) },
            Ghost(of_tenant(tenant_id@)),
        );
        Ok(sorting::take_page(Self::sort_newest_first(found), offset, limit))
    }

    /// A page of the executions of every tenant, the latest first.
    pub fn list_paginated_all(&self, limit: usize, offset: usize) -> (r: Result<
        Vec<WorkflowExecution>,
        RepositoryError,
    >)
        ensures
            r is Ok,
            sorting::views(r->Ok_0@) == sorting::page(
                sorting::ordered(
                    store::selected(self.executions@, any_execution()),
                    newest_first(),
                ),
                offset as nat,
                limit as nat,
            ),
    {
        let found = self.executions.select(
            |row: &WorkflowExecutionRow| -> (b: bool)
                ensures
                    b == any_execution()(row@)
                { true },
            Ghost(any_execution()),
        );
        Ok(sorting::take_page(Self::sort_newest_first(found), offset, limit))
    }
}

impl Default for InMemoryWorkflowExecutionRepository {
    fn default() -> (r: Self)
        ensures
            r.executions@ == Seq::<RowView<WorkflowExecutionView>>::empty(),
            store::keyed::<WorkflowExecution>(r.executions@),
    {
        InMemoryWorkflowExecutionRepository::new()
    }
}

/// Each list and count of executions is of exactly those asked for, in the
/// order in which they are kept. Only what runs is active: what waits or has
/// ended is not.
pub proof fn lists_hold_what_is_asked_for(
    rows: Seq<RowView<WorkflowExecutionView>>,
    tenant: Seq<char>,
    workflow_id: WorkflowId,
)
    ensures
        store::selected(rows, any_execution()) == rows.map_values(
            |row: RowView<WorkflowExecutionView>| row.value,
        ),
        store::selected(rows, of_tenant(tenant)) == store::values_where(
            rows,
            |row: RowView<WorkflowExecutionView>| row.tenant == tenant,
        ),
        store::selected(rows, of_workflow(tenant, workflow_id)) == store::values_where(
            rows,
            |row: RowView<WorkflowExecutionView>| row.tenant == tenant && row.value.workflow_id == workflow_id,
        ),
        store::selected(rows, running(tenant)) == store::values_where(
            rows,
            |row: RowView<WorkflowExecutionView>|
                row.tenant == tenant && row.value.status is Running,
        ),
{
    store::selections_keep_order(rows, any_execution());
    store::selections_keep_order(rows, of_tenant(tenant));
    store::selections_keep_order(rows, of_workflow(tenant, workflow_id));
    store::selections_keep_order(rows, running(tenant));
    lemma_all_are_kept(rows);
    assert(of_tenant(tenant) =~= |row: RowView<WorkflowExecutionView>| row.tenant == tenant);
    assert(of_workflow(tenant, workflow_id) =~= |row: RowView<WorkflowExecutionView>|
        row.tenant == tenant && row.value.workflow_id == workflow_id);
    assert(running(tenant) =~= |row: RowView<WorkflowExecutionView>|
        row.tenant == tenant && row.value.status is Running);
}

proof fn lemma_all_are_kept(rows: Seq<RowView<WorkflowExecutionView>>)
    ensures
        rows.filter(any_execution()) == rows,
    decreases rows.len(),
{
    reveal(Seq::filter);
    if rows.len() > 0 {
        lemma_all_are_kept(rows.drop_last());
        assert(rows.drop_last().push(rows.last()) =~= rows);
    }
}

/// Of two executions the one that started later is listed first.
pub proof fn later_starts_come_first(a: WorkflowExecutionView, b: WorkflowExecutionView)
    ensures
        newest_first()(a, b) <==> b.started_at.seconds < a.started_at.seconds || (
        b.started_at.seconds == a.started_at.seconds && b.started_at.nanos < a.started_at.nanos),
{
}

} // verus!

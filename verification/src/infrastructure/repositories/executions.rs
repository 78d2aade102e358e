//! Agent executions in memory.

use vstd::prelude::*;
use crate::domain::execution::{Execution, ExecutionStatus, ExecutionView};
use crate::domain::repository::RepositoryError;
use crate::domain::shared_kernel::{AgentId, ExecutionId, TenantId, WorkflowId};
use crate::infrastructure::repositories::store;
use crate::infrastructure::repositories::store::{Row, RowView, TenantStore};
use crate::support::sorting;
use crate::support::stored::Stored;

verus! {

/// Executions by tenant and identifier, kept in memory.
pub struct InMemoryExecutionRepository {
    pub executions: TenantStore<Execution>,
}

/// An execution with what it is kept under.
pub type ExecutionRow = Row<Execution>;

/// Executions of a tenant.
pub open spec fn of_tenant(tenant: Seq<char>) -> spec_fn(RowView<ExecutionView>) -> bool {
    |row: RowView<ExecutionView>| row.tenant == tenant
}

/// Executions of an agent in a tenant.
pub open spec fn of_agent(tenant: Seq<char>, agent_id: AgentId) -> spec_fn(
    RowView<ExecutionView>,
) -> bool {
    |row: RowView<ExecutionView>| row.tenant == tenant && row.value.agent_id == agent_id
}

/// Every execution.
pub open spec fn any_execution() -> spec_fn(RowView<ExecutionView>) -> bool {
    |row: RowView<ExecutionView>| true
}

/// Executions of a tenant that run or wait to.
pub open spec fn running(tenant: Seq<char>) -> spec_fn(RowView<ExecutionView>) -> bool {
    |row: RowView<ExecutionView>|
        row.tenant == tenant && (row.value.status == ExecutionStatus::Running || row.value.status
            == ExecutionStatus::Pending)
}

/// The order of executions by start, the latest first.
pub open spec fn newest_first() -> spec_fn(ExecutionView, ExecutionView) -> bool {
    |a: ExecutionView, b: ExecutionView| b.started_at.order() < a.started_at.order()
}

/// The order by start is a strict one.
pub proof fn newest_first_is_strict()
    ensures
        sorting::strict_order(newest_first()),
{
}

/// A page of the newest executions lists them from the latest to the earliest,
/// and nothing that is not there.
pub proof fn pages_are_newest_first(
    rows: Seq<RowView<ExecutionView>>,
    keep: spec_fn(RowView<ExecutionView>) -> bool,
    offset: nat,
    limit: nat,
    i: int,
    j: int,
)
    requires
        0 <= i < j < sorting::page(
            sorting::ordered(store::selected(rows, keep), newest_first()),
            offset,
            limit,
        ).len(),
    ensures
        ({
            let listed = sorting::page(
                sorting::ordered(store::selected(rows, keep), newest_first()),
                offset,
                limit,
            );
            &&& listed.len() <= limit
            &&& listed[i].started_at.order() >= listed[j].started_at.order()
            &&& store::selected(rows, keep).contains(listed[i])
        }),
{
    let chosen = store::selected(rows, keep);
    let all = sorting::ordered(chosen, newest_first());
    newest_first_is_strict();
    sorting::ordered_sorts(chosen, newest_first());
    let listed = sorting::page(all, offset, limit);
    assert(listed[i] == all[offset + i]);
    assert(listed[j] == all[offset + j]);
    assert(!newest_first()(all[offset + j], all[offset + i]));
    broadcast use vstd::seq_lib::group_to_multiset_ensures;

    assert(all.to_multiset().count(all[offset + i]) > 0);
    assert(chosen.to_multiset().count(all[offset + i]) > 0);
}

impl InMemoryExecutionRepository {
    /// A repository without executions.
    pub fn new() -> (r: Self)
        ensures
            r.executions@ == Seq::<RowView<ExecutionView>>::empty(),
            store::keyed::<Execution>(r.executions@),
    {
        InMemoryExecutionRepository { executions: TenantStore::new() }
    }

    /// Keeps a copy of `execution` under the tenant.
    pub fn save_for_tenant(&mut self, tenant_id: &TenantId, execution: &Execution) -> (r: Result<
        (),
        RepositoryError,
    >)
        ensures
            r is Ok,
            final(self).executions@ == store::saved(
                old(self).executions@,
                tenant_id@,
                execution.id.0.bits,
                execution@,
            ),
            store::lookup(final(self).executions@, tenant_id@, execution.id.0.bits) == Some(
                execution@,
            ),
            store::distinct(final(self).executions@),
            store::keyed::<Execution>(final(self).executions@),
    {
        self.executions.save(tenant_id, execution.duplicate());
        Ok(())
    }

    /// The execution under the identifier in the tenant.
    pub fn find_by_id_for_tenant(&self, tenant_id: &TenantId, id: ExecutionId) -> (r: Result<
        Option<Execution>,
        RepositoryError,
    >)
        ensures
            r is Ok,
            match r->Ok_0 {
                Some(execution) => store::lookup(self.executions@, tenant_id@, id.0.bits) == Some(
                    execution@,
                ),
                None => store::lookup(self.executions@, tenant_id@, id.0.bits) is None,
            },
    {
        Ok(self.executions.get(tenant_id, id.0.bits))
    }

    /// The latest executions of an agent in the tenant.
    pub fn find_by_agent_for_tenant(
        &self,
        tenant_id: &TenantId,
        agent_id: AgentId,
        limit: usize,
    ) -> (r: Result<Vec<Execution>, RepositoryError>)
        ensures
            r is Ok,
            sorting::views(r->Ok_0@) == sorting::page(
                sorting::ordered(
                    store::selected(self.executions@, of_agent(tenant_id@, agent_id)),
                    newest_first(),
                ),
                0,
                limit as nat,
            ),
    {
        let found = self.executions.select(
            |row: &ExecutionRow| -> (b: bool)
                ensures
                    b == of_agent(tenant_id@, agent_id)(row@)
                { row.tenant.same(tenant_id) && row.value.agent_id == agent_id },
            Ghost(of_agent(tenant_id@, agent_id)),
        );
        Ok(sorting::take_page(Self::sort_newest_first(found), 0, limit))
    }

    /// The executions of a workflow: in memory that relation is not kept.
    pub fn find_by_workflow_for_tenant(
        &self,
        _tenant_id: &TenantId,
        _workflow_id: WorkflowId,
        _limit: usize,
    ) -> (r: Result<Vec<Execution>, RepositoryError>)
        ensures
            r is Ok,
            r->Ok_0@.len() == 0,
    {
        Ok(Vec::new())
    }

    /// The latest executions of the tenant.
    pub fn find_recent_for_tenant(&self, tenant_id: &TenantId, limit: usize) -> (r: Result<
        Vec<Execution>,
        RepositoryError,
    >)
        ensures
            r is Ok,
            sorting::views(r->Ok_0@) == sorting::page(
                sorting::ordered(
                    store::selected(self.executions@, of_tenant(tenant_id@)),
                    newest_first(),
                ),
                0,
                limit as nat,
            ),
    {
        let found = self.executions.select(
            |row: &ExecutionRow| -> (b: bool)
                ensures
                    b == of_tenant(tenant_id@)(row@)
                { row.tenant.same(tenant_id) },
            Ghost(of_tenant(tenant_id@)),
        );
        Ok(sorting::take_page(Self::sort_newest_first(found), 0, limit))
    }

    /// A page of the executions of every tenant, the latest first.
    pub fn list_recent_all_paginated(&self, limit: usize, offset: usize) -> (r: Result<
        Vec<Execution>,
        RepositoryError,
    >)
        ensures
            r is Ok,
            sorting::views(r->Ok_0@) == sorting::page(
                sorting::ordered(
                    store::selected(self.executions@, any_execution()),
                    newest_first(),
                ),
                offset as nat,
                limit as nat,
            ),
    {
        let found = self.executions.select(
            |row: &ExecutionRow| -> (b: bool)
                ensures
                    b == any_execution()(row@)
                { true },
            Ghost(any_execution()),
        );
        Ok(sorting::take_page(Self::sort_newest_first(found), offset, limit))
    }

    fn sort_newest_first(found: Vec<Execution>) -> (r: Vec<Execution>)
        ensures
            sorting::views(r@) == sorting::ordered(sorting::views(found@), newest_first()),
    {
        sorting::sort(
            found,
            |a: &Execution, b: &Execution| -> (x: bool)
                ensures
                    x == newest_first()(a@, b@)
                { b.started_at.before(&a.started_at) },
            Ghost(newest_first()),
        )
    }

    /// Drops the execution under the identifier in the tenant, if there is one.
    pub fn delete_for_tenant(&mut self, tenant_id: &TenantId, id: ExecutionId) -> (r: Result<
        (),
        RepositoryError,
    >)
        ensures
            r is Ok,
            final(self).executions@ == store::deleted(old(self).executions@, tenant_id@, id.0.bits),
            store::lookup(final(self).executions@, tenant_id@, id.0.bits) is None,
            store::distinct(final(self).executions@),
            store::keyed::<Execution>(final(self).executions@),
    {
        self.executions.delete(tenant_id, id.0.bits);
        Ok(())
    }

    /// How many executions of the agent there are in the tenant.
    pub fn count_by_agent_for_tenant(&self, tenant_id: &TenantId, agent_id: AgentId) -> (r: Result<
        i64,
        RepositoryError,
    >)
        ensures
            r is Ok,
            r->Ok_0 == store::selected(
                self.executions@,
                of_agent(tenant_id@, agent_id),
            ).len() as i64,
    {
        let n: usize = self.executions.count(
            |row: &ExecutionRow| -> (b: bool)
                ensures
                    b == of_agent(tenant_id@, agent_id)(row@)
                { row.tenant.same(tenant_id) && row.value.agent_id == agent_id },
            Ghost(of_agent(tenant_id@, agent_id)),
        );
        Ok(n as i64)
    }

    /// The execution under the identifier, in whatever tenant. Where several
    /// tenants have one it is the one kept first.
    pub fn find_by_id_unscoped(&self, id: ExecutionId) -> (r: Result<
        Option<Execution>,
        RepositoryError,
    >)
        ensures
            r is Ok,
            match r->Ok_0 {
                Some(execution) => store::first_with_id(self.executions@, id.0.bits) matches Some(i)
                    && 0 <= i < self.executions@.len() && self.executions@[i].id == id.0.bits
                    && execution@ == self.executions@[i].value,
                None => store::first_with_id(self.executions@, id.0.bits) is None,
            },
    {
        match self.executions.first(id.0.bits) {
            Some((_, execution)) => Ok(Some(execution)),
            None => Ok(None),
        }
    }

    /// How many executions of the tenant run or wait to.
    pub fn count_running(&self, tenant_id: &TenantId) -> (r: Result<u64, RepositoryError>)
        ensures
            r is Ok,
            r->Ok_0 == store::selected(self.executions@, running(tenant_id@)).len(),
    {
        let n: usize = self.executions.count(
            |row: &ExecutionRow| -> (b: bool)
                ensures
                    b == running(tenant_id@)(row@)
                {
                    row.tenant.same(tenant_id) && (row.value.status == ExecutionStatus::Running
                        || row.value.status == ExecutionStatus::Pending)
                },
            Ghost(running(tenant_id@)),
        );
        Ok(n as u64)
    }
}

impl Default for InMemoryExecutionRepository {
    fn default() -> (r: Self)
        ensures
            r.executions@ == Seq::<RowView<ExecutionView>>::empty(),
            store::keyed::<Execution>(r.executions@),
    {
        InMemoryExecutionRepository::new()
    }
}

/// Each list and count of executions is of exactly those asked for, in the
/// order in which they are kept. What waits to run counts as running; what has
/// ended does not.
pub proof fn lists_hold_what_is_asked_for(
    rows: Seq<RowView<ExecutionView>>,
    tenant: Seq<char>,
    agent_id: AgentId,
)
    ensures
        store::selected(rows, any_execution()) == rows.map_values(
            |row: RowView<ExecutionView>| row.value,
        ),
        store::selected(rows, of_tenant(tenant)) == store::values_where(
            rows,
            |row: RowView<ExecutionView>| row.tenant == tenant,
        ),
        store::selected(rows, of_agent(tenant, agent_id)) == store::values_where(
            rows,
            |row: RowView<ExecutionView>| row.tenant == tenant && row.value.agent_id == agent_id,
        ),
        store::selected(rows, running(tenant)) == store::values_where(
            rows,
            |row: RowView<ExecutionView>|
                row.tenant == tenant && (row.value.status is Running || row.value.status is Pending),
        ),
{
    store::selections_keep_order(rows, any_execution());
    store::selections_keep_order(rows, of_tenant(tenant));
    store::selections_keep_order(rows, of_agent(tenant, agent_id));
    store::selections_keep_order(rows, running(tenant));
    lemma_all_are_kept(rows);
    assert(of_tenant(tenant) =~= |row: RowView<ExecutionView>| row.tenant == tenant);
    assert(of_agent(tenant, agent_id) =~= |row: RowView<ExecutionView>|
        row.tenant == tenant && row.value.agent_id == agent_id);
    assert(running(tenant) =~= |row: RowView<ExecutionView>|
        row.tenant == tenant && (row.value.status is Running || row.value.status is Pending));
}

proof fn lemma_all_are_kept(rows: Seq<RowView<ExecutionView>>)
    ensures
        rows.filter(any_execution()) == rows,
    decreases rows.len(),
{
    reveal(Seq::filter);
    if rows.len() > 0 {
        lemma_all_are_kept(rows.drop_last());
        assert(rows.drop_last().push(rows.last()) =~= rows);
    }
}

/// Of two executions the one that started later is listed first.
pub proof fn later_starts_come_first(a: ExecutionView, b: ExecutionView)
    ensures
        newest_first()(a, b) <==> b.started_at.seconds < a.started_at.seconds || (
        b.started_at.seconds == a.started_at.seconds && b.started_at.nanos < a.started_at.nanos),
{
}

} // verus!

//! Workflows in memory.

use vstd::prelude::*;
use crate::domain::repository::RepositoryError;
use crate::domain::shared_kernel;
use crate::domain::shared_kernel::{TenantId, WorkflowId};
use crate::domain::workflow::{Workflow, WorkflowScope};
use crate::infrastructure::repositories::store;
use crate::infrastructure::repositories::store::{Row, RowView, TenantStore};
use crate::support::failure::Failure;
use crate::support::sorting;
use crate::support::text::same_text;

verus! {

/// Workflows by tenant and identifier, kept in memory.
pub struct InMemoryWorkflowRepository {
    pub workflows: TenantStore<Workflow>,
}

/// A workflow with what it is kept under.
pub type WorkflowRow = Row<Workflow>;

/// Workflows of a tenant.
pub open spec fn of_tenant(tenant: Seq<char>) -> spec_fn(RowView<Workflow>) -> bool {
    |row: RowView<Workflow>| row.tenant == tenant
}

/// Every workflow.
pub open spec fn any_workflow() -> spec_fn(RowView<Workflow>) -> bool {
    |row: RowView<Workflow>| true
}

/// Workflows of a tenant with the given name.
pub open spec fn named(tenant: Seq<char>, name: Seq<char>) -> spec_fn(RowView<Workflow>) -> bool {
    |row: RowView<Workflow>| row.tenant == tenant && row.value.metadata.name@ == name
}

/// Whether a workflow has the given version.
pub open spec fn has_version(workflow: Workflow, version: Seq<char>) -> bool {
    workflow.metadata.version matches Some(v) && v@ == version
}

/// Workflows of a tenant with the given name and version.
pub open spec fn named_version(
    tenant: Seq<char>,
    name: Seq<char>,
    version: Seq<char>,
) -> spec_fn(RowView<Workflow>) -> bool {
    |row: RowView<Workflow>|
        row.tenant == tenant && row.value.metadata.name@ == name && has_version(row.value, version)
}

/// Workflows of a tenant with the given scope.
pub open spec fn of_scope(tenant: Seq<char>, scope: WorkflowScope) -> spec_fn(
    RowView<Workflow>,
) -> bool {
    |row: RowView<Workflow>| row.tenant == tenant && row.value.scope == scope
}

/// Workflows of a tenant with the given scope and name.
pub open spec fn named_scope(tenant: Seq<char>, scope: WorkflowScope, name: Seq<char>) -> spec_fn(
    RowView<Workflow>,
) -> bool {
    |row: RowView<Workflow>|
        row.tenant == tenant && row.value.scope == scope && row.value.metadata.name@ == name
}

/// Workflows of a tenant with the given scope, name and version.
pub open spec fn named_scope_version(
    tenant: Seq<char>,
    scope: WorkflowScope,
    name: Seq<char>,
    version: Seq<char>,
) -> spec_fn(RowView<Workflow>) -> bool {
    |row: RowView<Workflow>|
        row.tenant == tenant && row.value.scope == scope && row.value.metadata.name@ == name
            && has_version(row.value, version)
}

/// Whether version `a` comes before version `b`; no version comes before any.
pub open spec fn version_before(a: Option<String>, b: Option<String>) -> bool {
    match (a, b) {
        (None, Some(_)) => true,
        (Some(x), Some(y)) => sorting::text_before(x@, y@),
        _ => false,
    }
}

fn is_version_before(a: &Option<String>, b: &Option<String>) -> (r: bool)
    ensures
        r == version_before(*a, *b),
{
    match (a, b) {
        (None, Some(_)) => true,
        (Some(x), Some(y)) => sorting::comes_before(x.as_str(), y.as_str()),
        _ => false,
    }
}

/// The order of workflows by version.
pub open spec fn by_version() -> spec_fn(Workflow, Workflow) -> bool {
    |a: Workflow, b: Workflow| version_before(a.metadata.version, b.metadata.version)
}

/// The order of workflows by version, the greatest first.
pub open spec fn by_version_down() -> spec_fn(Workflow, Workflow) -> bool {
    |a: Workflow, b: Workflow| version_before(b.metadata.version, a.metadata.version)
}

/// The order of workflows by name.
pub open spec fn by_name() -> spec_fn(Workflow, Workflow) -> bool {
    |a: Workflow, b: Workflow| sorting::text_before(a.metadata.name@, b.metadata.name@)
}

/// The order of workflows by creation, the latest first.
pub open spec fn newest_first() -> spec_fn(Workflow, Workflow) -> bool {
    |a: Workflow, b: Workflow| b.created_at.order() < a.created_at.order()
}

/// The orders by name, by version and by creation are strict ones.
pub proof fn orders_are_strict()
    ensures
        sorting::strict_order(by_name()),
        sorting::strict_order(by_version()),
        sorting::strict_order(by_version_down()),
        sorting::strict_order(newest_first()),
{
    sorting::text_order_is_strict();
    let lt = |a: Seq<char>, b: Seq<char>| sorting::text_before(a, b);
    assert forall|a: Workflow, b: Workflow| #[trigger] by_name()(a, b) implies !by_name()(b, a) by {
        assert(lt(a.metadata.name@, b.metadata.name@));
    }
    assert forall|a: Workflow, b: Workflow, c: Workflow|
        !#[trigger] by_name()(b, a) && !#[trigger] by_name()(c, b) implies !by_name()(c, a) by {
        assert(!lt(b.metadata.name@, a.metadata.name@));
        assert(!lt(c.metadata.name@, b.metadata.name@));
    }
    assert forall|a: Option<String>, b: Option<String>| #[trigger] version_before(
        a,
        b,
    ) implies !version_before(b, a) by {
        if a is Some && b is Some {
            assert(lt(a->0@, b->0@));
        }
    }
    assert forall|a: Option<String>, b: Option<String>, c: Option<String>|
        !#[trigger] version_before(b, a) && !#[trigger] version_before(c, b) implies !version_before(
        c,
        a,
    ) by {
        if a is Some && b is Some && c is Some {
            assert(!lt(b->0@, a->0@));
            assert(!lt(c->0@, b->0@));
        }
    }
}

/// The workflow of a tenant with the given name and the greatest version.
pub open spec fn latest(rows: Seq<RowView<Workflow>>, tenant: Seq<char>, name: Seq<char>) -> Option<
    Workflow,
> {
    sorting::greatest(store::selected(rows, named(tenant, name)), by_version())
}

/// The first of `s`, if there is one.
pub open spec fn first(s: Seq<Workflow>) -> Option<Workflow> {
    if s.len() > 0 {
        Some(s[0])
    } else {
        None
    }
}

/// `a`, or `b` where `a` is none.
pub open spec fn or_else(a: Option<Workflow>, b: Option<Workflow>) -> Option<Workflow> {
    if a is Some {
        a
    } else {
        b
    }
}

/// The workflow that a name stands for within a tenant: the tenant's own of
/// tenant scope and the greatest version, else the system tenant's of global
/// scope and the greatest version.
pub open spec fn resolved(rows: Seq<RowView<Workflow>>, tenant: Seq<char>, name: Seq<char>) -> Option<
    Workflow,
> {
    or_else(
        first(
            sorting::ordered(
                store::selected(rows, named_scope(tenant, WorkflowScope::Tenant, name)),
                by_version_down(),
            ),
        ),
        first(
            sorting::ordered(
                store::selected(
                    rows,
                    named_scope(shared_kernel::system_slug(), WorkflowScope::Global, name),
                ),
                by_version_down(),
            ),
        ),
    )
}

/// The workflow that a name and a version stand for within a tenant.
pub open spec fn resolved_version(
    rows: Seq<RowView<Workflow>>,
    tenant: Seq<char>,
    name: Seq<char>,
    version: Seq<char>,
) -> Option<Workflow> {
    or_else(
        first(
            store::selected(
                rows,
                named_scope_version(tenant, WorkflowScope::Tenant, name, version),
            ),
        ),
        first(
            store::selected(
                rows,
                named_scope_version(
                    shared_kernel::system_slug(),
                    WorkflowScope::Global,
                    name,
                    version,
                ),
            ),
        ),
    )
}

/// The system tenant's workflows of global scope.
pub open spec fn global(rows: Seq<RowView<Workflow>>) -> Seq<Workflow> {
    store::selected(rows, of_scope(shared_kernel::system_slug(), WorkflowScope::Global))
}

/// The workflow under an identifier in a tenant, else in the system tenant.
pub open spec fn found_visible(rows: Seq<RowView<Workflow>>, tenant: Seq<char>, id: u128) -> Option<
    Workflow,
> {
    or_else(
        store::lookup(rows, tenant, id),
        store::lookup(rows, shared_kernel::system_slug(), id),
    )
}

/// The rows after the workflow in the `i`th was moved to another scope and
/// tenant.
pub open spec fn rescoped(
    rows: Seq<RowView<Workflow>>,
    i: int,
    id: WorkflowId,
    scope: WorkflowScope,
    tenant_id: TenantId,
) -> Seq<RowView<Workflow>> {
    store::saved(
        store::deleted(rows, rows[i].tenant, id.0.bits),
        tenant_id@,
        id.0.bits,
        Workflow { scope, tenant_id, ..rows[i].value },
    )
}

/// After a change of scope the workflow is found under the new tenant, with the
/// new scope, and under its former tenant no more.
pub proof fn rescoped_workflow_has_moved(
    rows: Seq<RowView<Workflow>>,
    id: WorkflowId,
    scope: WorkflowScope,
    tenant_id: TenantId,
    i: int,
)
    requires
        store::distinct(rows),
        store::first_with_id(rows, id.0.bits) == Some(i),
        0 <= i < rows.len(),
    ensures
        store::lookup(rescoped(rows, i, id, scope, tenant_id), tenant_id@, id.0.bits) == Some(
            Workflow { scope, tenant_id, ..rows[i].value },
        ),
        rows[i].tenant != tenant_id@ ==> store::lookup(
            rescoped(rows, i, id, scope, tenant_id),
            rows[i].tenant,
            id.0.bits,
        ) is None,
{
    let without = store::deleted(rows, rows[i].tenant, id.0.bits);
    let workflow = Workflow { scope, tenant_id, ..rows[i].value };
    store::deleted_is_gone(rows, rows[i].tenant, id.0.bits, rows[i].tenant, id.0.bits);
    store::saved_is_found(without, tenant_id@, id.0.bits, workflow, rows[i].tenant, id.0.bits);
}

/// What a tenant sees is its own workflows of tenant scope and the system
/// tenant's of global scope, all of them and nothing of any other tenant.
pub proof fn other_tenants_are_invisible(
    rows: Seq<RowView<Workflow>>,
    tenant: Seq<char>,
    workflow: Workflow,
)
    ensures
        sorting::ordered(
            store::selected(rows, of_scope(tenant, WorkflowScope::Tenant)) + global(rows),
            by_name(),
        ).contains(workflow) <==> exists|i: int|
            0 <= i < rows.len() && (#[trigger] rows[i]).value == workflow && ((rows[i].tenant
                == tenant && workflow.scope == WorkflowScope::Tenant) || (rows[i].tenant
                == shared_kernel::system_slug() && workflow.scope == WorkflowScope::Global)),
{
    let own_keep = of_scope(tenant, WorkflowScope::Tenant);
    let shared_keep = of_scope(shared_kernel::system_slug(), WorkflowScope::Global);
    let own = store::selected(rows, own_keep);
    let shared = global(rows);
    let sorted = sorting::ordered(own + shared, by_name());
    orders_are_strict();
    sorting::ordered_sorts(own + shared, by_name());
    store::selected_is_exact(rows, own_keep, workflow);
    store::selected_is_exact(rows, shared_keep, workflow);
    broadcast use vstd::seq_lib::group_to_multiset_ensures;

    assert(sorted.contains(workflow) <==> (own + shared).contains(workflow)) by {
        assert(sorted.contains(workflow) <==> sorted.to_multiset().count(workflow) > 0);
        assert((own + shared).contains(workflow) <==> (own + shared).to_multiset().count(workflow)
            > 0);
    }
    if own.contains(workflow) {
        let k = choose|k: int| 0 <= k < own.len() && own[k] == workflow;
        assert((own + shared)[k] == workflow);
    }
    if shared.contains(workflow) {
        let k = choose|k: int| 0 <= k < shared.len() && shared[k] == workflow;
        assert((own + shared)[own.len() + k] == workflow);
    }
    if (own + shared).contains(workflow) {
        let k = choose|k: int| 0 <= k < (own + shared).len() && (own + shared)[k] == workflow;
        if k < own.len() {
            assert(own[k] == workflow);
        } else {
            assert(shared[k - own.len()] == workflow);
        }
    }
    assert forall|i: int|
        0 <= i < rows.len() && (#[trigger] rows[i]).value == workflow && ((rows[i].tenant
            == tenant && workflow.scope == WorkflowScope::Tenant) || (rows[i].tenant
            == shared_kernel::system_slug() && workflow.scope
            == WorkflowScope::Global)) implies own.contains(workflow) || shared.contains(
        workflow,
    ) by {
        assert(own_keep(rows[i]) || shared_keep(rows[i]));
    }
}

/// The first of the accepted workflows, by version from the greatest down, is
/// one of them, and none of them has a greater version.
proof fn lemma_first_has_greatest_version(
    rows: Seq<RowView<Workflow>>,
    keep: spec_fn(RowView<Workflow>) -> bool,
    i: int,
)
    requires
        0 <= i < rows.len(),
        keep(rows[i]),
    ensures
        ({
            let found = first(sorting::ordered(store::selected(rows, keep), by_version_down()));
            &&& found is Some
            &&& exists|k: int|
                0 <= k < rows.len() && keep(#[trigger] rows[k]) && rows[k].value == found->0
            &&& !version_before(found->0.metadata.version, rows[i].value.metadata.version)
        }),
{
    let chosen = store::selected(rows, keep);
    let sorted = sorting::ordered(chosen, by_version_down());
    let value = rows[i].value;
    orders_are_strict();
    sorting::ordered_sorts(chosen, by_version_down());
    store::selected_is_exact(rows, keep, value);
    broadcast use vstd::seq_lib::group_to_multiset_ensures;

    assert(chosen.contains(value));
    assert(sorted.to_multiset().count(value) > 0);
    assert(sorted.contains(value));
    let at = choose|at: int| 0 <= at < sorted.len() && sorted[at] == value;
    if at > 0 {
        assert(!by_version_down()(sorted[at], sorted[0]));
    } else if version_before(value.metadata.version, value.metadata.version) {
        assert(by_version()(value, value));
    }
    assert(sorted.to_multiset().count(sorted[0]) > 0);
    assert(chosen.to_multiset().count(sorted[0]) > 0);
    assert(chosen.contains(sorted[0]));
    store::selected_is_exact(rows, keep, sorted[0]);
}

/// A workflow of tenant scope hides the global one of the same name: the name
/// stands for one of the tenant's own, and none of these has a greater version.
pub proof fn tenant_scope_wins(
    rows: Seq<RowView<Workflow>>,
    tenant: Seq<char>,
    name: Seq<char>,
    i: int,
)
    requires
        0 <= i < rows.len(),
        rows[i].tenant == tenant,
        rows[i].value.scope == WorkflowScope::Tenant,
        rows[i].value.metadata.name@ == name,
    ensures
        resolved(rows, tenant, name) is Some,
        exists|k: int|
            0 <= k < rows.len() && (#[trigger] rows[k]).tenant == tenant && rows[k].value
                == resolved(rows, tenant, name)->0,
        resolved(rows, tenant, name)->0.scope == WorkflowScope::Tenant,
        resolved(rows, tenant, name)->0.metadata.name@ == name,
        !version_before(
            resolved(rows, tenant, name)->0.metadata.version,
            rows[i].value.metadata.version,
        ),
{
    lemma_first_has_greatest_version(rows, named_scope(tenant, WorkflowScope::Tenant, name), i);
}

/// Where a tenant has no workflow of tenant scope and the given name, the name
/// stands for a global one of the system tenant, and none of these has a
/// greater version.
pub proof fn global_scope_is_next(
    rows: Seq<RowView<Workflow>>,
    tenant: Seq<char>,
    name: Seq<char>,
    i: int,
)
    requires
        forall|k: int|
            0 <= k < rows.len() ==> !((#[trigger] rows[k]).tenant == tenant && rows[k].value.scope
                == WorkflowScope::Tenant && rows[k].value.metadata.name@ == name),
        0 <= i < rows.len(),
        rows[i].tenant == shared_kernel::system_slug(),
        rows[i].value.scope == WorkflowScope::Global,
        rows[i].value.metadata.name@ == name,
    ensures
        resolved(rows, tenant, name) is Some,
        exists|k: int|
            0 <= k < rows.len() && (#[trigger] rows[k]).tenant == shared_kernel::system_slug()
                && rows[k].value == resolved(rows, tenant, name)->0,
        resolved(rows, tenant, name)->0.scope == WorkflowScope::Global,
        resolved(rows, tenant, name)->0.metadata.name@ == name,
        !version_before(
            resolved(rows, tenant, name)->0.metadata.version,
            rows[i].value.metadata.version,
        ),
{
    let keep = named_scope(tenant, WorkflowScope::Tenant, name);
    let own = store::selected(rows, keep);
    if own.len() > 0 {
        assert(own.contains(own[0]));
        store::selected_is_exact(rows, keep, own[0]);
    }
    orders_are_strict();
    sorting::ordered_sorts(own, by_version_down());
    lemma_first_has_greatest_version(
        rows,
        named_scope(shared_kernel::system_slug(), WorkflowScope::Global, name),
        i,
    );
}

impl InMemoryWorkflowRepository {
    /// A repository without workflows.
    pub fn new() -> (r: Self)
        ensures
            r.workflows@ == Seq::<RowView<Workflow>>::empty(),
            store::keyed::<Workflow>(r.workflows@),
    {
        InMemoryWorkflowRepository { workflows: TenantStore::new() }
    }

    /// Keeps a copy of `workflow` under the tenant.
    pub fn save_for_tenant(&mut self, tenant_id: &TenantId, workflow: &Workflow) -> (r: Result<
        (),
        RepositoryError,
    >)
        ensures
            r is Ok,
            final(self).workflows@ == store::saved(
                old(self).workflows@,
                tenant_id@,
                workflow.id.0.bits,
                *workflow,
            ),
            store::lookup(final(self).workflows@, tenant_id@, workflow.id.0.bits) == Some(
                *workflow,
            ),
            store::distinct(final(self).workflows@),
            store::keyed::<Workflow>(final(self).workflows@),
    {
        self.workflows.save(tenant_id, workflow.copy());
        Ok(())
    }

    /// The workflow under the identifier in the tenant.
    pub fn find_by_id_for_tenant(&self, tenant_id: &TenantId, id: WorkflowId) -> (r: Result<
        Option<Workflow>,
        RepositoryError,
    >)
        ensures
            r == Ok::<Option<Workflow>, RepositoryError>(
                store::lookup(self.workflows@, tenant_id@, id.0.bits),
            ),
    {
        Ok(self.workflows.get(tenant_id, id.0.bits))
    }

    fn select_named(&self, tenant_id: &TenantId, name: &str) -> (r: Vec<Workflow>)
        ensures
            sorting::views(r@) == store::selected(self.workflows@, named(tenant_id@, name@)),
    {
        self.workflows.select(
            |row: &WorkflowRow| -> (b: bool)
                ensures
                    b == named(tenant_id@, name@)(row@)
                { row.tenant.same(tenant_id) && same_text(row.value.metadata.name.as_str(), name) },
            Ghost(named(tenant_id@, name@)),
        )
    }

    /// The workflow of that name in the tenant, of the greatest version.
    pub fn find_by_name_for_tenant(&self, tenant_id: &TenantId, name: &str) -> (r: Result<
        Option<Workflow>,
        RepositoryError,
    >)
        ensures
            r == Ok::<Option<Workflow>, RepositoryError>(
                latest(self.workflows@, tenant_id@, name@),
            ),
    {
        let found = self.select_named(tenant_id, name);
        Ok(
            sorting::pick_greatest(
                found,
                |a: &Workflow, b: &Workflow| -> (x: bool)
                    ensures
                        x == by_version()(a@, b@)
                    { is_version_before(&a.metadata.version, &b.metadata.version) },
                Ghost(by_version()),
            ),
        )
    }

    fn is_version(workflow: &Workflow, version: &str) -> (r: bool)
        ensures
            r == has_version(*workflow, version@),
    {
        match &workflow.metadata.version {
            Some(v) => same_text(v.as_str(), version),
            None => false,
        }
    }

    /// The workflow of that name and version in the tenant.
    pub fn find_by_name_and_version_for_tenant(
        &self,
        tenant_id: &TenantId,
        name: &str,
        version: &str,
    ) -> (r: Result<Option<Workflow>, RepositoryError>)
        ensures
            r == Ok::<Option<Workflow>, RepositoryError>(
                first(
                    store::selected(
                        self.workflows@,
                        named_version(tenant_id@, name@, version@),
                    ),
                ),
            ),
    {
        let found = self.workflows.select(
            |row: &WorkflowRow| -> (b: bool)
                ensures
                    b == named_version(tenant_id@, name@, version@)(row@)
                {
                    row.tenant.same(tenant_id) && same_text(
                        row.value.metadata.name.as_str(),
                        name,
                    ) && Self::is_version(&row.value, version)
                },
            Ghost(named_version(tenant_id@, name@, version@)),
        );
        Ok(sorting::take_first(found))
    }

    /// The versions of a workflow in the tenant, the latest first.
    pub fn list_by_name_for_tenant(&self, tenant_id: &TenantId, name: &str) -> (r: Result<
        Vec<Workflow>,
        RepositoryError,
    >)
        ensures
            r is Ok,
            sorting::views(r->Ok_0@) == sorting::ordered(
                store::selected(self.workflows@, named(tenant_id@, name@)),
                newest_first(),
            ),
    {
        let found = self.select_named(tenant_id, name);
        Ok(
            sorting::sort(
                found,
                |a: &Workflow, b: &Workflow| -> (x: bool)
                    ensures
                        x == newest_first()(a@, b@)
                    { b.created_at.before(&a.created_at) },
                Ghost(newest_first()),
            ),
        )
    }

    /// The workflows of the tenant.
    pub fn list_all_for_tenant(&self, tenant_id: &TenantId) -> (r: Result<
        Vec<Workflow>,
        RepositoryError,
    >)
        ensures
            r is Ok,
            sorting::views(r->Ok_0@) == store::selected(self.workflows@, of_tenant(tenant_id@)),
    {
        Ok(
            self.workflows.select(
                |row: &WorkflowRow| -> (b: bool)
                    ensures
                        b == of_tenant(tenant_id@)(row@)
                    { row.tenant.same(tenant_id) },
                Ghost(of_tenant(tenant_id@)),
            ),
        )
    }

    /// The workflows of every tenant.
    pub fn list_all(&self) -> (r: Result<Vec<Workflow>, RepositoryError>)
        ensures
            r is Ok,
            sorting::views(r->Ok_0@) == store::selected(self.workflows@, any_workflow()),
    {
        Ok(
            self.workflows.select(
                |row: &WorkflowRow| -> (b: bool)
                    ensures
                        b == any_workflow()(row@)
                    { true },
                Ghost(any_workflow()),
            ),
        )
    }

    fn best_in_scope(&self, tenant_id: &TenantId, scope: WorkflowScope, name: &str) -> (r: Option<
        Workflow,
    >)
        ensures
            r == first(
                sorting::ordered(
                    store::selected(self.workflows@, named_scope(tenant_id@, scope, name@)),
                    by_version_down(),
                ),
            ),
    {
        let found = self.workflows.select(
            |row: &WorkflowRow| -> (b: bool)
                ensures
                    b == named_scope(tenant_id@, scope, name@)(row@)
                {
                    row.tenant.same(tenant_id) && row.value.scope == scope && same_text(
                        row.value.metadata.name.as_str(),
                        name,
                    )
                },
            Ghost(named_scope(tenant_id@, scope, name@)),
        );
        sorting::take_first(
            sorting::sort(
                found,
                |a: &Workflow, b: &Workflow| -> (x: bool)
                    ensures
                        x == by_version_down()(a@, b@)
                    { is_version_before(&b.metadata.version, &a.metadata.version) },
                Ghost(by_version_down()),
            ),
        )
    }

    /// The workflow that a name stands for within the tenant: its own before a
    /// global one, and of each the greatest version.
    pub fn resolve_by_name(&self, tenant_id: &TenantId, name: &str) -> (r: Result<
        Option<Workflow>,
        RepositoryError,
    >)
        ensures
            r == Ok::<Option<Workflow>, RepositoryError>(
                resolved(self.workflows@, tenant_id@, name@),
            ),
    {
        match self.best_in_scope(tenant_id, WorkflowScope::Tenant, name) {
            Some(workflow) => Ok(Some(workflow)),
            None => Ok(self.best_in_scope(&TenantId::system(), WorkflowScope::Global, name)),
        }
    }

    fn version_in_scope(
        &self,
        tenant_id: &TenantId,
        scope: WorkflowScope,
        name: &str,
        version: &str,
    ) -> (r: Option<Workflow>)
        ensures
            r == first(
                store::selected(
                    self.workflows@,
                    named_scope_version(tenant_id@, scope, name@, version@),
                ),
            ),
    {
        let found = self.workflows.select(
            |row: &WorkflowRow| -> (b: bool)
                ensures
                    b == named_scope_version(tenant_id@, scope, name@, version@)(row@)
                {
                    row.tenant.same(tenant_id) && row.value.scope == scope && same_text(
                        row.value.metadata.name.as_str(),
                        name,
                    ) && Self::is_version(&row.value, version)
                },
            Ghost(named_scope_version(tenant_id@, scope, name@, version@)),
        );
        sorting::take_first(found)
    }

    /// The workflow that a name and a version stand for within the tenant.
    pub fn resolve_by_name_and_version(
        &self,
        tenant_id: &TenantId,
        name: &str,
        version: &str,
    ) -> (r: Result<Option<Workflow>, RepositoryError>)
        ensures
            r == Ok::<Option<Workflow>, RepositoryError>(
                resolved_version(self.workflows@, tenant_id@, name@, version@),
            ),
    {
        match self.version_in_scope(tenant_id, WorkflowScope::Tenant, name, version) {
            Some(workflow) => Ok(Some(workflow)),
            None => Ok(
                self.version_in_scope(&TenantId::system(), WorkflowScope::Global, name, version),
            ),
        }
    }

    fn select_scope(&self, tenant_id: &TenantId, scope: WorkflowScope) -> (r: Vec<Workflow>)
        ensures
            sorting::views(r@) == store::selected(self.workflows@, of_scope(tenant_id@, scope)),
    {
        self.workflows.select(
            |row: &WorkflowRow| -> (b: bool)
                ensures
                    b == of_scope(tenant_id@, scope)(row@)
                { row.tenant.same(tenant_id) && row.value.scope == scope },
            Ghost(of_scope(tenant_id@, scope)),
        )
    }

    fn sort_by_name(found: Vec<Workflow>) -> (r: Vec<Workflow>)
        ensures
            sorting::views(r@) == sorting::ordered(sorting::views(found@), by_name()),
    {
        sorting::sort(
            found,
            |a: &Workflow, b: &Workflow| -> (x: bool)
                ensures
                    x == by_name()(a@, b@)
                { sorting::comes_before(a.metadata.name.as_str(), b.metadata.name.as_str()) },
            Ghost(by_name()),
        )
    }

    /// The workflows that the tenant can see, by name.
    pub fn list_visible(&self, tenant_id: &TenantId) -> (r: Result<Vec<Workflow>, RepositoryError>)
        ensures
            r is Ok,
            sorting::views(r->Ok_0@) == sorting::ordered(
                store::selected(self.workflows@, of_scope(tenant_id@, WorkflowScope::Tenant))
                    + global(self.workflows@),
                by_name(),
            ),
    {
        let mut found = self.select_scope(tenant_id, WorkflowScope::Tenant);
        let mut shared = self.select_scope(&TenantId::system(), WorkflowScope::Global);
        let ghost own = sorting::views(found@);
        let ghost all = sorting::views(shared@);
        found.append(&mut shared);
        proof {
            assert(sorting::views(found@) =~= own + all);
        }
        Ok(Self::sort_by_name(found))
    }

    /// The workflows that every tenant can see, by name.
    pub fn list_global(&self) -> (r: Result<Vec<Workflow>, RepositoryError>)
        ensures
            r is Ok,
            sorting::views(r->Ok_0@) == sorting::ordered(global(self.workflows@), by_name()),
    {
        Ok(Self::sort_by_name(self.select_scope(&TenantId::system(), WorkflowScope::Global)))
    }

    /// Moves a workflow to another scope and tenant. A workflow that is not
    /// there is an error.
    pub fn update_scope(
        &mut self,
        id: WorkflowId,
        new_scope: WorkflowScope,
        new_tenant_id: &TenantId,
    ) -> (r: Result<(), RepositoryError>)
        ensures
            match store::first_with_id(old(self).workflows@, id.0.bits) {
                Some(i) => {
                    &&& r is Ok
                    &&& final(self).workflows@ == rescoped(
                        old(self).workflows@,
                        i,
                        id,
                        new_scope,
                        *new_tenant_id,
                    )
                },
                None => {
                    &&& r matches Err(RepositoryError::NotFound(message)) && message@
                        == "Workflow "@ + shared_kernel::uuid_text(id.0.bits) + " not found"@
                    &&& final(self).workflows@ == old(self).workflows@
                },
            },
            store::distinct(final(self).workflows@),
            store::keyed::<Workflow>(final(self).workflows@),
    {
        proof {
            use_type_invariant(&self.workflows);
            self.workflows.lemma_well_formed();
        }
        match self.workflows.first(id.0.bits) {
            Some((tenant, workflow)) => {
                let mut moved = workflow;
                moved.scope = new_scope;
                moved.tenant_id = new_tenant_id.copy();
                self.workflows.delete(&tenant, id.0.bits);
                self.workflows.save(new_tenant_id, moved);
                Ok(())
            },
            None => Err(
                RepositoryError::NotFound(
                    "Workflow ".to_owned().concat(id.0.to_string().as_str()).concat(" not found"),
                ),
            ),
        }
    }

    /// The workflow of that name in the tenant, else in the system tenant, of
    /// the greatest version.
    pub fn find_by_name_visible(&self, tenant_id: &TenantId, name: &str) -> (r: Result<
        Option<Workflow>,
        RepositoryError,
    >)
        ensures
            r == Ok::<Option<Workflow>, RepositoryError>(
                or_else(
                    latest(self.workflows@, tenant_id@, name@),
                    latest(self.workflows@, shared_kernel::system_slug(), name@),
                ),
            ),
    {
        match self.find_by_name_for_tenant(tenant_id, name) {
            Ok(Some(workflow)) => Ok(Some(workflow)),
            _ => self.find_by_name_for_tenant(&TenantId::system(), name),
        }
    }

    /// Drops the workflow under the identifier in the tenant, if there is one.
    pub fn delete_for_tenant(&mut self, tenant_id: &TenantId, id: WorkflowId) -> (r: Result<
        (),
        RepositoryError,
    >)
        ensures
            r is Ok,
            final(self).workflows@ == store::deleted(old(self).workflows@, tenant_id@, id.0.bits),
            store::lookup(final(self).workflows@, tenant_id@, id.0.bits) is None,
            store::distinct(final(self).workflows@),
            store::keyed::<Workflow>(final(self).workflows@),
    {
        self.workflows.delete(tenant_id, id.0.bits);
        Ok(())
    }

    /// The workflow under the identifier in the tenant, else in the system
    /// tenant.
    pub fn find_by_id_visible(&self, tenant_id: &TenantId, id: WorkflowId) -> (r: Result<
        Option<Workflow>,
        RepositoryError,
    >)
        ensures
            r == Ok::<Option<Workflow>, RepositoryError>(
                found_visible(self.workflows@, tenant_id@, id.0.bits),
            ),
    {
        match self.workflows.get(tenant_id, id.0.bits) {
            Some(workflow) => Ok(Some(workflow)),
            None => Ok(self.workflows.get(&TenantId::system(), id.0.bits)),
        }
    }

    /// The workflow under the identifier that the tenant can see, if there is
    /// one.
    pub fn get_workflow_visible(&self, tenant_id: &TenantId, id: WorkflowId) -> (r: Result<
        Option<Workflow>,
        Failure,
    >)
        ensures
            r == Ok::<Option<Workflow>, Failure>(
                found_visible(self.workflows@, tenant_id@, id.0.bits),
            ),
    {
        match self.find_by_id_visible(tenant_id, id) {
            Ok(found) => Ok(found),
            Err(e) => Err(
                Failure::new("Repository error: ".to_owned().concat(e.to_string().as_str())),
            ),
        }
    }
}

impl Default for InMemoryWorkflowRepository {
    fn default() -> (r: Self)
        ensures
            r.workflows@ == Seq::<RowView<Workflow>>::empty(),
            store::keyed::<Workflow>(r.workflows@),
    {
        InMemoryWorkflowRepository::new()
    }
}

/// Each list of workflows holds exactly the workflows that it is asked for, in
/// the order in which they are kept: by tenant, by name, by version, by scope. A
/// workflow without a version has none.
pub proof fn lists_hold_what_is_asked_for(
    rows: Seq<RowView<Workflow>>,
    tenant: Seq<char>,
    name: Seq<char>,
    version: Seq<char>,
    scope: WorkflowScope,
)
    ensures
        store::selected(rows, any_workflow()) == rows.map_values(
            |row: RowView<Workflow>| row.value,
        ),
        store::selected(rows, of_tenant(tenant)) == store::values_where(
            rows,
            |row: RowView<Workflow>| row.tenant == tenant,
        ),
        store::selected(rows, named(tenant, name)) == store::values_where(
            rows,
            |row: RowView<Workflow>| row.tenant == tenant && row.value.metadata.name@ == name,
        ),
        store::selected(rows, named_version(tenant, name, version)) == store::values_where(
            rows,
            |row: RowView<Workflow>|
                row.tenant == tenant && row.value.metadata.name@ == name
                    && row.value.metadata.version is Some && row.value.metadata.version->0@
                    == version,
        ),
        store::selected(rows, of_scope(tenant, scope)) == store::values_where(
            rows,
            |row: RowView<Workflow>| row.tenant == tenant && row.value.scope == scope,
        ),
        store::selected(rows, named_scope(tenant, scope, name)) == store::values_where(
            rows,
            |row: RowView<Workflow>|
                row.tenant == tenant && row.value.scope == scope && row.value.metadata.name@
                    == name,
        ),
        store::selected(rows, named_scope_version(tenant, scope, name, version))
            == store::values_where(
            rows,
            |row: RowView<Workflow>|
                row.tenant == tenant && row.value.scope == scope && row.value.metadata.name@
                    == name && row.value.metadata.version is Some
                    && row.value.metadata.version->0@ == version,
        ),
        global(rows) == store::values_where(
            rows,
            |row: RowView<Workflow>|
                row.tenant == "aegis-system"@ && row.value.scope is Global,
        ),
{
    store::selections_keep_order(rows, any_workflow());
    store::selections_keep_order(rows, of_tenant(tenant));
    store::selections_keep_order(rows, named(tenant, name));
    store::selections_keep_order(rows, named_version(tenant, name, version));
    store::selections_keep_order(rows, of_scope(tenant, scope));
    store::selections_keep_order(rows, named_scope(tenant, scope, name));
    store::selections_keep_order(rows, named_scope_version(tenant, scope, name, version));
    store::selections_keep_order(
        rows,
        of_scope(shared_kernel::system_slug(), WorkflowScope::Global),
    );
    lemma_all_are_kept(rows);
    assert(of_tenant(tenant) =~= |row: RowView<Workflow>| row.tenant == tenant);
    assert(named(tenant, name) =~= |row: RowView<Workflow>|
        row.tenant == tenant && row.value.metadata.name@ == name);
    assert(named_version(tenant, name, version) =~= |row: RowView<Workflow>|
        row.tenant == tenant && row.value.metadata.name@ == name
            && row.value.metadata.version is Some && row.value.metadata.version->0@ == version);
    assert(of_scope(tenant, scope) =~= |row: RowView<Workflow>|
        row.tenant == tenant && row.value.scope == scope);
    assert(named_scope(tenant, scope, name) =~= |row: RowView<Workflow>|
        row.tenant == tenant && row.value.scope == scope && row.value.metadata.name@ == name);
    assert(named_scope_version(tenant, scope, name, version) =~= |row: RowView<Workflow>|
        row.tenant == tenant && row.value.scope == scope && row.value.metadata.name@ == name
            && row.value.metadata.version is Some && row.value.metadata.version->0@ == version);
    assert(of_scope(shared_kernel::system_slug(), WorkflowScope::Global) =~= |
        row: RowView<Workflow>,
    | row.tenant == "aegis-system"@ && row.value.scope is Global);
}

proof fn lemma_all_are_kept(rows: Seq<RowView<Workflow>>)
    ensures
        rows.filter(any_workflow()) == rows,
    decreases rows.len(),
{
    reveal(Seq::filter);
    if rows.len() > 0 {
        lemma_all_are_kept(rows.drop_last());
        assert(rows.drop_last().push(rows.last()) =~= rows);
    }
}

/// Of two workflows the one with the greater version comes first where versions
/// run down and last where they run up, no version being the smallest; the one
/// with the smaller name comes first by name, the later one by creation.
pub proof fn orders_are_by_version_name_and_time(a: Workflow, b: Workflow)
    ensures
        a.metadata.version is None ==> (by_version()(a, b) <==> b.metadata.version is Some),
        b.metadata.version is None ==> !by_version()(a, b),
        a.metadata.version is Some && b.metadata.version is Some ==> (by_version()(a, b)
            <==> sorting::text_before(a.metadata.version->0@, b.metadata.version->0@)),
        by_version_down()(b, a) <==> by_version()(a, b),
        by_name()(a, b) <==> sorting::text_before(a.metadata.name@, b.metadata.name@),
        newest_first()(a, b) <==> b.created_at.seconds < a.created_at.seconds || (
        b.created_at.seconds == a.created_at.seconds && b.created_at.nanos < a.created_at.nanos),
{
}

/// A lookup by name finds a workflow of that name wherever the tenant has one;
/// none of that name has a greater version.
pub proof fn latest_has_greatest_version(
    rows: Seq<RowView<Workflow>>,
    tenant: Seq<char>,
    name: Seq<char>,
    i: int,
)
    requires
        0 <= i < rows.len(),
        rows[i].tenant == tenant,
        rows[i].value.metadata.name@ == name,
    ensures
        latest(rows, tenant, name) is Some,
        exists|k: int|
            0 <= k < rows.len() && (#[trigger] rows[k]).tenant == tenant
                && rows[k].value.metadata.name@ == name && Some(rows[k].value) == latest(
                rows,
                tenant,
                name,
            ),
        ({
            let found = latest(rows, tenant, name)->0.metadata.version;
            let other = rows[i].value.metadata.version;
            &&& other is Some ==> found is Some
            &&& other is Some ==> !sorting::text_before(found->0@, other->0@)
        }),
{
    let keep = named(tenant, name);
    let found = store::selected(rows, keep);
    orders_are_strict();
    store::selected_is_exact(rows, keep, rows[i].value);
    assert(keep(rows[i]));
    let k = choose|k: int| 0 <= k < found.len() && found[k] == rows[i].value;
    sorting::greatest_is_maximal(found, by_version(), k);
    store::selected_is_exact(rows, keep, latest(rows, tenant, name)->0);
}

/// Without a workflow of that name a lookup by name finds nothing.
pub proof fn unknown_names_find_nothing(
    rows: Seq<RowView<Workflow>>,
    tenant: Seq<char>,
    name: Seq<char>,
)
    requires
        forall|j: int|
            0 <= j < rows.len() ==> (#[trigger] rows[j]).tenant != tenant
                || rows[j].value.metadata.name@ != name,
    ensures
        latest(rows, tenant, name) is None,
{
    store::selections_begin_with_the_first(rows, named(tenant, name));
}

/// Whether a row is a workflow of that tenant, scope, name and version.
pub open spec fn is_release(
    row: RowView<Workflow>,
    tenant: Seq<char>,
    scope: WorkflowScope,
    name: Seq<char>,
    version: Seq<char>,
) -> bool {
    row.tenant == tenant && row.value.scope == scope && row.value.metadata.name@ == name
        && row.value.metadata.version is Some && row.value.metadata.version->0@ == version
}

/// A name with a version stands for the first such workflow of the tenant's own,
/// else for the first global one of the system tenant, else for nothing.
pub proof fn releases_stand_for_the_nearest(
    rows: Seq<RowView<Workflow>>,
    tenant: Seq<char>,
    name: Seq<char>,
    version: Seq<char>,
    i: int,
)
    requires
        0 <= i < rows.len(),
    ensures
        is_release(rows[i], tenant, WorkflowScope::Tenant, name, version) && (forall|j: int|
            0 <= j < i ==> !is_release(
                #[trigger] rows[j],
                tenant,
                WorkflowScope::Tenant,
                name,
                version,
            )) ==> resolved_version(rows, tenant, name, version) == Some(rows[i].value),
        (forall|j: int|
            0 <= j < rows.len() ==> !is_release(
                #[trigger] rows[j],
                tenant,
                WorkflowScope::Tenant,
                name,
                version,
            )) && is_release(rows[i], "aegis-system"@, WorkflowScope::Global, name, version) && (
        forall|j: int|
            0 <= j < i ==> !is_release(
                #[trigger] rows[j],
                "aegis-system"@,
                WorkflowScope::Global,
                name,
                version,
            )) ==> resolved_version(rows, tenant, name, version) == Some(rows[i].value),
        (forall|j: int|
            0 <= j < rows.len() ==> !is_release(
                #[trigger] rows[j],
                tenant,
                WorkflowScope::Tenant,
                name,
                version,
            ) && !is_release(rows[j], "aegis-system"@, WorkflowScope::Global, name, version))
            ==> resolved_version(rows, tenant, name, version) is None,
{
    let own = named_scope_version(tenant, WorkflowScope::Tenant, name, version);
    let shared = named_scope_version(
        shared_kernel::system_slug(),
        WorkflowScope::Global,
        name,
        version,
    );
    store::selections_begin_with_the_first(rows, own);
    store::selections_begin_with_the_first(rows, shared);
    assert forall|j: int| 0 <= j < rows.len() implies own(#[trigger] rows[j]) == is_release(
        rows[j],
        tenant,
        WorkflowScope::Tenant,
        name,
        version,
    ) && shared(rows[j]) == is_release(
        rows[j],
        "aegis-system"@,
        WorkflowScope::Global,
        name,
        version,
    ) by {}
}

/// What comes second is looked at only where nothing comes first, and the first
/// of a list is its first element.
pub proof fn the_first_there_is_counts(a: Option<Workflow>, b: Option<Workflow>, s: Seq<Workflow>)
    ensures
        a is Some ==> or_else(a, b) == a,
        a is None ==> or_else(a, b) == b,
        first(s) is None <==> s.len() == 0,
        s.len() > 0 ==> first(s) == Some(s[0]),
{
}

/// An identifier leads to the tenant's own workflow before the system tenant's.
pub proof fn identifiers_lead_to_the_nearest(
    rows: Seq<RowView<Workflow>>,
    tenant: Seq<char>,
    id: u128,
    i: int,
)
    requires
        store::distinct(rows),
        0 <= i < rows.len(),
        rows[i].id == id,
    ensures
        rows[i].tenant == tenant ==> found_visible(rows, tenant, id) == Some(rows[i].value),
        rows[i].tenant == "aegis-system"@ && (forall|j: int|
            0 <= j < rows.len() ==> (#[trigger] rows[j]).tenant != tenant || rows[j].id != id)
            ==> found_visible(rows, tenant, id) == Some(rows[i].value),
        found_visible(rows, tenant, id) is Some ==> exists|j: int|
            0 <= j < rows.len() && (#[trigger] rows[j]).id == id && (rows[j].tenant == tenant
                || rows[j].tenant == "aegis-system"@) && found_visible(rows, tenant, id) == Some(
                rows[j].value,
            ),
{
    store::lookups_find_their_row(rows, tenant, id, i);
    store::lookups_find_their_row(rows, "aegis-system"@, id, i);
    if store::holds(rows, tenant, id) {
        let k = store::place(rows, tenant, id);
        assert(store::is_under(rows[k], tenant, id));
    }
    if store::holds(rows, "aegis-system"@, id) {
        let k = store::place(rows, "aegis-system"@, id);
        assert(store::is_under(rows[k], "aegis-system"@, id));
    }
}

/// A change of scope leaves all workflows under other identifiers where they
/// were.
pub proof fn rescoping_touches_one_workflow(
    rows: Seq<RowView<Workflow>>,
    i: int,
    id: WorkflowId,
    scope: WorkflowScope,
    tenant_id: TenantId,
    other_tenant: Seq<char>,
    other_id: u128,
)
    requires
        store::distinct(rows),
        other_id != id.0.bits,
    ensures
        store::lookup(rescoped(rows, i, id, scope, tenant_id), other_tenant, other_id)
            == store::lookup(rows, other_tenant, other_id),
{
    let without = store::deleted(rows, rows[i].tenant, id.0.bits);
    store::deleted_is_gone(rows, rows[i].tenant, id.0.bits, other_tenant, other_id);
    store::saved_is_found(
        without,
        tenant_id@,
        id.0.bits,
        Workflow { scope, tenant_id, ..rows[i].value },
        other_tenant,
        other_id,
    );
}

} // verus!

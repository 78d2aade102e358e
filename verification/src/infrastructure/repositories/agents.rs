//! Agents in memory.

use vstd::prelude::*;
use crate::domain::agent::{Agent, AgentManifest, AgentScope, AgentStatus};
use crate::domain::repository::{AgentVersion, RepositoryError};
use crate::domain::shared_kernel;
use crate::domain::shared_kernel::{AgentId, TenantId, Uuid};
use crate::infrastructure::repositories::store;
use crate::infrastructure::repositories::store::{Row, RowView, TenantStore};
use crate::support::clock::Timestamp;
use crate::support::failure::Failure;
use crate::support::sorting;
use crate::support::text::same_text;

verus! {

/// Agents by tenant and identifier, kept in memory.
pub struct InMemoryAgentRepository {
    pub agents: TenantStore<Agent>,
}

/// An agent with what it is kept under.
pub type AgentRow = Row<Agent>;

/// Agents of a tenant.
pub open spec fn of_tenant(tenant: Seq<char>) -> spec_fn(RowView<Agent>) -> bool {
    |row: RowView<Agent>| row.tenant == tenant
}

/// Agents of a tenant with the given name.
pub open spec fn named(tenant: Seq<char>, name: Seq<char>) -> spec_fn(RowView<Agent>) -> bool {
    |row: RowView<Agent>| row.tenant == tenant && row.value.name@ == name
}

/// Agents of a tenant with the given name and version.
pub open spec fn named_version(
    tenant: Seq<char>,
    name: Seq<char>,
    version: Seq<char>,
) -> spec_fn(RowView<Agent>) -> bool {
    |row: RowView<Agent>|
        row.tenant == tenant && row.value.name@ == name && row.value.manifest.metadata.version@
            == version
}

/// Every agent.
pub open spec fn any_agent() -> spec_fn(RowView<Agent>) -> bool {
    |row: RowView<Agent>| true
}

/// Agents of a tenant with the given name and scope.
pub open spec fn named_scope(tenant: Seq<char>, name: Seq<char>, scope: AgentScope) -> spec_fn(
    RowView<Agent>,
) -> bool {
    |row: RowView<Agent>|
        row.tenant == tenant && row.value.name@ == name && row.value.scope == scope
}

/// Agents that a tenant can see: its own of tenant scope, and the system
/// tenant's of global scope.
pub open spec fn visible(tenant: Seq<char>) -> spec_fn(RowView<Agent>) -> bool {
    |row: RowView<Agent>|
        match row.value.scope {
            AgentScope::Tenant => row.tenant == tenant,
            AgentScope::Global => row.tenant == shared_kernel::system_slug(),
        }
}

/// Active agents of a tenant.
pub open spec fn active(tenant: Seq<char>) -> spec_fn(RowView<Agent>) -> bool {
    |row: RowView<Agent>| row.tenant == tenant && row.value.status == AgentStatus::Active
}

/// The order of agents by version.
pub open spec fn by_version() -> spec_fn(Agent, Agent) -> bool {
    |a: Agent, b: Agent|
        sorting::text_before(a.manifest.metadata.version@, b.manifest.metadata.version@)
}

/// The order of agents by name.
pub open spec fn by_name() -> spec_fn(Agent, Agent) -> bool {
    |a: Agent, b: Agent| sorting::text_before(a.name@, b.name@)
}

/// The agent of a tenant with the given name and the greatest version.
pub open spec fn latest(rows: Seq<RowView<Agent>>, tenant: Seq<char>, name: Seq<char>) -> Option<
    Agent,
> {
    sorting::greatest(store::selected(rows, named(tenant, name)), by_version())
}

/// The agent that a name stands for within a tenant: the tenant's own of tenant
/// scope, else the system tenant's of global scope.
pub open spec fn resolved(rows: Seq<RowView<Agent>>, tenant: Seq<char>, name: Seq<char>) -> Option<
    Agent,
> {
    let own = store::selected(rows, named_scope(tenant, name, AgentScope::Tenant));
    let global = store::selected(
        rows,
        named_scope(shared_kernel::system_slug(), name, AgentScope::Global),
    );
    if own.len() > 0 {
        Some(own[0])
    } else if global.len() > 0 {
        Some(global[0])
    } else {
        None
    }
}

/// The agent under an identifier in a tenant, else in the system tenant.
pub open spec fn found_visible(rows: Seq<RowView<Agent>>, tenant: Seq<char>, id: u128) -> Option<
    Agent,
> {
    match store::lookup(rows, tenant, id) {
        Some(agent) => Some(agent),
        None => store::lookup(rows, shared_kernel::system_slug(), id),
    }
}

/// The rows after an agent's scope and tenant changed: the first row with the
/// identifier moves under the new tenant; where there is none nothing changes.
pub open spec fn rescoped(
    rows: Seq<RowView<Agent>>,
    id: AgentId,
    scope: AgentScope,
    tenant_id: TenantId,
) -> Seq<RowView<Agent>> {
    match store::first_with_id(rows, id.0.bits) {
        Some(i) => store::saved(
            store::deleted(rows, rows[i].tenant, id.0.bits),
            tenant_id@,
            id.0.bits,
            Agent { scope, tenant_id, ..rows[i].value },
        ),
        None => rows,
    }
}

/// What a deployment does to the rows, and what it answers. `id` and `now` are
/// the identifier and the time that a new agent would get.
pub open spec fn deploys(
    before: Seq<RowView<Agent>>,
    after: Seq<RowView<Agent>>,
    r: Result<AgentId, Failure>,
    tenant_id: TenantId,
    manifest: AgentManifest,
    force: bool,
    scope: AgentScope,
    id: AgentId,
    now: Timestamp,
) -> bool {
    match latest(before, tenant_id@, manifest.metadata.name@) {
        Some(existing) => if existing.manifest.metadata.version@ == manifest.metadata.version@
            && !force {
            &&& after == before
            &&& r is Err
            &&& r->Err_0@ == seq![
                "Agent '"@ + existing.name@ + "' version '"@
                    + existing.manifest.metadata.version@ + "' is already deployed (ID: "@
                    + shared_kernel::uuid_text(existing.id.0.bits)
                    + "). Use --force to overwrite it."@,
            ]
        } else {
            &&& r == Ok::<AgentId, Failure>(existing.id)
            &&& after == store::saved(
                before,
                tenant_id@,
                existing.id.0.bits,
                Agent { name: manifest.metadata.name, manifest, updated_at: now, ..existing },
            )
        },
        None => {
            &&& r == Ok::<AgentId, Failure>(id)
            &&& after == store::saved(
                before,
                tenant_id@,
                id.0.bits,
                Agent {
                    id,
                    tenant_id,
                    scope,
                    name: manifest.metadata.name,
                    manifest,
                    status: AgentStatus::Active,
                    created_at: now,
                    updated_at: now,
                },
            )
        },
    }
}

/// What giving an agent another manifest does to the rows, and what it answers.
pub open spec fn updates(
    before: Seq<RowView<Agent>>,
    after: Seq<RowView<Agent>>,
    r: Result<(), Failure>,
    tenant: Seq<char>,
    id: AgentId,
    manifest: AgentManifest,
    now: Timestamp,
) -> bool {
    match store::lookup(before, tenant, id.0.bits) {
        Some(agent) => {
            &&& r is Ok
            &&& after == store::saved(
                before,
                tenant,
                agent.id.0.bits,
                Agent { name: manifest.metadata.name, manifest, updated_at: now, ..agent },
            )
        },
        None => {
            &&& r is Err
            &&& r->Err_0@ == seq!["Agent not found"@]
            &&& after == before
        },
    }
}

/// The orders by name and by version are strict ones.
pub proof fn orders_are_strict()
    ensures
        sorting::strict_order(by_name()),
        sorting::strict_order(by_version()),
{
    sorting::text_order_is_strict();
    let lt = |a: Seq<char>, b: Seq<char>| sorting::text_before(a, b);
    assert forall|a: Agent, b: Agent| #[trigger] by_name()(a, b) implies !by_name()(b, a) by {
        assert(lt(a.name@, b.name@));
    }
    assert forall|a: Agent, b: Agent, c: Agent|
        !#[trigger] by_name()(b, a) && !#[trigger] by_name()(c, b) implies !by_name()(c, a) by {
        assert(!lt(b.name@, a.name@));
        assert(!lt(c.name@, b.name@));
    }
    assert forall|a: Agent, b: Agent| #[trigger] by_version()(a, b) implies !by_version()(b, a) by {
        assert(lt(a.manifest.metadata.version@, b.manifest.metadata.version@));
    }
    assert forall|a: Agent, b: Agent, c: Agent|
        !#[trigger] by_version()(b, a) && !#[trigger] by_version()(c, b) implies !by_version()(
        c,
        a,
    ) by {
        assert(!lt(b.manifest.metadata.version@, a.manifest.metadata.version@));
        assert(!lt(c.manifest.metadata.version@, b.manifest.metadata.version@));
    }
}

/// A lookup by name finds an agent of that name in the tenant whenever there is
/// one, and none of them has a greater version.
pub proof fn latest_has_greatest_version(
    rows: Seq<RowView<Agent>>,
    tenant: Seq<char>,
    name: Seq<char>,
    i: int,
)
    requires
        0 <= i < rows.len(),
        rows[i].tenant == tenant,
        rows[i].value.name@ == name,
    ensures
        latest(rows, tenant, name) is Some,
        latest(rows, tenant, name)->0.name@ == name,
        !sorting::text_before(
            latest(rows, tenant, name)->0.manifest.metadata.version@,
            rows[i].value.manifest.metadata.version@,
        ),
{
    let keep = named(tenant, name);
    let found = store::selected(rows, keep);
    orders_are_strict();
    store::selected_is_exact(rows, keep, rows[i].value);
    assert(keep(rows[i]));
    let k = choose|k: int| 0 <= k < found.len() && found[k] == rows[i].value;
    sorting::greatest_is_maximal(found, by_version(), k);
    store::selected_is_exact(rows, keep, latest(rows, tenant, name)->0);
}

/// What a tenant sees is its own agents of tenant scope and the system tenant's
/// of global scope, and nothing of any other tenant.
pub proof fn other_tenants_are_invisible(
    rows: Seq<RowView<Agent>>,
    tenant: Seq<char>,
    agent: Agent,
)
    requires
        store::selected(rows, visible(tenant)).contains(agent),
    ensures
        exists|i: int|
            0 <= i < rows.len() && (#[trigger] rows[i]).value == agent && (rows[i].tenant == tenant
                || (rows[i].tenant == shared_kernel::system_slug() && agent.scope
                == AgentScope::Global)),
{
    store::selected_is_exact(rows, visible(tenant), agent);
}

/// An agent of tenant scope hides the global one of the same name.
pub proof fn tenant_scope_wins(rows: Seq<RowView<Agent>>, tenant: Seq<char>, name: Seq<char>)
    requires
        store::selected(rows, named_scope(tenant, name, AgentScope::Tenant)).len() > 0,
    ensures
        resolved(rows, tenant, name) is Some,
        resolved(rows, tenant, name)->0.scope == AgentScope::Tenant,
{
    let own = store::selected(rows, named_scope(tenant, name, AgentScope::Tenant));
    store::selected_is_exact(rows, named_scope(tenant, name, AgentScope::Tenant), own[0]);
    assert(own.contains(own[0]));
}

/// After a change of scope the agent is found under the new tenant, with the
/// new scope, and under its former tenant no more.
pub proof fn rescoped_agent_has_moved(
    rows: Seq<RowView<Agent>>,
    id: AgentId,
    scope: AgentScope,
    tenant_id: TenantId,
    i: int,
)
    requires
        store::distinct(rows),
        store::first_with_id(rows, id.0.bits) == Some(i),
        0 <= i < rows.len(),
    ensures
        store::lookup(rescoped(rows, id, scope, tenant_id), tenant_id@, id.0.bits) == Some(
            Agent { scope, tenant_id, ..rows[i].value },
        ),
        rows[i].tenant != tenant_id@ ==> store::lookup(
            rescoped(rows, id, scope, tenant_id),
            rows[i].tenant,
            id.0.bits,
        ) is None,
{
    let without = store::deleted(rows, rows[i].tenant, id.0.bits);
    let agent = Agent { scope, tenant_id, ..rows[i].value };
    store::deleted_is_gone(rows, rows[i].tenant, id.0.bits, rows[i].tenant, id.0.bits);
    store::saved_is_found(without, tenant_id@, id.0.bits, agent, rows[i].tenant, id.0.bits);
}

/// A deployment under a name that the tenant has an agent of puts the new
/// manifest in the place of that agent, which keeps its identifier, and leaves
/// every other row as it was.
pub proof fn redeployment_replaces_in_place(
    before: Seq<RowView<Agent>>,
    after: Seq<RowView<Agent>>,
    r: Result<AgentId, Failure>,
    tenant_id: TenantId,
    manifest: AgentManifest,
    force: bool,
    scope: AgentScope,
    id: AgentId,
    now: Timestamp,
)
    requires
        store::distinct(before),
        store::keyed::<Agent>(before),
        deploys(before, after, r, tenant_id, manifest, force, scope, id, now),
        r is Ok,
        latest(before, tenant_id@, manifest.metadata.name@) is Some,
    ensures
        ({
            let existing = latest(before, tenant_id@, manifest.metadata.name@)->0;
            let at = store::place(before, tenant_id@, existing.id.0.bits);
            &&& r->Ok_0 == existing.id
            &&& 0 <= at < before.len()
            &&& before[at].value == existing
            &&& after == before.update(
                at,
                RowView {
                    tenant: tenant_id@,
                    id: existing.id.0.bits,
                    value: Agent {
                        name: manifest.metadata.name,
                        manifest,
                        updated_at: now,
                        ..existing
                    },
                },
            )
        }),
{
    let keep = named(tenant_id@, manifest.metadata.name@);
    let found = store::selected(before, keep);
    let existing = latest(before, tenant_id@, manifest.metadata.name@)->0;
    orders_are_strict();
    sorting::greatest_is_maximal(found, by_version(), 0);
    store::selected_is_exact(before, keep, existing);
    let i = choose|i: int|
        0 <= i < before.len() && keep(#[trigger] before[i]) && before[i].value == existing;
    store::lemma_place_is_unique(before, tenant_id@, existing.id.0.bits, i);
}

/// What a deployment answers is where the manifest is found afterwards.
pub proof fn deployed_manifest_is_found(
    before: Seq<RowView<Agent>>,
    after: Seq<RowView<Agent>>,
    r: Result<AgentId, Failure>,
    tenant_id: TenantId,
    manifest: AgentManifest,
    force: bool,
    scope: AgentScope,
    id: AgentId,
    now: Timestamp,
)
    requires
        store::distinct(before),
        deploys(before, after, r, tenant_id, manifest, force, scope, id, now),
        r is Ok,
    ensures
        store::lookup(after, tenant_id@, r->Ok_0.0.bits) is Some,
        store::lookup(after, tenant_id@, r->Ok_0.0.bits)->0.manifest == manifest,
        store::lookup(after, tenant_id@, r->Ok_0.0.bits)->0.name == manifest.metadata.name,
{
    match latest(before, tenant_id@, manifest.metadata.name@) {
        Some(existing) => {
            store::saved_is_found(
                before,
                tenant_id@,
                existing.id.0.bits,
                Agent { name: manifest.metadata.name, manifest, updated_at: now, ..existing },
                tenant_id@,
                existing.id.0.bits,
            );
        },
        None => {
            store::saved_is_found(
                before,
                tenant_id@,
                id.0.bits,
                Agent {
                    id,
                    tenant_id,
                    scope,
                    name: manifest.metadata.name,
                    manifest,
                    status: AgentStatus::Active,
                    created_at: now,
                    updated_at: now,
                },
                tenant_id@,
                id.0.bits,
            );
        },
    }
}

impl InMemoryAgentRepository {
    /// A repository without agents.
    pub fn new() -> (r: Self)
        ensures
            r.agents@ == Seq::<RowView<Agent>>::empty(),
            store::keyed::<Agent>(r.agents@),
    {
        InMemoryAgentRepository { agents: TenantStore::new() }
    }

    /// Keeps a copy of `agent` under the tenant.
    pub fn save_for_tenant(&mut self, tenant_id: &TenantId, agent: &Agent) -> (r: Result<
        (),
        RepositoryError,
    >)
        ensures
            r is Ok,
            final(self).agents@ == store::saved(
                old(self).agents@,
                tenant_id@,
                agent.id.0.bits,
                *agent,
            ),
            store::lookup(final(self).agents@, tenant_id@, agent.id.0.bits) == Some(
                *agent,
            ),
            store::distinct(final(self).agents@),
            store::keyed::<Agent>(final(self).agents@),
    {
        self.agents.save(tenant_id, agent.copy());
        Ok(())
    }

    /// The agent under the identifier in the tenant.
    pub fn find_by_id_for_tenant(&self, tenant_id: &TenantId, id: AgentId) -> (r: Result<
        Option<Agent>,
        RepositoryError,
    >)
        ensures
            r == Ok::<Option<Agent>, RepositoryError>(
                store::lookup(self.agents@, tenant_id@, id.0.bits),
            ),
    {
        Ok(self.agents.get(tenant_id, id.0.bits))
    }

    /// The agent of that name in the tenant, of the greatest version.
    pub fn find_by_name_for_tenant(&self, tenant_id: &TenantId, name: &str) -> (r: Result<
        Option<Agent>,
        RepositoryError,
    >)
        ensures
            r == Ok::<Option<Agent>, RepositoryError>(latest(self.agents@, tenant_id@, name@)),
    {
        let found = self.agents.select(
            |row: &AgentRow| -> (b: bool)
                ensures
                    b == named(tenant_id@, name@)(row@)
                { row.tenant.same(tenant_id) && same_text(row.value.name.as_str(), name) },
            Ghost(named(tenant_id@, name@)),
        );
        Ok(
            sorting::pick_greatest(
                found,
                |a: &Agent, b: &Agent| -> (x: bool)
                    ensures
                        x == by_version()(a@, b@)
                    {
                        sorting::comes_before(
                            a.manifest.metadata.version.as_str(),
                            b.manifest.metadata.version.as_str(),
                        )
                    },
                Ghost(by_version()),
            ),
        )
    }

    /// The agent of that name and version in the tenant.
    pub fn find_by_name_and_version_for_tenant(
        &self,
        tenant_id: &TenantId,
        name: &str,
        version: &str,
    ) -> (r: Result<Option<Agent>, RepositoryError>)
        ensures
            r is Ok,
            ({
                let found = store::selected(self.agents@, named_version(tenant_id@, name@, version@));
                r->Ok_0 == (if found.len() > 0 { Some(found[0]) } else { None })
            }),
    {
        let found = self.agents.select(
            |row: &AgentRow| -> (b: bool)
                ensures
                    b == named_version(tenant_id@, name@, version@)(row@)
                {
                    row.tenant.same(tenant_id) && same_text(row.value.name.as_str(), name)
                        && same_text(row.value.manifest.metadata.version.as_str(), version)
                },
            Ghost(named_version(tenant_id@, name@, version@)),
        );
        Ok(sorting::take_first(found))
    }

    /// The agents of the tenant.
    pub fn list_all_for_tenant(&self, tenant_id: &TenantId) -> (r: Result<
        Vec<Agent>,
        RepositoryError,
    >)
        ensures
            r is Ok,
            sorting::views(r->Ok_0@) == store::selected(self.agents@, of_tenant(tenant_id@)),
    {
        Ok(
            self.agents.select(
                |row: &AgentRow| -> (b: bool)
                    ensures
                        b == of_tenant(tenant_id@)(row@)
                    { row.tenant.same(tenant_id) },
                Ghost(of_tenant(tenant_id@)),
            ),
        )
    }

    /// The agents of every tenant.
    pub fn list_all(&self) -> (r: Result<Vec<Agent>, RepositoryError>)
        ensures
            r is Ok,
            sorting::views(r->Ok_0@) == store::selected(self.agents@, any_agent()),
    {
        Ok(
            self.agents.select(
                |row: &AgentRow| -> (b: bool)
                    ensures
                        b == any_agent()(row@)
                    { true },
                Ghost(any_agent()),
            ),
        )
    }

    /// Drops the agent under the identifier in the tenant, if there is one.
    pub fn delete_for_tenant(&mut self, tenant_id: &TenantId, id: AgentId) -> (r: Result<
        (),
        RepositoryError,
    >)
        ensures
            r is Ok,
            final(self).agents@ == store::deleted(old(self).agents@, tenant_id@, id.0.bits),
            store::lookup(final(self).agents@, tenant_id@, id.0.bits) is None,
            store::distinct(final(self).agents@),
            store::keyed::<Agent>(final(self).agents@),
    {
        self.agents.delete(tenant_id, id.0.bits);
        Ok(())
    }

    /// The versions of an agent: in memory no history is kept.
    pub fn list_versions_for_tenant(&self, _tenant_id: &TenantId, _agent_id: AgentId) -> (r: Result<
        Vec<AgentVersion>,
        RepositoryError,
    >)
        ensures
            r is Ok,
            r->Ok_0@.len() == 0,
    {
        Ok(Vec::new())
    }

    /// The agents that the tenant can see, by name.
    pub fn list_visible_for_tenant(&self, tenant_id: &TenantId) -> (r: Result<
        Vec<Agent>,
        RepositoryError,
    >)
        ensures
            r is Ok,
            sorting::views(r->Ok_0@) == sorting::ordered(
                store::selected(self.agents@, visible(tenant_id@)),
                by_name(),
            ),
    {
        let system = TenantId::system();
        let found = self.agents.select(
            |row: &AgentRow| -> (b: bool)
                ensures
                    b == visible(tenant_id@)(row@)
                {
                    match row.value.scope {
                        AgentScope::Tenant => row.tenant.same(tenant_id),
                        AgentScope::Global => row.tenant.same(&system),
                    }
                },
            Ghost(visible(tenant_id@)),
        );
        Ok(
            sorting::sort(
                found,
                |a: &Agent, b: &Agent| -> (x: bool)
                    ensures
                        x == by_name()(a@, b@)
                    { sorting::comes_before(a.name.as_str(), b.name.as_str()) },
                Ghost(by_name()),
            ),
        )
    }

    /// Moves an agent to another scope and tenant. An agent that is not there
    /// is passed over.
    pub fn update_scope(
        &mut self,
        id: AgentId,
        new_scope: AgentScope,
        new_tenant_id: &TenantId,
    ) -> (r: Result<(), RepositoryError>)
        ensures
            r is Ok,
            final(self).agents@ == rescoped(old(self).agents@, id, new_scope, *new_tenant_id),
            store::distinct(final(self).agents@),
            store::keyed::<Agent>(final(self).agents@),
    {
        proof {
            use_type_invariant(&self.agents);
            self.agents.lemma_well_formed();
        }
        if let Some((tenant, agent)) = self.agents.first(id.0.bits) {
            let mut moved = agent;
            moved.scope = new_scope;
            moved.tenant_id = new_tenant_id.copy();
            self.agents.delete(&tenant, id.0.bits);
            self.agents.save(new_tenant_id, moved);
        }
        Ok(())
    }

    /// The agent that a name stands for within the tenant: its own before a
    /// global one.
    pub fn resolve_by_name(&self, tenant_id: &TenantId, name: &str) -> (r: Result<
        Option<Agent>,
        RepositoryError,
    >)
        ensures
            r == Ok::<Option<Agent>, RepositoryError>(resolved(self.agents@, tenant_id@, name@)),
    {
        let own = self.agents.select(
            |row: &AgentRow| -> (b: bool)
                ensures
                    b == named_scope(tenant_id@, name@, AgentScope::Tenant)(row@)
                {
                    row.tenant.same(tenant_id) && same_text(row.value.name.as_str(), name)
                        && row.value.scope == AgentScope::Tenant
                },
            Ghost(named_scope(tenant_id@, name@, AgentScope::Tenant)),
        );
        if let Some(agent) = sorting::take_first(own) {
            return Ok(Some(agent));
        }
        let system = TenantId::system();
        let global = self.agents.select(
            |row: &AgentRow| -> (b: bool)
                ensures
                    b == named_scope(shared_kernel::system_slug(), name@, AgentScope::Global)(row@)
                {
                    row.tenant.same(&system) && same_text(row.value.name.as_str(), name)
                        && row.value.scope == AgentScope::Global
                },
            Ghost(named_scope(shared_kernel::system_slug(), name@, AgentScope::Global)),
        );
        Ok(sorting::take_first(global))
    }

    /// The agent under the identifier in the tenant, else in the system tenant.
    pub fn find_by_id_visible(&self, tenant_id: &TenantId, id: AgentId) -> (r: Result<
        Option<Agent>,
        RepositoryError,
    >)
        ensures
            r == Ok::<Option<Agent>, RepositoryError>(
                found_visible(self.agents@, tenant_id@, id.0.bits),
            ),
    {
        match self.agents.get(tenant_id, id.0.bits) {
            Some(agent) => Ok(Some(agent)),
            None => Ok(self.agents.get(&TenantId::system(), id.0.bits)),
        }
    }

    /// How many agents of the tenant are active.
    pub fn count_active(&self, tenant_id: &TenantId) -> (r: Result<u64, RepositoryError>)
        ensures
            r is Ok,
            r->Ok_0 == store::selected(self.agents@, active(tenant_id@)).len(),
    {
        let n: usize = self.agents.count(
            |row: &AgentRow| -> (b: bool)
                ensures
                    b == active(tenant_id@)(row@)
                { row.tenant.same(tenant_id) && row.value.status == AgentStatus::Active },
            Ghost(active(tenant_id@)),
        );
        Ok(n as u64)
    }

    /// Deploys an agent: a new one, or a new manifest for the one of that name.
    /// The same version is deployed again only by force. The scope of an agent
    /// that is there already stays.
    pub fn deploy_agent_for_tenant(
        &mut self,
        tenant_id: &TenantId,
        manifest: AgentManifest,
        force: bool,
        scope: AgentScope,
    ) -> (r: Result<AgentId, Failure>)
        ensures
            exists|id: AgentId, now: Timestamp|
                shared_kernel::is_version_four(id.0.bits) && now.seconds >= 0 && now.nanos
                    < 1_000_000_000 && #[trigger] deploys(
                    old(self).agents@,
                    final(self).agents@,
                    r,
                    *tenant_id,
                    manifest,
                    force,
                    scope,
                    id,
                    now,
                ),
            store::distinct(final(self).agents@),
            store::keyed::<Agent>(final(self).agents@),
    {
        let id = AgentId(Uuid::new_v4());
        let now = Timestamp::now();
        self.deploy_agent_at(tenant_id, manifest, force, scope, id, now)
    }

    /// Deploys an agent with the identifier and the time that a new one gets.
    pub fn deploy_agent_at(
        &mut self,
        tenant_id: &TenantId,
        manifest: AgentManifest,
        force: bool,
        scope: AgentScope,
        id: AgentId,
        now: Timestamp,
    ) -> (r: Result<AgentId, Failure>)
        ensures
            deploys(
                old(self).agents@,
                final(self).agents@,
                r,
                *tenant_id,
                manifest,
                force,
                scope,
                id,
                now,
            ),
            store::distinct(final(self).agents@),
            store::keyed::<Agent>(final(self).agents@),
    {
        proof {
            use_type_invariant(&self.agents);
            self.agents.lemma_well_formed();
        }
        let existing = match self.find_by_name_for_tenant(
            tenant_id,
            manifest.metadata.name.as_str(),
        ) {
            Ok(found) => found,
            Err(_) => None,
        };
        match existing {
            Some(agent) => {
                if same_text(
                    agent.manifest.metadata.version.as_str(),
                    manifest.metadata.version.as_str(),
                ) && !force {
                    let message = "Agent '".to_owned().concat(agent.name.as_str()).concat(
                        "' version '",
                    ).concat(agent.manifest.metadata.version.as_str()).concat(
                        "' is already deployed (ID: ",
                    ).concat(agent.id.0.to_string().as_str()).concat(
                        "). Use --force to overwrite it.",
                    );
                    return Err(Failure::new(message));
                }
                let agent_id = agent.id;
                let updated = agent.update_manifest(manifest, now);
                self.agents.save(tenant_id, updated);
                Ok(agent_id)
            },
            None => {
                let agent = Agent {
                    id,
                    tenant_id: tenant_id.copy(),
                    scope,
                    name: manifest.metadata.name.clone(),
                    manifest,
                    status: AgentStatus::Active,
                    created_at: now,
                    updated_at: now,
                };
                self.agents.save(tenant_id, agent);
                Ok(id)
            },
        }
    }

    /// The agent under the identifier in the tenant, or a failure.
    pub fn get_agent_for_tenant(&self, tenant_id: &TenantId, id: AgentId) -> (r: Result<
        Agent,
        Failure,
    >)
        ensures
            match r {
                Ok(agent) => store::lookup(self.agents@, tenant_id@, id.0.bits) == Some(agent),
                Err(failure) => {
                    &&& store::lookup(self.agents@, tenant_id@, id.0.bits) is None
                    &&& failure@ == seq!["Agent not found"@]
                },
            },
    {
        match self.agents.get(tenant_id, id.0.bits) {
            Some(agent) => Ok(agent),
            None => Err(Failure::msg("Agent not found")),
        }
    }

    /// Gives an agent another manifest.
    pub fn update_agent_for_tenant(
        &mut self,
        tenant_id: &TenantId,
        id: AgentId,
        manifest: AgentManifest,
    ) -> (r: Result<(), Failure>)
        ensures
            exists|now: Timestamp|
                now.seconds >= 0 && now.nanos < 1_000_000_000 && #[trigger] updates(
                    old(self).agents@,
                    final(self).agents@,
                    r,
                    tenant_id@,
                    id,
                    manifest,
                    now,
                ),
            store::distinct(final(self).agents@),
            store::keyed::<Agent>(final(self).agents@),
    {
        self.update_agent_at(tenant_id, id, manifest, Timestamp::now())
    }

    /// Gives an agent another manifest at the given time.
    pub fn update_agent_at(
        &mut self,
        tenant_id: &TenantId,
        id: AgentId,
        manifest: AgentManifest,
        now: Timestamp,
    ) -> (r: Result<(), Failure>)
        ensures
            updates(
                old(self).agents@,
                final(self).agents@,
                r,
                tenant_id@,
                id,
                manifest,
                now,
            ),
            store::distinct(final(self).agents@),
            store::keyed::<Agent>(final(self).agents@),
    {
        proof {
            use_type_invariant(&self.agents);
            self.agents.lemma_well_formed();
        }
        let agent = match self.get_agent_for_tenant(tenant_id, id) {
            Ok(agent) => agent,
            Err(failure) => return Err(failure),
        };
        self.agents.save(tenant_id, agent.update_manifest(manifest, now));
        Ok(())
    }

    /// Drops an agent, if it is there.
    pub fn delete_agent_for_tenant(&mut self, tenant_id: &TenantId, id: AgentId) -> (r: Result<
        (),
        Failure,
    >)
        ensures
            r is Ok,
            final(self).agents@ == store::deleted(old(self).agents@, tenant_id@, id.0.bits),
            store::lookup(final(self).agents@, tenant_id@, id.0.bits) is None,
            store::distinct(final(self).agents@),
            store::keyed::<Agent>(final(self).agents@),
    {
        self.agents.delete(tenant_id, id.0.bits);
        Ok(())
    }

    /// The agents of the tenant.
    pub fn list_agents_for_tenant(&self, tenant_id: &TenantId) -> (r: Result<Vec<Agent>, Failure>)
        ensures
            r is Ok,
            sorting::views(r->Ok_0@) == store::selected(self.agents@, of_tenant(tenant_id@)),
    {
        match self.list_all_for_tenant(tenant_id) {
            Ok(agents) => Ok(agents),
            Err(e) => Err(
                Failure::new(
                    "Failed to list agents: ".to_owned().concat(e.to_string().as_str()),
                ),
            ),
        }
    }

    /// The agents that the tenant can see, by name.
    pub fn list_agents_visible_for_tenant(&self, tenant_id: &TenantId) -> (r: Result<
        Vec<Agent>,
        Failure,
    >)
        ensures
            r is Ok,
            sorting::views(r->Ok_0@) == sorting::ordered(
                store::selected(self.agents@, visible(tenant_id@)),
                by_name(),
            ),
    {
        match self.list_visible_for_tenant(tenant_id) {
            Ok(agents) => Ok(agents),
            Err(e) => Err(
                Failure::new(
                    "Failed to list visible agents: ".to_owned().concat(e.to_string().as_str()),
                ),
            ),
        }
    }

    /// The identifier of the agent of that name in the tenant, of the greatest
    /// version.
    pub fn lookup_agent_for_tenant(&self, tenant_id: &TenantId, name: &str) -> (r: Result<
        Option<AgentId>,
        Failure,
    >)
        ensures
            r is Ok,
            r->Ok_0 == (match latest(self.agents@, tenant_id@, name@) {
                Some(agent) => Some(agent.id),
                None => None,
            }),
    {
        match self.find_by_name_for_tenant(tenant_id, name) {
            Ok(Some(agent)) => Ok(Some(agent.id)),
            _ => Ok(None),
        }
    }

    /// The identifier of the agent that a name stands for within the tenant.
    pub fn lookup_agent_visible_for_tenant(&self, tenant_id: &TenantId, name: &str) -> (r: Result<
        Option<AgentId>,
        Failure,
    >)
        ensures
            r is Ok,
            r->Ok_0 == (match resolved(self.agents@, tenant_id@, name@) {
                Some(agent) => Some(agent.id),
                None => None,
            }),
    {
        match self.resolve_by_name(tenant_id, name) {
            Ok(Some(agent)) => Ok(Some(agent.id)),
            _ => Ok(None),
        }
    }

    /// The identifier of the agent of that name and version in the tenant.
    pub fn lookup_agent_for_tenant_with_version(
        &self,
        tenant_id: &TenantId,
        name: &str,
        version: &str,
    ) -> (r: Result<Option<AgentId>, Failure>)
        ensures
            r is Ok,
            ({
                let found = store::selected(self.agents@, named_version(tenant_id@, name@, version@));
                r->Ok_0 == (if found.len() > 0 { Some(found[0].id) } else { None })
            }),
    {
        match self.find_by_name_and_version_for_tenant(tenant_id, name, version) {
            Ok(Some(agent)) => Ok(Some(agent.id)),
            _ => Ok(None),
        }
    }

    /// The agent under the identifier that the tenant can see, or a failure.
    pub fn get_agent_visible(&self, tenant_id: &TenantId, id: AgentId) -> (r: Result<
        Agent,
        Failure,
    >)
        ensures
            match r {
                Ok(agent) => found_visible(self.agents@, tenant_id@, id.0.bits) == Some(agent),
                Err(failure) => {
                    &&& found_visible(self.agents@, tenant_id@, id.0.bits) is None
                    &&& failure@ == seq!["Agent not found"@]
                },
            },
    {
        match self.find_by_id_visible(tenant_id, id) {
            Ok(Some(agent)) => Ok(agent),
            _ => Err(Failure::msg("Agent not found")),
        }
    }
}

impl Default for InMemoryAgentRepository {
    fn default() -> (r: Self)
        ensures
            r.agents@ == Seq::<RowView<Agent>>::empty(),
            store::keyed::<Agent>(r.agents@),
    {
        InMemoryAgentRepository::new()
    }
}

/// Each list of agents holds exactly the agents that it is asked for, in the
/// order in which they are kept: by tenant, by name, by version, by scope, by
/// what a tenant sees, by being active.
pub proof fn lists_hold_what_is_asked_for(
    rows: Seq<RowView<Agent>>,
    tenant: Seq<char>,
    name: Seq<char>,
    version: Seq<char>,
    scope: AgentScope,
)
    ensures
        store::selected(rows, any_agent()) == rows.map_values(|row: RowView<Agent>| row.value),
        store::selected(rows, of_tenant(tenant)) == store::values_where(
            rows,
            |row: RowView<Agent>| row.tenant == tenant,
        ),
        store::selected(rows, named(tenant, name)) == store::values_where(
            rows,
            |row: RowView<Agent>| row.tenant == tenant && row.value.name@ == name,
        ),
        store::selected(rows, named_version(tenant, name, version)) == store::values_where(
            rows,
            |row: RowView<Agent>|
                row.tenant == tenant && row.value.name@ == name
                    && row.value.manifest.metadata.version@ == version,
        ),
        store::selected(rows, named_scope(tenant, name, scope)) == store::values_where(
            rows,
            |row: RowView<Agent>|
                row.tenant == tenant && row.value.name@ == name && row.value.scope == scope,
        ),
        store::selected(rows, visible(tenant)) == store::values_where(
            rows,
            |row: RowView<Agent>|
                (row.tenant == tenant && row.value.scope is Tenant) || (row.tenant
                    == "aegis-system"@ && row.value.scope is Global),
        ),
        store::selected(rows, active(tenant)) == store::values_where(
            rows,
            |row: RowView<Agent>| row.tenant == tenant && row.value.status is Active,
        ),
{
    store::selections_keep_order(rows, any_agent());
    store::selections_keep_order(rows, of_tenant(tenant));
    store::selections_keep_order(rows, named(tenant, name));
    store::selections_keep_order(rows, named_version(tenant, name, version));
    store::selections_keep_order(rows, named_scope(tenant, name, scope));
    store::selections_keep_order(rows, visible(tenant));
    store::selections_keep_order(rows, active(tenant));
    lemma_all_are_kept(rows);
    assert(of_tenant(tenant) =~= |row: RowView<Agent>| row.tenant == tenant);
    assert(named(tenant, name) =~= |row: RowView<Agent>|
        row.tenant == tenant && row.value.name@ == name);
    assert(named_version(tenant, name, version) =~= |row: RowView<Agent>|
        row.tenant == tenant && row.value.name@ == name
            && row.value.manifest.metadata.version@ == version);
    assert(named_scope(tenant, name, scope) =~= |row: RowView<Agent>|
        row.tenant == tenant && row.value.name@ == name && row.value.scope == scope);
    assert(visible(tenant) =~= |row: RowView<Agent>|
        (row.tenant == tenant && row.value.scope is Tenant) || (row.tenant == "aegis-system"@
            && row.value.scope is Global));
    assert(active(tenant) =~= |row: RowView<Agent>|
        row.tenant == tenant && row.value.status is Active);
}

proof fn lemma_all_are_kept(rows: Seq<RowView<Agent>>)
    ensures
        rows.filter(any_agent()) == rows,
    decreases rows.len(),
{
    reveal(Seq::filter);
    if rows.len() > 0 {
        lemma_all_are_kept(rows.drop_last());
        assert(rows.drop_last().push(rows.last()) =~= rows);
    }
}

/// The agents that a tenant sees are listed by name: no name comes before one
/// that is listed earlier.
pub proof fn visible_agents_are_listed_by_name(
    rows: Seq<RowView<Agent>>,
    tenant: Seq<char>,
    i: int,
    j: int,
)
    requires
        0 <= i < j < sorting::ordered(store::selected(rows, visible(tenant)), by_name()).len(),
    ensures
        ({
            let listed = sorting::ordered(store::selected(rows, visible(tenant)), by_name());
            &&& !sorting::text_before(listed[j].name@, listed[i].name@)
            &&& listed.to_multiset() == store::selected(rows, visible(tenant)).to_multiset()
        }),
{
    let found = store::selected(rows, visible(tenant));
    orders_are_strict();
    sorting::ordered_sorts(found, by_name());
    let listed = sorting::ordered(found, by_name());
    assert(!by_name()(listed[j], listed[i]));
}

/// Whether a row is the tenant's own agent of that name and of tenant scope.
pub open spec fn is_own(row: RowView<Agent>, tenant: Seq<char>, name: Seq<char>) -> bool {
    row.tenant == tenant && row.value.name@ == name && row.value.scope is Tenant
}

/// Whether a row is the system tenant's agent of that name and of global scope.
pub open spec fn is_shared(row: RowView<Agent>, name: Seq<char>) -> bool {
    row.tenant == "aegis-system"@ && row.value.name@ == name && row.value.scope is Global
}

/// A name stands for the first agent of the tenant's own, else for the first
/// global one of the system tenant, and for nothing where there is neither.
pub proof fn names_stand_for_the_nearest(
    rows: Seq<RowView<Agent>>,
    tenant: Seq<char>,
    name: Seq<char>,
    i: int,
)
    requires
        0 <= i < rows.len(),
    ensures
        is_own(rows[i], tenant, name) && (forall|j: int|
            0 <= j < i ==> !is_own(#[trigger] rows[j], tenant, name)) ==> resolved(
            rows,
            tenant,
            name,
        ) == Some(rows[i].value),
        (forall|j: int| 0 <= j < rows.len() ==> !is_own(#[trigger] rows[j], tenant, name))
            && is_shared(rows[i], name) && (forall|j: int|
            0 <= j < i ==> !is_shared(#[trigger] rows[j], name)) ==> resolved(rows, tenant, name)
            == Some(rows[i].value),
        (forall|j: int|
            0 <= j < rows.len() ==> !is_own(#[trigger] rows[j], tenant, name) && !is_shared(
                rows[j],
                name,
            )) ==> resolved(rows, tenant, name) is None,
{
    let own = named_scope(tenant, name, AgentScope::Tenant);
    let shared = named_scope(shared_kernel::system_slug(), name, AgentScope::Global);
    store::selections_begin_with_the_first(rows, own);
    store::selections_begin_with_the_first(rows, shared);
    assert forall|j: int| 0 <= j < rows.len() implies own(#[trigger] rows[j]) == is_own(
        rows[j],
        tenant,
        name,
    ) && shared(rows[j]) == is_shared(rows[j], name) by {}
}

/// An identifier leads to the tenant's own agent before the system tenant's.
pub proof fn identifiers_lead_to_the_nearest(
    rows: Seq<RowView<Agent>>,
    tenant: Seq<char>,
    id: u128,
    i: int,
)
    requires
        store::distinct(rows),
        0 <= i < rows.len(),
        rows[i].id == id,
    ensures
        rows[i].tenant == tenant ==> found_visible(rows, tenant, id) == Some(rows[i].value),
        rows[i].tenant == "aegis-system"@ && (forall|j: int|
            0 <= j < rows.len() ==> (#[trigger] rows[j]).tenant != tenant || rows[j].id != id)
            ==> found_visible(rows, tenant, id) == Some(rows[i].value),
        found_visible(rows, tenant, id) is Some ==> exists|j: int|
            0 <= j < rows.len() && (#[trigger] rows[j]).id == id && (rows[j].tenant == tenant
                || rows[j].tenant == "aegis-system"@) && found_visible(rows, tenant, id) == Some(
                rows[j].value,
            ),
{
    store::lookups_find_their_row(rows, tenant, id, i);
    store::lookups_find_their_row(rows, "aegis-system"@, id, i);
    if store::holds(rows, tenant, id) {
        let k = store::place(rows, tenant, id);
        assert(store::is_under(rows[k], tenant, id));
    }
    if store::holds(rows, "aegis-system"@, id) {
        let k = store::place(rows, "aegis-system"@, id);
        assert(store::is_under(rows[k], "aegis-system"@, id));
    }
}

/// A deployment is refused exactly where the tenant's agent of that name has
/// that version and no force is used; a refusal changes nothing.
pub proof fn deployments_are_refused_for_their_version(
    before: Seq<RowView<Agent>>,
    after: Seq<RowView<Agent>>,
    r: Result<AgentId, Failure>,
    tenant_id: TenantId,
    manifest: AgentManifest,
    force: bool,
    scope: AgentScope,
    id: AgentId,
    now: Timestamp,
)
    requires
        deploys(before, after, r, tenant_id, manifest, force, scope, id, now),
    ensures
        force ==> r is Ok,
        r is Err ==> after == before,
        ({
            let found = latest(before, tenant_id@, manifest.metadata.name@);
            &&& found is None ==> r is Ok
            &&& found is Some && found->0.manifest.metadata.version@
                != manifest.metadata.version@ ==> r is Ok
            &&& found is Some && found->0.manifest.metadata.version@
                == manifest.metadata.version@ && !force ==> r is Err && r->Err_0@.len() == 1
                && r->Err_0@[0] == "Agent '"@ + found->0.name@ + "' version '"@
                + manifest.metadata.version@ + "' is already deployed (ID: "@
                + shared_kernel::uuid_text(found->0.id.0.bits)
                + "). Use --force to overwrite it."@
        }),
{
}

/// An agent that is deployed for the first time is active, is of the scope that
/// was asked for, belongs to the tenant, and stands at the end of the rows with
/// the identifier that is answered.
pub proof fn first_deployments_make_active_agents(
    before: Seq<RowView<Agent>>,
    after: Seq<RowView<Agent>>,
    r: Result<AgentId, Failure>,
    tenant_id: TenantId,
    manifest: AgentManifest,
    force: bool,
    scope: AgentScope,
    id: AgentId,
    now: Timestamp,
)
    requires
        deploys(before, after, r, tenant_id, manifest, force, scope, id, now),
        forall|j: int|
            0 <= j < before.len() ==> (#[trigger] before[j]).tenant != tenant_id@
                || before[j].value.name@ != manifest.metadata.name@,
        forall|j: int| 0 <= j < before.len() ==> (#[trigger] before[j]).id != id.0.bits,
    ensures
        r is Ok,
        r->Ok_0 == id,
        after.len() == before.len() + 1,
        after.drop_last() == before,
        after.last().tenant == tenant_id@,
        after.last().id == id.0.bits,
        after.last().value.id == id,
        after.last().value.tenant_id == tenant_id,
        after.last().value.scope == scope,
        after.last().value.name@ == manifest.metadata.name@,
        after.last().value.manifest == manifest,
        after.last().value.status is Active,
        after.last().value.created_at == now,
        after.last().value.updated_at == now,
{
    let keep = named(tenant_id@, manifest.metadata.name@);
    store::selections_begin_with_the_first(before, keep);
    assert(after.drop_last() =~= before);
}

/// Another manifest replaces the agent's manifest and name, and the time of its
/// last change; all else of it stays, and so does every other row. An agent that
/// is not there is an error and nothing changes.
pub proof fn updates_change_manifest_and_time(
    before: Seq<RowView<Agent>>,
    after: Seq<RowView<Agent>>,
    r: Result<(), Failure>,
    tenant: Seq<char>,
    id: AgentId,
    manifest: AgentManifest,
    now: Timestamp,
    i: int,
)
    requires
        store::distinct(before),
        store::keyed::<Agent>(before),
        updates(before, after, r, tenant, id, manifest, now),
        0 <= i < before.len(),
    ensures
        before[i].tenant == tenant && before[i].id == id.0.bits ==> r is Ok && after.len()
            == before.len() && after[i].value.manifest == manifest && after[i].value.name@
            == manifest.metadata.name@ && after[i].value.updated_at == now && after[i].value.id
            == before[i].value.id && after[i].value.scope == before[i].value.scope
            && after[i].value.status == before[i].value.status && after[i].value.created_at
            == before[i].value.created_at && after[i].value.tenant_id == before[i].value.tenant_id,
        before[i].tenant != tenant || before[i].id != id.0.bits ==> after[i] == before[i],
        (forall|j: int|
            0 <= j < before.len() ==> (#[trigger] before[j]).tenant != tenant || before[j].id
                != id.0.bits) ==> r is Err && r->Err_0@ == seq!["Agent not found"@] && after
            == before,
{
    store::lookups_find_their_row(before, tenant, id.0.bits, i);
    if store::holds(before, tenant, id.0.bits) {
        let k = store::place(before, tenant, id.0.bits);
        assert(store::is_under(before[k], tenant, id.0.bits));
        assert(before[k].id == before[k].value.id.0.bits);
        let agent = before[k].value;
        store::saving_keeps_the_other_rows(
            before,
            tenant,
            agent.id.0.bits,
            Agent { name: manifest.metadata.name, manifest, updated_at: now, ..agent },
            i,
        );
    }
}

/// A change of scope leaves all agents under other identifiers where they were,
/// and changes nothing where no agent has the identifier.
pub proof fn rescoping_touches_one_agent(
    rows: Seq<RowView<Agent>>,
    id: AgentId,
    scope: AgentScope,
    tenant_id: TenantId,
    other_tenant: Seq<char>,
    other_id: u128,
)
    requires
        store::distinct(rows),
    ensures
        other_id != id.0.bits ==> store::lookup(
            rescoped(rows, id, scope, tenant_id),
            other_tenant,
            other_id,
        ) == store::lookup(rows, other_tenant, other_id),
        (forall|j: int| 0 <= j < rows.len() ==> (#[trigger] rows[j]).id != id.0.bits) ==> rescoped(
            rows,
            id,
            scope,
            tenant_id,
        ) == rows,
{
    store::first_with_id_is_the_first(rows, id.0.bits);
    if let Some(i) = store::first_with_id(rows, id.0.bits) {
        let without = store::deleted(rows, rows[i].tenant, id.0.bits);
        store::deleted_is_gone(rows, rows[i].tenant, id.0.bits, other_tenant, other_id);
        store::saved_is_found(
            without,
            tenant_id@,
            id.0.bits,
            Agent { scope, tenant_id, ..rows[i].value },
            other_tenant,
            other_id,
        );
    }
}

} // verus!

use aegis_orchestrator_core::domain::agent::{
    Agent, AgentManifest, AgentScope, AgentStatus, ManifestMetadata,
};
use aegis_orchestrator_core::domain::events::StorageEvent;
use aegis_orchestrator_core::domain::execution::{
    Execution, ExecutionHierarchy, ExecutionInput, ExecutionStatus,
};
use aegis_orchestrator_core::domain::repository::RepositoryError;
use aegis_orchestrator_core::domain::shared_kernel::{
    AgentId, ExecutionId, TenantId, Uuid, VolumeId, WorkflowId,
};
use aegis_orchestrator_core::domain::volume::{Volume, VolumeOwnership, VolumeStatus};
use aegis_orchestrator_core::domain::workflow::{
    Blackboard, StateName, Workflow, WorkflowExecution, WorkflowMetadata, WorkflowScope,
};
use aegis_orchestrator_core::infrastructure::repositories::{
    InMemoryAgentRepository, InMemoryExecutionRepository, InMemoryStorageEventRepository,
    InMemoryVolumeRepository, InMemoryWorkflowExecutionRepository, InMemoryWorkflowRepository,
};
use aegis_orchestrator_core::support::clock::Timestamp;
use aegis_orchestrator_core::support::text_map::TextMap;
use serde_json::Value;

fn tenant(slug: &str) -> TenantId {
    TenantId::new(slug.to_string()).unwrap()
}

fn at(seconds: i64) -> Timestamp {
    Timestamp { seconds, nanos: 0 }
}

fn uuid(bits: u128) -> Uuid {
    Uuid { bits }
}

fn manifest(name: &str, version: &str) -> AgentManifest {
    AgentManifest {
        metadata: ManifestMetadata { name: name.to_string(), version: version.to_string() },
        spec: Value::Null,
    }
}

fn agent(id: u128, owner: &TenantId, name: &str, version: &str, scope: AgentScope) -> Agent {
    Agent {
        id: AgentId(uuid(id)),
        tenant_id: owner.clone(),
        scope,
        name: name.to_string(),
        manifest: manifest(name, version),
        status: AgentStatus::Active,
        created_at: at(1),
        updated_at: at(1),
    }
}

#[test]
fn test_in_memory_agent_repository_basic() {
    let mut repo = InMemoryAgentRepository::new();
    let tenant = tenant("zaru-consumer");

    // Test with empty repository
    let all_agents = repo.list_all_for_tenant(&tenant).unwrap();
    assert_eq!(all_agents.len(), 0);

    // Test finding non-existent agent
    let non_existent_id = AgentId(Uuid::new_v4());
    let result = repo.find_by_id_for_tenant(&tenant, non_existent_id).unwrap();
    assert!(result.is_none());

    // Test finding by non-existent name
    let result = repo.find_by_name_for_tenant(&tenant, "non-existent").unwrap();
    assert!(result.is_none());

    // Test deleting non-existent agent (should not error)
    let delete_result = repo.delete_for_tenant(&tenant, non_existent_id);
    assert!(delete_result.is_ok());
}

#[test]
fn agents_are_found_within_their_tenant() {
    let mut repo = InMemoryAgentRepository::default();
    let (a, b) = (tenant("a"), tenant("b"));
    repo.save_for_tenant(&a, &agent(1, &a, "x", "1.0.0", AgentScope::Tenant)).unwrap();
    assert!(repo.find_by_id_for_tenant(&a, AgentId(uuid(1))).unwrap().is_some());
    assert!(repo.find_by_id_for_tenant(&b, AgentId(uuid(1))).unwrap().is_none());
    repo.save_for_tenant(&a, &agent(1, &a, "renamed", "1.0.0", AgentScope::Tenant)).unwrap();
    assert_eq!(repo.list_all().unwrap().len(), 1);
    assert_eq!(repo.get_agent_for_tenant(&a, AgentId(uuid(1))).unwrap().name, "renamed");
    repo.delete_agent_for_tenant(&a, AgentId(uuid(1))).unwrap();
    assert_eq!(
        repo.get_agent_for_tenant(&a, AgentId(uuid(1))).unwrap_err().to_string(),
        "Agent not found"
    );
}

#[test]
fn names_stand_for_the_greatest_version() {
    let mut repo = InMemoryAgentRepository::new();
    let a = tenant("a");
    for (id, version) in [(1, "1.0.0"), (2, "1.2.0"), (3, "1.1.0")] {
        repo.save_for_tenant(&a, &agent(id, &a, "x", version, AgentScope::Tenant)).unwrap();
    }
    assert_eq!(repo.lookup_agent_for_tenant(&a, "x").unwrap(), Some(AgentId(uuid(2))));
    assert_eq!(
        repo.lookup_agent_for_tenant_with_version(&a, "x", "1.1.0").unwrap(),
        Some(AgentId(uuid(3)))
    );
    assert_eq!(repo.lookup_agent_for_tenant_with_version(&a, "x", "9").unwrap(), None);
    assert!(repo.list_versions_for_tenant(&a, AgentId(uuid(2))).unwrap().is_empty());
}

#[test]
fn tenants_see_their_own_agents_and_global_ones() {
    let mut repo = InMemoryAgentRepository::new();
    let (a, b, system) = (tenant("a"), tenant("b"), TenantId::system());
    repo.save_for_tenant(&a, &agent(1, &a, "shared", "1", AgentScope::Tenant)).unwrap();
    repo.save_for_tenant(&b, &agent(2, &b, "other", "1", AgentScope::Tenant)).unwrap();
    repo.save_for_tenant(&system, &agent(3, &system, "shared", "1", AgentScope::Global)).unwrap();
    repo.save_for_tenant(&system, &agent(4, &system, "basic", "1", AgentScope::Global)).unwrap();
    repo.save_for_tenant(&a, &agent(5, &a, "stray", "1", AgentScope::Global)).unwrap();
    let seen: Vec<u128> =
        repo.list_visible_for_tenant(&a).unwrap().iter().map(|x| x.id.0.bits).collect();
    assert_eq!(seen, vec![4, 1, 3]);
    assert_eq!(repo.list_agents_visible_for_tenant(&a).unwrap().len(), 3);
    assert_eq!(repo.list_agents_for_tenant(&a).unwrap().len(), 2);
    assert_eq!(
        repo.lookup_agent_visible_for_tenant(&a, "shared").unwrap(),
        Some(AgentId(uuid(1)))
    );
    assert_eq!(
        repo.lookup_agent_visible_for_tenant(&b, "shared").unwrap(),
        Some(AgentId(uuid(3)))
    );
    assert_eq!(repo.get_agent_visible(&b, AgentId(uuid(4))).unwrap().name, "basic");
    assert!(repo.get_agent_visible(&b, AgentId(uuid(1))).is_err());
    assert_eq!(repo.count_active(&a).unwrap(), 2);
}

#[test]
fn deployments_replace_other_versions_and_refuse_the_same() {
    let mut repo = InMemoryAgentRepository::new();
    let a = tenant("a");
    let id = AgentId(uuid(7));
    let first =
        repo.deploy_agent_at(&a, manifest("x", "1.0.0"), false, AgentScope::Tenant, id, at(5));
    assert_eq!(first.unwrap(), id);
    let again = repo
        .deploy_agent_for_tenant(&a, manifest("x", "1.0.0"), false, AgentScope::Global)
        .unwrap_err();
    assert_eq!(
        again.to_string(),
        "Agent 'x' version '1.0.0' is already deployed \
         (ID: 00000000-0000-0000-0000-000000000007). Use --force to overwrite it."
    );
    let forced = repo.deploy_agent_for_tenant(&a, manifest("x", "1.0.0"), true, AgentScope::Global);
    assert_eq!(forced.unwrap(), id);
    let newer = repo.deploy_agent_for_tenant(&a, manifest("x", "2.0.0"), false, AgentScope::Global);
    assert_eq!(newer.unwrap(), id);
    assert_eq!(repo.list_all_for_tenant(&a).unwrap().len(), 1);
    let stored = repo.get_agent_for_tenant(&a, id).unwrap();
    assert_eq!(stored.manifest.metadata.version, "2.0.0");
    assert_eq!(stored.scope, AgentScope::Tenant);
    assert_eq!(stored.created_at, at(5));
    let other = repo
        .deploy_agent_for_tenant(&a, manifest("y", "1.0.0"), false, AgentScope::Tenant)
        .unwrap();
    assert_ne!(other, id);
}

#[test]
fn agents_are_updated_and_moved() {
    let mut repo = InMemoryAgentRepository::new();
    let (a, system) = (tenant("a"), TenantId::system());
    repo.save_for_tenant(&a, &agent(1, &a, "x", "1", AgentScope::Tenant)).unwrap();
    let id = AgentId(uuid(1));
    repo.update_agent_for_tenant(&a, id, manifest("z", "3")).unwrap();
    assert_eq!(repo.get_agent_for_tenant(&a, id).unwrap().name, "z");
    assert!(repo.update_agent_for_tenant(&a, AgentId(uuid(2)), manifest("z", "3")).is_err());
    repo.update_scope(id, AgentScope::Global, &system).unwrap();
    assert!(repo.find_by_id_for_tenant(&a, id).unwrap().is_none());
    let moved = repo.find_by_id_for_tenant(&system, id).unwrap().unwrap();
    assert_eq!((moved.scope, moved.tenant_id), (AgentScope::Global, system));
    assert!(repo.update_scope(AgentId(uuid(9)), AgentScope::Global, &a).is_ok());
}

fn make_execution(owner: &TenantId, started_secs: i64) -> Execution {
    let id = ExecutionId(Uuid::new_v4());
    Execution {
        id,
        agent_id: AgentId(uuid(1)),
        tenant_id: owner.clone(),
        status: ExecutionStatus::Pending,
        iterations: vec![],
        max_iterations: 5,
        container_uid: 1000,
        container_gid: 1000,
        input: ExecutionInput { document: Value::from("t") },
        started_at: at(started_secs),
        ended_at: None,
        error: None,
        hierarchy: ExecutionHierarchy::root(id),
        security_context_name: "aegis-system-operator".to_string(),
        initiating_user_sub: None,
    }
}

#[test]
fn test_in_memory_execution_repository_basic() {
    let mut repo = InMemoryExecutionRepository::new();
    let tenant = tenant("zaru-consumer");

    // Test with empty repository
    let agent_id = AgentId(Uuid::new_v4());
    let agent_executions = repo.find_by_agent_for_tenant(&tenant, agent_id, 100).unwrap();
    assert_eq!(agent_executions.len(), 0);

    // Test finding non-existent execution
    let execution_id = ExecutionId(Uuid::new_v4());
    let result = repo.find_by_id_for_tenant(&tenant, execution_id).unwrap();
    assert!(result.is_none());

    // Test deleting non-existent execution (should not error)
    let delete_result = repo.delete_for_tenant(&tenant, execution_id);
    assert!(delete_result.is_ok());
}

#[test]
fn list_recent_all_paginated_returns_rows_from_multiple_tenants() {
    let mut repo = InMemoryExecutionRepository::new();
    let t_a = tenant("t-a");
    let t_b = tenant("t-b");
    let e_a = make_execution(&t_a, 1000);
    let e_b = make_execution(&t_b, 2000);
    repo.save_for_tenant(&t_a, &e_a).unwrap();
    repo.save_for_tenant(&t_b, &e_b).unwrap();

    let rows = repo.list_recent_all_paginated(100, 0).unwrap();
    assert_eq!(rows.len(), 2);
    let tenants: Vec<_> = rows.iter().map(|e| e.tenant_id.clone()).collect();
    assert!(tenants.contains(&t_a));
    assert!(tenants.contains(&t_b));
}

#[test]
fn list_recent_all_paginated_orders_newest_first() {
    let mut repo = InMemoryExecutionRepository::new();
    let t_a = tenant("t-a");
    let t_b = tenant("t-b");
    let older = make_execution(&t_a, 1000);
    let newer = make_execution(&t_b, 2000);
    repo.save_for_tenant(&t_a, &older).unwrap();
    repo.save_for_tenant(&t_b, &newer).unwrap();

    let rows = repo.list_recent_all_paginated(100, 0).unwrap();
    assert_eq!(rows[0].id, newer.id);
    assert_eq!(rows[1].id, older.id);
}

#[test]
fn list_recent_all_paginated_respects_offset_and_limit() {
    let mut repo = InMemoryExecutionRepository::new();
    let t = tenant("t-a");
    for i in 0..5 {
        let e = make_execution(&t, 1000 + i);
        repo.save_for_tenant(&t, &e).unwrap();
    }
    let page1 = repo.list_recent_all_paginated(2, 0).unwrap();
    let page2 = repo.list_recent_all_paginated(2, 2).unwrap();
    assert_eq!(page1.len(), 2);
    assert_eq!(page2.len(), 2);
    assert_ne!(page1[0].id, page2[0].id);
}

#[test]
fn executions_are_listed_and_counted_within_their_tenant() {
    let mut repo = InMemoryExecutionRepository::default();
    let (a, b) = (tenant("a"), tenant("b"));
    let mut newest = make_execution(&a, 30);
    newest.status = ExecutionStatus::Running;
    let mut done = make_execution(&a, 20);
    done.status = ExecutionStatus::Completed;
    done.agent_id = AgentId(uuid(2));
    let foreign = make_execution(&b, 40);
    for (owner, e) in [(&a, &done), (&a, &newest), (&b, &foreign)] {
        repo.save_for_tenant(owner, e).unwrap();
    }
    let recent: Vec<_> =
        repo.find_recent_for_tenant(&a, 10).unwrap().iter().map(|e| e.id).collect();
    assert_eq!(recent, vec![newest.id, done.id]);
    assert_eq!(repo.find_recent_for_tenant(&a, 1).unwrap().len(), 1);
    assert_eq!(repo.find_by_agent_for_tenant(&a, AgentId(uuid(2)), 10).unwrap()[0].id, done.id);
    assert_eq!(repo.count_by_agent_for_tenant(&a, AgentId(uuid(1))).unwrap(), 1);
    assert_eq!(repo.count_running(&a).unwrap(), 1);
    assert_eq!(repo.count_running(&b).unwrap(), 1);
    assert_eq!(repo.find_by_id_unscoped(foreign.id).unwrap().unwrap().tenant_id, b);
    assert!(repo.find_by_id_unscoped(ExecutionId(Uuid::nil())).unwrap().is_none());
    let by_workflow = repo.find_by_workflow_for_tenant(&a, WorkflowId(uuid(1)), 5).unwrap();
    assert!(by_workflow.is_empty());
    repo.delete_for_tenant(&b, foreign.id).unwrap();
    assert!(repo.find_by_id_for_tenant(&b, foreign.id).unwrap().is_none());
}

fn make_workflow_exec(owner: &TenantId, started_secs: i64) -> WorkflowExecution {
    WorkflowExecution {
        id: ExecutionId(Uuid::new_v4()),
        workflow_id: WorkflowId(uuid(1)),
        tenant_id: owner.clone(),
        status: ExecutionStatus::Running,
        current_state: StateName::new("start").unwrap(),
        blackboard: Blackboard::new(),
        input: Value::Null,
        state_outputs: TextMap::new(),
        final_output: None,
        started_at: at(started_secs),
        last_transition_at: at(started_secs),
    }
}

#[test]
fn list_paginated_all_workflow_executions_aggregates_across_tenants() {
    let mut repo = InMemoryWorkflowExecutionRepository::new();
    let t_a = tenant("t-a");
    let t_b = tenant("t-b");
    let older = make_workflow_exec(&t_a, 1000);
    let newer = make_workflow_exec(&t_b, 2000);
    repo.save_for_tenant(&t_a, &older).unwrap();
    repo.save_for_tenant(&t_b, &newer).unwrap();

    let rows = repo.list_paginated_all(100, 0).unwrap();
    assert_eq!(rows.len(), 2);
    assert_eq!(rows[0].id, newer.id);
    assert_eq!(rows[1].id, older.id);
}

#[test]
fn list_paginated_all_workflow_executions_respects_pagination() {
    let mut repo = InMemoryWorkflowExecutionRepository::new();
    let t = tenant("t-a");
    for i in 0..5 {
        let e = make_workflow_exec(&t, 1000 + i);
        repo.save_for_tenant(&t, &e).unwrap();
    }
    let p1 = repo.list_paginated_all(2, 0).unwrap();
    let p2 = repo.list_paginated_all(2, 2).unwrap();
    assert_eq!(p1.len(), 2);
    assert_eq!(p2.len(), 2);
    assert_ne!(p1[0].id, p2[0].id);
}

#[test]
fn workflow_executions_are_found_within_their_tenant() {
    let mut repo = InMemoryWorkflowExecutionRepository::default();
    let (blue, red) = (tenant("tenant-blue"), tenant("tenant-red"));
    let mut done = make_workflow_exec(&blue, 1);
    done.status = ExecutionStatus::Completed;
    done.blackboard.set("result".to_string(), Value::from("done"));
    let running = make_workflow_exec(&blue, 2);
    repo.save_for_tenant(&blue, &done).unwrap();
    repo.save_for_tenant(&blue, &running).unwrap();
    let saved = match repo.find_by_id_for_tenant(&blue, done.id).unwrap() {
        Some(saved) => saved,
        None => panic!("not found"),
    };
    assert_eq!(saved.blackboard.get("result"), Some(&Value::from("done")));
    assert!(saved.blackboard.get("other").is_none());
    assert!(repo.find_by_id_for_tenant(&red, done.id).unwrap().is_none());
    assert_eq!(repo.find_tenant_id_by_execution(done.id).unwrap(), Some(blue.clone()));
    assert_eq!(repo.find_tenant_id_by_execution(ExecutionId(Uuid::nil())).unwrap(), None);
    let active = repo.find_active_for_tenant(&blue).unwrap();
    assert_eq!(active.len(), 1);
    assert_eq!(active[0].id, running.id);
    let workflow = WorkflowId(uuid(1));
    assert_eq!(repo.count_by_workflow_for_tenant(&blue, workflow).unwrap(), 2);
    assert_eq!(repo.count_by_workflow_for_tenant(&red, workflow).unwrap(), 0);
    let page = repo.find_by_workflow_for_tenant(&blue, workflow, 1, 1).unwrap();
    assert_eq!(page[0].id, done.id);
    assert_eq!(repo.list_paginated_for_tenant(&blue, 10, 0).unwrap()[0].id, running.id);
    assert!(repo
        .append_event(done.id, 1, "x".to_string(), Value::Null, None)
        .is_ok());
    assert!(repo.find_events_by_execution(done.id, 10, 0).unwrap().is_empty());
    assert!(repo.update_temporal_linkage_for_tenant(&blue, done.id, "w", "r").is_ok());
}

fn workflow(
    id: u128,
    owner: &TenantId,
    name: &str,
    version: Option<&str>,
    scope: WorkflowScope,
    created: i64,
) -> Workflow {
    Workflow {
        id: WorkflowId(uuid(id)),
        tenant_id: owner.clone(),
        scope,
        metadata: WorkflowMetadata {
            name: name.to_string(),
            version: version.map(|v| v.to_string()),
        },
        spec: Value::Null,
        created_at: at(created),
    }
}

#[test]
fn test_in_memory_workflow_repository_basic() {
    let repo = InMemoryWorkflowRepository::new();
    let tenant = tenant("zaru-consumer");

    // Test with empty repository
    let all_workflows = repo.list_all_for_tenant(&tenant).unwrap();
    assert_eq!(all_workflows.len(), 0);

    // Test finding non-existent workflow
    let workflow_id = WorkflowId(Uuid::new_v4());
    let result = repo.find_by_id_for_tenant(&tenant, workflow_id).unwrap();
    assert!(result.is_none());

    // Test finding by non-existent name
    let result = repo.find_by_name_for_tenant(&tenant, "non-existent").unwrap();
    assert!(result.is_none());
}

#[test]
fn workflow_names_resolve_to_the_tenants_own_before_global_ones() {
    let mut repo = InMemoryWorkflowRepository::default();
    let (a, b, system) = (tenant("a"), tenant("b"), TenantId::system());
    for w in [
        workflow(1, &a, "w", Some("1.0.0"), WorkflowScope::Tenant, 1),
        workflow(2, &a, "w", Some("1.1.0"), WorkflowScope::Tenant, 2),
        workflow(3, &a, "w", None, WorkflowScope::Tenant, 3),
        workflow(4, &system, "w", Some("9.0.0"), WorkflowScope::Global, 4),
        workflow(5, &system, "g", Some("1.0.0"), WorkflowScope::Global, 5),
    ] {
        repo.save_for_tenant(&w.tenant_id, &w).unwrap();
    }
    let id = |w: Result<Option<Workflow>, RepositoryError>| w.unwrap().map(|w| w.id.0.bits);
    assert_eq!(id(repo.resolve_by_name(&a, "w")), Some(2));
    assert_eq!(id(repo.resolve_by_name(&b, "w")), Some(4));
    assert_eq!(id(repo.resolve_by_name(&b, "nothing")), None);
    assert_eq!(id(repo.resolve_by_name_and_version(&a, "w", "1.0.0")), Some(1));
    assert_eq!(id(repo.resolve_by_name_and_version(&a, "w", "9.0.0")), Some(4));
    assert_eq!(id(repo.find_by_name_for_tenant(&a, "w")), Some(2));
    assert_eq!(id(repo.find_by_name_and_version_for_tenant(&a, "w", "1.1.0")), Some(2));
    assert_eq!(id(repo.find_by_name_visible(&b, "g")), Some(5));
    assert_eq!(id(repo.find_by_id_visible(&b, WorkflowId(uuid(5)))), Some(5));
    assert!(repo.get_workflow_visible(&b, WorkflowId(uuid(1))).unwrap().is_none());
    assert_eq!(repo.get_workflow_visible(&b, WorkflowId(uuid(4))).unwrap().unwrap().id.0.bits, 4);
    let ids = |ws: Result<Vec<Workflow>, RepositoryError>| {
        ws.unwrap().iter().map(|w| w.id.0.bits).collect::<Vec<_>>()
    };
    assert_eq!(ids(repo.list_by_name_for_tenant(&a, "w")), vec![3, 2, 1]);
    assert_eq!(ids(repo.list_global()), vec![5, 4]);
    assert_eq!(ids(repo.list_visible(&b)), vec![5, 4]);
    assert_eq!(ids(repo.list_visible(&a)).len(), 5);
    assert_eq!(ids(repo.list_all()).len(), 5);
}

#[test]
fn workflows_are_moved_and_deleted() {
    let mut repo = InMemoryWorkflowRepository::new();
    let (a, system) = (tenant("a"), TenantId::system());
    let w = workflow(1, &a, "w", None, WorkflowScope::Tenant, 1);
    repo.save_for_tenant(&a, &w).unwrap();
    repo.update_scope(w.id, WorkflowScope::Global, &system).unwrap();
    assert!(repo.find_by_id_for_tenant(&a, w.id).unwrap().is_none());
    let moved = repo.find_by_id_for_tenant(&system, w.id).unwrap().unwrap();
    assert_eq!((moved.scope, moved.tenant_id), (WorkflowScope::Global, system.clone()));
    assert_eq!(
        repo.update_scope(WorkflowId(uuid(2)), WorkflowScope::Global, &a),
        Err(RepositoryError::NotFound(
            "Workflow 00000000-0000-0000-0000-000000000002 not found".to_string()
        ))
    );
    repo.delete_for_tenant(&system, w.id).unwrap();
    assert!(repo.list_all_for_tenant(&system).unwrap().is_empty());
}

fn volume(id: u128, owner: &TenantId, ownership: VolumeOwnership, size: u64) -> Volume {
    Volume {
        id: VolumeId(uuid(id)),
        name: format!("vol-{id}"),
        tenant_id: owner.clone(),
        storage_class: Value::from("persistent"),
        backend: Value::Null,
        size_limit_bytes: size,
        status: VolumeStatus::Available,
        ownership,
        created_at: at(1),
        attached_at: Some(at(2)),
        detached_at: None,
        expires_at: None,
        host_node_id: None,
    }
}

fn persistent(owner: &str) -> VolumeOwnership {
    VolumeOwnership::Persistent { owner: owner.to_string() }
}

#[test]
fn volumes_are_found_by_owner_and_expiry() {
    let mut repo = InMemoryVolumeRepository::default();
    let (a, b) = (tenant("a"), tenant("b"));
    let execution = ExecutionId(uuid(99));
    let mut gone = volume(3, &a, persistent("u"), 1000);
    gone.status = VolumeStatus::Deleted;
    let mut short = volume(4, &a, VolumeOwnership::Execution { execution_id: execution }, 5);
    short.expires_at = Some(at(10));
    for v in [
        volume(1, &a, persistent("u"), 100),
        volume(2, &a, persistent("u"), 20),
        gone,
        short,
        volume(5, &b, persistent("u"), 7),
    ] {
        repo.save(&v).unwrap();
    }
    let ids = |vs: Result<Vec<Volume>, RepositoryError>| {
        vs.unwrap().iter().map(|v| v.id.0.bits).collect::<Vec<_>>()
    };
    assert_eq!(ids(repo.find_by_tenant(&a)), vec![1, 2, 3, 4]);
    assert_eq!(ids(repo.find_by_owner(&a, "u")), vec![1, 2]);
    assert_eq!(repo.count_by_owner(&a, "u").unwrap(), 2);
    assert_eq!(repo.sum_allocated_size_by_owner(&a, "u").unwrap(), 120);
    assert_eq!(ids(repo.find_by_ownership(&persistent("u"))), vec![1, 2, 3, 5]);
    assert_eq!(
        ids(repo.find_by_ownership(&VolumeOwnership::Execution { execution_id: execution })),
        vec![4]
    );
    assert_eq!(ids(repo.find_expired_at(at(10))), Vec::<u128>::new());
    assert_eq!(ids(repo.find_expired_at(at(11))), vec![4]);
    assert_eq!(ids(repo.find_expired()), vec![4]);
    repo.delete(VolumeId(uuid(2))).unwrap();
    assert!(repo.find_by_id(VolumeId(uuid(2))).unwrap().is_none());
    assert_eq!(repo.find_by_id(VolumeId(uuid(1))).unwrap().unwrap().name, "vol-1");
    assert!(repo.delete(VolumeId(uuid(2))).is_ok());
}

fn read(execution: Option<u128>, volume: u128) -> StorageEvent {
    read_at(execution, volume, 1)
}

fn read_at(execution: Option<u128>, volume: u128, seconds: i64) -> StorageEvent {
    StorageEvent::FileRead {
        execution_id: execution.map(|e| ExecutionId(uuid(e))),
        volume_id: VolumeId(uuid(volume)),
        detail: "/a".to_string(),
        at: at(seconds),
    }
}

fn quota(execution: Option<u128>, volume: u128) -> StorageEvent {
    StorageEvent::QuotaExceeded {
        execution_id: execution.map(|e| ExecutionId(uuid(e))),
        volume_id: VolumeId(uuid(volume)),
        detail: "/a".to_string(),
        at: at(1),
    }
}

fn traversal(execution: u128) -> StorageEvent {
    StorageEvent::PathTraversalBlocked {
        execution_id: Some(ExecutionId(uuid(execution))),
        detail: "/..".to_string(),
        at: at(1),
    }
}

#[test]
fn storage_events_are_found_by_execution_volume_and_violation() {
    let mut repo = InMemoryStorageEventRepository::default();
    for event in [read(Some(1), 10), read(Some(2), 10), quota(Some(1), 11), traversal(2), quota(None, 10)]
    {
        repo.save(&event).unwrap();
    }
    let one = ExecutionId(uuid(1));
    assert_eq!(
        repo.find_by_execution(one, None).unwrap(),
        vec![read(Some(1), 10), quota(Some(1), 11)]
    );
    assert_eq!(repo.find_by_execution(one, Some(1)).unwrap(), vec![read(Some(1), 10)]);
    assert_eq!(repo.find_by_execution(one, Some(9)).unwrap().len(), 2);
    let ten = VolumeId(uuid(10));
    assert_eq!(
        repo.find_by_volume(ten, None).unwrap(),
        vec![read(Some(1), 10), read(Some(2), 10), quota(None, 10)]
    );
    assert!(repo.find_by_volume(ten, Some(0)).unwrap().is_empty());
    assert_eq!(
        repo.find_violations(None).unwrap(),
        vec![quota(Some(1), 11), traversal(2), quota(None, 10)]
    );
    assert_eq!(repo.find_violations(Some(one)).unwrap(), vec![quota(Some(1), 11)]);
}

#[test]
fn trails_of_executions_are_newest_first() {
    let mut repo = InMemoryStorageEventRepository::new();
    for seconds in [2, 5, 3] {
        repo.save(&read_at(Some(1), 10, seconds)).unwrap();
    }
    let one = ExecutionId(uuid(1));
    let trail: Vec<_> =
        [5, 3, 2].iter().map(|seconds| read_at(Some(1), 10, *seconds)).collect();
    assert_eq!(repo.find_by_execution(one, None).unwrap(), trail);
    assert_eq!(repo.find_by_execution(one, Some(2)).unwrap(), trail[..2]);
    assert_eq!(repo.find_by_volume(VolumeId(uuid(10)), Some(1)).unwrap(), vec![read_at(Some(1), 10, 2)]);
}

#[test]
fn repository_errors_say_what_happened() {
    assert_eq!(
        RepositoryError::NotFound("x".to_string()).to_string(),
        "Entity not found: x"
    );
    assert_eq!(RepositoryError::Database("x".to_string()).to_string(), "Database error: x");
    assert_eq!(
        RepositoryError::Serialization("x".to_string()).to_string(),
        "Serialization error: x"
    );
    assert_eq!(RepositoryError::Unknown("x".to_string()).to_string(), "Unknown error: x");
    assert_eq!(
        RepositoryError::from_database(true, "anything".to_string()),
        RepositoryError::NotFound("Row not found".to_string())
    );
    assert_eq!(
        RepositoryError::from_database(false, "down".to_string()),
        RepositoryError::Database("down".to_string())
    );
}

use aegis_orchestrator_core::domain::edge::{
    EdgeCapabilities, EdgeConnectionState, EdgeGroup, EdgeGroupId, EdgeGroupRepoError,
    EdgeRouterError, EdgeSelector, EnrollmentTokenError, LabelMatch, NodePeerStatus, TagMatch,
};
use aegis_orchestrator_core::domain::shared_kernel::{NodeId, TenantId, Uuid};
use aegis_orchestrator_core::infrastructure::edge::group_repo::{
    created, deleted, is_unique_violation, pinned_column, row_to_group, updated, GroupColumns,
    StatementOutcome,
};
use aegis_orchestrator_core::infrastructure::edge::postgres_repo::{
    edge_to_row, parse_status, record_heartbeat, row_to_edge, row_to_edge_at, status_to_str,
    update_capabilities, update_display_name, update_status, update_tags, DaemonAssignments,
    DaemonColumns,
};
use aegis_orchestrator_core::support::clock::{Span, Timestamp};
use aegis_orchestrator_core::support::failure::Failure;

fn caps_with(
    os: &str,
    arch: &str,
    tools: &[&str],
    labels: &[(&str, &str)],
    tags: &[&str],
) -> EdgeCapabilities {
    let mut caps = EdgeCapabilities::default();
    caps.os = os.to_string();
    caps.arch = arch.to_string();
    caps.local_tools = tools.iter().map(|s| s.to_string()).collect();
    for (k, v) in labels {
        caps.custom_labels.insert(k.to_string(), v.to_string());
    }
    caps.tags = tags.iter().map(|s| s.to_string()).collect();
    caps
}

#[test]
fn satisfies_os_arch_tools_and() {
    let caps = caps_with("linux", "x86_64", &["docker", "kubectl"], &[], &[]);
    let sel = EdgeSelector {
        os: Some("linux".into()),
        arch: Some("x86_64".into()),
        tools: vec!["docker".into()],
        ..Default::default()
    };
    assert!(caps.satisfies(&sel));

    let sel_bad_os = EdgeSelector {
        os: Some("darwin".into()),
        ..Default::default()
    };
    assert!(!caps.satisfies(&sel_bad_os));

    let sel_missing_tool = EdgeSelector {
        tools: vec!["helm".into()],
        ..Default::default()
    };
    assert!(!caps.satisfies(&sel_missing_tool));
}

#[test]
fn label_match_variants() {
    let caps = caps_with(
        "linux",
        "x86_64",
        &[],
        &[("region", "us"), ("gpu", "rtx-4090")],
        &[],
    );
    assert!(caps.satisfies(&EdgeSelector {
        labels: vec![LabelMatch::Equals("region".into(), "us".into())],
        ..Default::default()
    }));
    assert!(!caps.satisfies(&EdgeSelector {
        labels: vec![LabelMatch::Equals("region".into(), "eu".into())],
        ..Default::default()
    }));
    assert!(caps.satisfies(&EdgeSelector {
        labels: vec![LabelMatch::Exists("gpu".into())],
        ..Default::default()
    }));
    assert!(!caps.satisfies(&EdgeSelector {
        labels: vec![LabelMatch::Exists("missing".into())],
        ..Default::default()
    }));
    assert!(caps.satisfies(&EdgeSelector {
        labels: vec![LabelMatch::In(
            "region".into(),
            vec!["us".into(), "eu".into()]
        )],
        ..Default::default()
    }));
}

#[test]
fn tag_match_variants() {
    let caps = caps_with("linux", "x86_64", &[], &[], &["prod", "db-host"]);
    assert!(caps.satisfies(&EdgeSelector {
        tags: vec![TagMatch::Has("prod".into())],
        ..Default::default()
    }));
    assert!(caps.satisfies(&EdgeSelector {
        tags: vec![TagMatch::AnyOf(vec!["x".into(), "prod".into()])],
        ..Default::default()
    }));
    assert!(!caps.satisfies(&EdgeSelector {
        tags: vec![TagMatch::AnyOf(vec!["x".into(), "y".into()])],
        ..Default::default()
    }));
    assert!(caps.satisfies(&EdgeSelector {
        tags: vec![TagMatch::AllOf(vec!["prod".into(), "db-host".into()])],
        ..Default::default()
    }));
    assert!(!caps.satisfies(&EdgeSelector {
        tags: vec![TagMatch::AllOf(vec!["prod".into(), "x".into()])],
        ..Default::default()
    }));
    assert!(caps.satisfies(&EdgeSelector {
        tags: vec![TagMatch::NoneOf(vec!["staging".into()])],
        ..Default::default()
    }));
    assert!(!caps.satisfies(&EdgeSelector {
        tags: vec![TagMatch::NoneOf(vec!["prod".into()])],
        ..Default::default()
    }));
}

#[test]
fn satisfies_compound_and() {
    let caps = caps_with(
        "linux",
        "x86_64",
        &["docker"],
        &[("region", "us")],
        &["prod"],
    );
    let sel = EdgeSelector {
        os: Some("linux".into()),
        arch: Some("x86_64".into()),
        tools: vec!["docker".into()],
        labels: vec![LabelMatch::Equals("region".into(), "us".into())],
        tags: vec![TagMatch::Has("prod".into())],
    };
    assert!(caps.satisfies(&sel));
}

#[test]
fn empty_selector_accepts_every_daemon() {
    let selector = EdgeSelector::default();
    assert!(EdgeCapabilities::default().satisfies(&selector));
    assert!(caps_with("linux", "arm64", &["git"], &[("a", "b")], &["x"]).satisfies(&selector));
}

#[test]
fn selectors_of_two_lists_hold_where_both_hold() {
    let caps = caps_with("linux", "x86_64", &["docker"], &[], &["prod"]);
    let a = EdgeSelector { tools: vec!["docker".into()], ..Default::default() };
    let b = EdgeSelector { tags: vec![TagMatch::Has("staging".into())], ..Default::default() };
    let both = EdgeSelector {
        tools: vec!["docker".into()],
        tags: vec![TagMatch::Has("staging".into())],
        ..Default::default()
    };
    assert!(caps.satisfies(&a));
    assert!(!caps.satisfies(&b));
    assert!(!caps.satisfies(&both));
}

#[test]
fn none_of_is_the_opposite_of_any_of() {
    let tags = vec!["a".to_string(), "b".to_string()];
    for wanted in [vec!["a".to_string()], vec!["z".to_string()], vec![]] {
        let any = TagMatch::AnyOf(wanted.clone()).matches(&tags);
        let none = TagMatch::NoneOf(wanted).matches(&tags);
        assert_ne!(any, none);
    }
    assert!(TagMatch::AllOf(vec![]).matches(&tags));
}

#[test]
fn group_ids_are_random_and_print_as_uuids() {
    let a = EdgeGroupId::new();
    let b = EdgeGroupId::default();
    assert_ne!(a, b);
    assert_eq!(a.to_string().len(), 36);
    assert_eq!(Uuid::parse_str(&a.to_string()), Ok(a.0));
}

#[test]
fn edge_errors_say_what_happened() {
    let node_id = NodeId(Uuid { bits: 1 });
    let id = "00000000-0000-0000-0000-000000000001";
    assert_eq!(
        EdgeRouterError::EdgeUnavailable { node_id }.to_string(),
        format!("edge {id} unavailable")
    );
    assert_eq!(EdgeRouterError::NoMatchingEdges.to_string(), "no edge matches selector");
    assert_eq!(
        EdgeRouterError::CrossTenantAccessDenied { node_id, tenant: "acme".into() }.to_string(),
        format!("edge {id} not owned by tenant acme")
    );
    assert_eq!(
        EdgeRouterError::GroupNotFound(EdgeGroupId(Uuid { bits: 1 })).to_string(),
        format!("edge group {id} not found")
    );
    assert_eq!(
        EdgeRouterError::Timeout(Span::from_secs(5)).to_string(),
        "dispatch deadline 5s exceeded"
    );
    assert_eq!(
        EdgeRouterError::Timeout(Span::new(1, 500_000_000).unwrap()).to_string(),
        "dispatch deadline 1.5s exceeded"
    );
    assert_eq!(
        EdgeRouterError::EdgeDisconnected.to_string(),
        "edge disconnected during dispatch"
    );
    assert_eq!(
        EdgeRouterError::InsufficientTargets { required: 3, available: 1 }.to_string(),
        "require_min_targets=3 but only 1 matched"
    );
    assert_eq!(EnrollmentTokenError::AlreadyRedeemed.to_string(), "token already redeemed");
    assert_eq!(EnrollmentTokenError::NotFound.to_string(), "token not found");
    assert_eq!(EnrollmentTokenError::Other(Failure::msg("boom")).to_string(), "boom");
    assert_eq!(
        EdgeGroupRepoError::GroupExists.to_string(),
        "group with name already exists for tenant"
    );
    assert_eq!(EdgeGroupRepoError::NotFound.to_string(), "group not found");
    assert_eq!(EdgeGroupRepoError::Other(Failure::msg("boom")).to_string(), "boom");
}

const AT: Timestamp = Timestamp { seconds: 1_700_000_000, nanos: 0 };

fn group_row(tenant: &str) -> GroupColumns {
    GroupColumns {
        id: Uuid { bits: 7 },
        tenant_id: tenant.to_string(),
        name: "gpu".to_string(),
        selector: EdgeSelector { os: Some("linux".into()), ..Default::default() },
        pinned_members: vec![Uuid { bits: 1 }, Uuid { bits: 2 }],
        created_by: "ops".to_string(),
        created_at: AT,
    }
}

#[test]
fn group_rows_are_read() {
    let group: EdgeGroup = row_to_group(group_row("acme")).unwrap();
    assert_eq!(group.id, EdgeGroupId(Uuid { bits: 7 }));
    assert_eq!(group.tenant_id.as_str(), "acme");
    assert_eq!(group.name, "gpu");
    assert_eq!(group.selector.os.as_deref(), Some("linux"));
    assert_eq!(group.pinned_members, vec![NodeId(Uuid { bits: 1 }), NodeId(Uuid { bits: 2 })]);
    assert_eq!(group.created_by, "ops");
    assert_eq!(pinned_column(&group), vec![Uuid { bits: 1 }, Uuid { bits: 2 }]);
}

#[test]
fn group_rows_without_a_tenant_are_refused() {
    let error = row_to_group(group_row("")).unwrap_err();
    assert_eq!(error.to_string(), "invalid tenant: tenant id must not be empty");
}

#[test]
fn group_statements_report_duplicates_and_absence() {
    let taken = StatementOutcome::Refused {
        code: Some("23505".to_string()),
        message: "duplicate key".to_string(),
    };
    let broken = StatementOutcome::Refused { code: None, message: "closed".to_string() };
    assert!(created(&StatementOutcome::Touched(1)).is_ok());
    assert!(matches!(created(&taken), Err(EdgeGroupRepoError::GroupExists)));
    assert_eq!(created(&broken).unwrap_err().to_string(), "closed");
    assert!(matches!(updated(&StatementOutcome::Touched(0)), Err(EdgeGroupRepoError::NotFound)));
    assert!(updated(&StatementOutcome::Touched(1)).is_ok());
    assert!(matches!(updated(&taken), Err(EdgeGroupRepoError::GroupExists)));
    assert!(matches!(deleted(&StatementOutcome::Touched(0)), Err(EdgeGroupRepoError::NotFound)));
    assert!(deleted(&StatementOutcome::Touched(2)).is_ok());
    assert_eq!(deleted(&taken).unwrap_err().to_string(), "duplicate key");
    assert!(is_unique_violation(&Some("23505".to_string())));
    assert!(!is_unique_violation(&Some("23503".to_string())));
    assert!(!is_unique_violation(&None));
}

#[test]
fn daemon_status_survives_storage() {
    for status in [NodePeerStatus::Active, NodePeerStatus::Draining, NodePeerStatus::Unhealthy] {
        assert_eq!(parse_status(status_to_str(status)), status);
    }
    assert_eq!(status_to_str(NodePeerStatus::Draining), "draining");
    assert_eq!(parse_status("whatever"), NodePeerStatus::Unhealthy);
}

fn daemon_row(tenant: &str) -> DaemonColumns {
    DaemonColumns {
        node_id: Uuid { bits: 9 },
        tenant_id: tenant.to_string(),
        public_key: vec![1, 2, 3],
        capabilities: caps_with("linux", "x86_64", &["docker"], &[], &["from-the-daemon"]),
        tags: vec!["prod".to_string()],
        status: "active".to_string(),
        enrolled_at: AT,
        last_heartbeat_at: None,
        display_name: "box".to_string(),
    }
}

#[test]
fn daemon_rows_take_tags_from_their_column() {
    let daemon = match row_to_edge_at(daemon_row("acme"), AT) {
        Ok(daemon) => daemon,
        Err(e) => panic!("{}", e.to_string()),
    };
    assert_eq!(daemon.node_id, NodeId(Uuid { bits: 9 }));
    assert_eq!(daemon.tenant_id, TenantId::new("acme".to_string()).unwrap());
    assert_eq!(daemon.capabilities.tags, vec!["prod".to_string()]);
    assert_eq!(daemon.capabilities.local_tools, vec!["docker".to_string()]);
    assert_eq!(daemon.status, NodePeerStatus::Active);
    assert_eq!(daemon.public_key, vec![1, 2, 3]);
    assert!(matches!(daemon.connection, EdgeConnectionState::Disconnected { since } if since == AT));
}

#[test]
fn daemon_rows_without_a_tenant_are_refused() {
    match row_to_edge(daemon_row("")) {
        Ok(_) => panic!("a daemon without a tenant"),
        Err(e) => assert_eq!(e.to_string(), "invalid tenant_id: tenant id must not be empty"),
    }
    assert!(row_to_edge(daemon_row("acme")).is_ok());
}

/// The row with the assignments carried out.
fn assign(row: &DaemonColumns, set: DaemonAssignments, now: Timestamp) -> DaemonColumns {
    let row = row.clone();
    DaemonColumns {
        capabilities: set.capabilities.unwrap_or(row.capabilities),
        tags: set.tags.unwrap_or(row.tags),
        status: set.status.map(|s| s.to_string()).unwrap_or(row.status),
        display_name: set.display_name.unwrap_or(row.display_name),
        last_heartbeat_at: if set.heartbeat { Some(now) } else { row.last_heartbeat_at },
        node_id: row.node_id,
        tenant_id: row.tenant_id,
        public_key: row.public_key,
        enrolled_at: row.enrolled_at,
    }
}

#[test]
fn new_capabilities_leave_the_tags() {
    let row = daemon_row("acme");
    let advertised = caps_with("macos", "arm64", &["git"], &[("zone", "b")], &["usurped"]);
    let after = assign(&row, update_capabilities(advertised), AT);
    let daemon = row_to_edge_at(after, AT).unwrap();
    assert_eq!(daemon.capabilities.os, "macos");
    assert_eq!(daemon.capabilities.arch, "arm64");
    assert_eq!(daemon.capabilities.local_tools, vec!["git"]);
    assert_eq!(daemon.capabilities.custom_labels.get("zone").map(|v| v.as_str()), Some("b"));
    assert_eq!(daemon.capabilities.tags, vec!["prod"]);
    assert_eq!(daemon.tenant_id.as_str(), "acme");
    assert_eq!(daemon.public_key, vec![1, 2, 3]);
    assert_eq!(daemon.status, NodePeerStatus::Active);
    assert_eq!((daemon.enrolled_at, daemon.last_heartbeat_at), (AT, None));
    assert_eq!(daemon.display_name, "box");
}

#[test]
fn statements_set_one_thing_each() {
    let row = daemon_row("acme");
    let daemon = row_to_edge_at(assign(&row, update_tags(vec!["x".to_string()]), AT), AT).unwrap();
    assert_eq!(daemon.capabilities.tags, vec!["x"]);
    assert_eq!(daemon.capabilities.os, "linux");
    let drained = assign(&row, update_status(NodePeerStatus::Draining), AT);
    assert_eq!((drained.status.as_str(), drained.last_heartbeat_at), ("draining", None));
    let later = Timestamp { seconds: 9, nanos: 0 };
    let alive = row_to_edge_at(assign(&drained, record_heartbeat(), later), AT).unwrap();
    assert_eq!(alive.status, NodePeerStatus::Active);
    assert_eq!(alive.last_heartbeat_at, Some(later));
    assert_eq!(alive.capabilities.tags, vec!["prod"]);
    let named = assign(&row, update_display_name("shed".to_string()), AT);
    assert_eq!((named.display_name.as_str(), named.status.as_str()), ("shed", "active"));
}

#[test]
fn daemons_are_written_as_they_are_read() {
    let daemon = row_to_edge_at(daemon_row("acme"), AT).unwrap();
    let row = edge_to_row(daemon.clone());
    assert_eq!(row.tags, vec!["prod"]);
    assert_eq!(row.status, "active");
    let again = row_to_edge_at(row, AT).unwrap();
    assert_eq!(format!("{again:?}"), format!("{daemon:?}"));
}

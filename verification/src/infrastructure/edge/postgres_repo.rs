//! Edge daemons as rows of the `edge_daemons` table.

use vstd::prelude::*;
use crate::domain::edge::{EdgeCapabilities, EdgeConnectionState, EdgeDaemon, NodePeerStatus};
use crate::domain::shared_kernel::{NodeId, TenantId, Uuid};
use crate::support::clock::Timestamp;
use crate::support::failure::Failure;
use crate::support::text::same_text;

verus! {

/// The columns that a daemon is read from. Tags have a column of their own.
#[derive(Clone, Debug)]
pub struct DaemonColumns {
    pub node_id: Uuid,
    pub tenant_id: String,
    pub public_key: Vec<u8>,
    pub capabilities: EdgeCapabilities,
    pub tags: Vec<String>,
    pub status: String,
    pub enrolled_at: Timestamp,
    pub last_heartbeat_at: Option<Timestamp>,
    pub display_name: String,
}

/// How a status is stored.
pub open spec fn status_name(s: NodePeerStatus) -> Seq<char> {
    match s {
        NodePeerStatus::Active => "active"@,
        NodePeerStatus::Draining => "draining"@,
        NodePeerStatus::Unhealthy => "unhealthy"@,
    }
}

/// The status that is stored as `name`; what is not known counts as unhealthy.
pub open spec fn status_named(name: Seq<char>) -> NodePeerStatus {
    if name == "active"@ {
        NodePeerStatus::Active
    } else if name == "draining"@ {
        NodePeerStatus::Draining
    } else {
        NodePeerStatus::Unhealthy
    }
}

/// A status is read back as it was stored.
pub proof fn status_survives_storage(s: NodePeerStatus)
    ensures
        status_named(status_name(s)) == s,
{
    reveal_strlit("active");
    reveal_strlit("draining");
    reveal_strlit("unhealthy");
    assert("active"@[0] == 'a');
    assert("draining"@[0] == 'd');
    assert("unhealthy"@[0] == 'u');
}

/// How a status is stored.
pub fn status_to_str(s: NodePeerStatus) -> (r: &'static str)
    ensures
        r@ == status_name(s),
{
    match s {
        NodePeerStatus::Active => "active",
        NodePeerStatus::Draining => "draining",
        NodePeerStatus::Unhealthy => "unhealthy",
    }
}

/// The status that is stored as `s`.
pub fn parse_status(s: &str) -> (r: NodePeerStatus)
    ensures
        r == status_named(s@),
{
    if same_text(s, "active") {
        NodePeerStatus::Active
    } else if same_text(s, "draining") {
        NodePeerStatus::Draining
    } else {
        NodePeerStatus::Unhealthy
    }
}

/// Whether `daemon` is what `row` stands for. What the capabilities say of tags
/// does not count, and no stream is open.
pub open spec fn is_daemon_of(daemon: EdgeDaemon, row: DaemonColumns, now: Timestamp) -> bool {
    &&& daemon.node_id == NodeId(row.node_id)
    &&& daemon.tenant_id@ == row.tenant_id@
    &&& daemon.public_key == row.public_key
    &&& daemon.capabilities == (EdgeCapabilities { tags: row.tags, ..row.capabilities })
    &&& daemon.status == status_named(row.status@)
    &&& daemon.connection == (EdgeConnectionState::Disconnected { since: now })
    &&& daemon.last_heartbeat_at == row.last_heartbeat_at
    &&& daemon.enrolled_at == row.enrolled_at
    &&& daemon.display_name == row.display_name
}

/// The daemon that a row stands for, read at the given time.
pub fn row_to_edge_at(row: DaemonColumns, now: Timestamp) -> (r: Result<EdgeDaemon, Failure>)
    ensures
        row.tenant_id@.len() > 0 ==> r is Ok && is_daemon_of(r->Ok_0, row, now),
        row.tenant_id@.len() == 0 ==> r is Err && r->Err_0@ == seq![
            "invalid tenant_id: "@ + "tenant id must not be empty"@,
        ],
{
    let capabilities = EdgeCapabilities { tags: row.tags, ..row.capabilities };
    let tenant_id = match TenantId::new(row.tenant_id) {
        Ok(tenant) => tenant,
        Err(e) => return Err(
            Failure::new("invalid tenant_id: ".to_owned().concat(e.to_string().as_str())),
        ),
    };
    Ok(
        EdgeDaemon {
            node_id: NodeId(row.node_id),
            tenant_id,
            public_key: row.public_key,
            capabilities,
            status: parse_status(row.status.as_str()),
            connection: EdgeConnectionState::Disconnected { since: now },
            last_heartbeat_at: row.last_heartbeat_at,
            enrolled_at: row.enrolled_at,
            display_name: row.display_name,
        },
    )
}

/// The daemon that a row stands for.
pub fn row_to_edge(row: DaemonColumns) -> (r: Result<EdgeDaemon, Failure>)
    ensures
        row.tenant_id@.len() > 0 ==> r is Ok && exists|now: Timestamp|
            now.seconds >= 0 && now.nanos < 1_000_000_000 && #[trigger] is_daemon_of(
                r->Ok_0,
                row,
                now,
            ),
        row.tenant_id@.len() == 0 ==> r is Err && r->Err_0@ == seq![
            "invalid tenant_id: "@ + "tenant id must not be empty"@,
        ],
{
    row_to_edge_at(row, Timestamp::now())
}

/// The row that a daemon is written as.
pub fn edge_to_row(edge: EdgeDaemon) -> (r: DaemonColumns)
    ensures
        is_row_of(r, edge),
{
    let tags = edge.capabilities.tags.clone();
    proof {
        assert(tags@ =~= edge.capabilities.tags@);
    }
    DaemonColumns {
        node_id: edge.node_id.0,
        tenant_id: edge.tenant_id.as_str().to_owned(),
        public_key: edge.public_key,
        capabilities: edge.capabilities,
        tags,
        status: status_to_str(edge.status).to_owned(),
        enrolled_at: edge.enrolled_at,
        last_heartbeat_at: edge.last_heartbeat_at,
        display_name: edge.display_name,
    }
}

/// Whether `row` is what `edge` is written as.
pub open spec fn is_row_of(row: DaemonColumns, edge: EdgeDaemon) -> bool {
    &&& row.node_id == edge.node_id.0
    &&& row.tenant_id@ == edge.tenant_id@
    &&& row.public_key == edge.public_key
    &&& row.capabilities == edge.capabilities
    &&& row.tags@ == edge.capabilities.tags@
    &&& row.status@ == status_name(edge.status)
    &&& row.enrolled_at == edge.enrolled_at
    &&& row.last_heartbeat_at == edge.last_heartbeat_at
    &&& row.display_name == edge.display_name
}

/// The row of a node once `written` was put there. A row that was there takes
/// over everything but the time of enrolment.
pub open spec fn upserted(before: Option<DaemonColumns>, written: DaemonColumns) -> DaemonColumns {
    match before {
        Some(row) => DaemonColumns { enrolled_at: row.enrolled_at, ..written },
        None => written,
    }
}

/// A daemon is read back as it was written, but for its stream, which is then
/// not open, and for the time of enrolment, which is that of the first write.
pub proof fn written_daemon_is_read_back(
    before: Option<DaemonColumns>,
    edge: EdgeDaemon,
    written: DaemonColumns,
    read: EdgeDaemon,
    now: Timestamp,
)
    requires
        is_row_of(written, edge),
        is_daemon_of(read, upserted(before, written), now),
    ensures
        read.node_id == edge.node_id,
        read.tenant_id@ == edge.tenant_id@,
        read.public_key == edge.public_key,
        read.capabilities.tags@ == edge.capabilities.tags@,
        read.capabilities == (EdgeCapabilities { tags: read.capabilities.tags, ..edge.capabilities }),
        read.status == edge.status,
        read.last_heartbeat_at == edge.last_heartbeat_at,
        read.display_name == edge.display_name,
        read.enrolled_at == (match before {
            Some(row) => row.enrolled_at,
            None => edge.enrolled_at,
        }),
        read.connection == (EdgeConnectionState::Disconnected { since: now }),
{
    status_survives_storage(edge.status);
}

/// What a statement sets in the row of a daemon. A column that nothing is given
/// for stays as it is.
#[derive(Debug)]
pub struct DaemonAssignments {
    pub capabilities: Option<EdgeCapabilities>,
    pub tags: Option<Vec<String>>,
    pub status: Option<&'static str>,
    pub display_name: Option<String>,
    /// Whether the time of the last heartbeat is set to the time of the
    /// statement.
    pub heartbeat: bool,
}

/// No assignments.
pub open spec fn nothing_assigned() -> DaemonAssignments {
    DaemonAssignments {
        capabilities: None,
        tags: None,
        status: None,
        display_name: None,
        heartbeat: false,
    }
}

/// `new` where it is given, else `old`.
pub open spec fn given_or<T>(new: Option<T>, old: T) -> T {
    match new {
        Some(value) => value,
        None => old,
    }
}

/// Whether `after` is `before` with the assignments carried out at the given
/// time.
pub open spec fn assigned(
    before: DaemonColumns,
    assignments: DaemonAssignments,
    time: Timestamp,
    after: DaemonColumns,
) -> bool {
    &&& after.node_id == before.node_id
    &&& after.tenant_id == before.tenant_id
    &&& after.public_key == before.public_key
    &&& after.capabilities == given_or(assignments.capabilities, before.capabilities)
    &&& after.tags == given_or(assignments.tags, before.tags)
    &&& after.status@ == (match assignments.status {
        Some(status) => status@,
        None => before.status@,
    })
    &&& after.enrolled_at == before.enrolled_at
    &&& after.last_heartbeat_at == (if assignments.heartbeat {
        Some(time)
    } else {
        before.last_heartbeat_at
    })
    &&& after.display_name == given_or(assignments.display_name, before.display_name)
}

/// Sets the capabilities that a daemon advertises. What they say of tags is
/// written along with them and never read: the tags' own column stays.
pub fn update_capabilities(capabilities: EdgeCapabilities) -> (r: DaemonAssignments)
    ensures
        r == (DaemonAssignments { capabilities: Some(capabilities), ..nothing_assigned() }),
{
    DaemonAssignments {
        capabilities: Some(capabilities),
        tags: None,
        status: None,
        display_name: None,
        heartbeat: false,
    }
}

/// Sets the tags that an operator gave a daemon.
pub fn update_tags(tags: Vec<String>) -> (r: DaemonAssignments)
    ensures
        r == (DaemonAssignments { tags: Some(tags), ..nothing_assigned() }),
{
    DaemonAssignments {
        capabilities: None,
        tags: Some(tags),
        status: None,
        display_name: None,
        heartbeat: false,
    }
}

/// Sets a daemon's status.
pub fn update_status(status: NodePeerStatus) -> (r: DaemonAssignments)
    ensures
        r.status is Some && r.status->0@ == status_name(status),
        r == (DaemonAssignments { status: r.status, ..nothing_assigned() }),
{
    DaemonAssignments {
        capabilities: None,
        tags: None,
        status: Some(status_to_str(status)),
        display_name: None,
        heartbeat: false,
    }
}

/// Sets the name that a daemon is shown under.
pub fn update_display_name(display_name: String) -> (r: DaemonAssignments)
    ensures
        r == (DaemonAssignments { display_name: Some(display_name), ..nothing_assigned() }),
{
    DaemonAssignments {
        capabilities: None,
        tags: None,
        status: None,
        display_name: Some(display_name),
        heartbeat: false,
    }
}

/// Stamps the time of a heartbeat and sets the status to active, at once.
pub fn record_heartbeat() -> (r: DaemonAssignments)
    ensures
        r.status is Some && r.status->0@ == status_name(NodePeerStatus::Active),
        r == (DaemonAssignments { status: r.status, heartbeat: true, ..nothing_assigned() }),
{
    DaemonAssignments {
        capabilities: None,
        tags: None,
        status: Some(status_to_str(NodePeerStatus::Active)),
        display_name: None,
        heartbeat: true,
    }
}

/// Whether two daemons agree in what identifies them: node, tenant, key and
/// time of enrolment.
pub open spec fn same_enrolment(a: EdgeDaemon, b: EdgeDaemon) -> bool {
    &&& a.node_id == b.node_id
    &&& a.tenant_id@ == b.tenant_id@
    &&& a.public_key == b.public_key
    &&& a.enrolled_at == b.enrolled_at
}

/// An update of the capabilities never touches the tags, whatever the new
/// capabilities say of them: the daemon that is read afterwards has the new
/// capabilities with its former tags, and is in all else what it was.
pub proof fn capabilities_update_keeps_tags(
    before: DaemonColumns,
    capabilities: EdgeCapabilities,
    after: DaemonColumns,
    time: Timestamp,
    old_daemon: EdgeDaemon,
    new_daemon: EdgeDaemon,
    old_read: Timestamp,
    new_read: Timestamp,
)
    requires
        is_daemon_of(old_daemon, before, old_read),
        assigned(
            before,
            (DaemonAssignments { capabilities: Some(capabilities), ..nothing_assigned() }),
            time,
            after,
        ),
        is_daemon_of(new_daemon, after, new_read),
    ensures
        new_daemon.capabilities == (EdgeCapabilities {
            tags: old_daemon.capabilities.tags,
            ..capabilities
        }),
        same_enrolment(new_daemon, old_daemon),
        new_daemon.status == old_daemon.status,
        new_daemon.last_heartbeat_at == old_daemon.last_heartbeat_at,
        new_daemon.display_name == old_daemon.display_name,
{
}

/// An update of the tags changes the tags and nothing else.
pub proof fn tags_update_changes_tags_only(
    before: DaemonColumns,
    tags: Vec<String>,
    after: DaemonColumns,
    time: Timestamp,
    old_daemon: EdgeDaemon,
    new_daemon: EdgeDaemon,
    old_read: Timestamp,
    new_read: Timestamp,
)
    requires
        is_daemon_of(old_daemon, before, old_read),
        assigned(
            before,
            (DaemonAssignments { tags: Some(tags), ..nothing_assigned() }),
            time,
            after,
        ),
        is_daemon_of(new_daemon, after, new_read),
    ensures
        new_daemon.capabilities == (EdgeCapabilities { tags, ..old_daemon.capabilities }),
        same_enrolment(new_daemon, old_daemon),
        new_daemon.status == old_daemon.status,
        new_daemon.last_heartbeat_at == old_daemon.last_heartbeat_at,
        new_daemon.display_name == old_daemon.display_name,
{
}

/// A heartbeat makes a daemon active, whatever its status was, and stamps its
/// time; all else stays.
pub proof fn heartbeat_revives(
    before: DaemonColumns,
    assignments: DaemonAssignments,
    after: DaemonColumns,
    time: Timestamp,
    old_daemon: EdgeDaemon,
    new_daemon: EdgeDaemon,
    old_read: Timestamp,
    new_read: Timestamp,
)
    requires
        is_daemon_of(old_daemon, before, old_read),
        assignments.status is Some,
        assignments.status->0@ == status_name(NodePeerStatus::Active),
        assignments == (DaemonAssignments {
            status: assignments.status,
            heartbeat: true,
            ..nothing_assigned()
        }),
        assigned(before, assignments, time, after),
        is_daemon_of(new_daemon, after, new_read),
    ensures
        new_daemon.status == NodePeerStatus::Active,
        new_daemon.last_heartbeat_at == Some(time),
        new_daemon.capabilities == old_daemon.capabilities,
        same_enrolment(new_daemon, old_daemon),
        new_daemon.display_name == old_daemon.display_name,
{
    status_survives_storage(NodePeerStatus::Active);
}

/// Each status is stored under its own word; a word that is none of them stands
/// for an unhealthy daemon.
pub proof fn statuses_are_stored_under_their_words(s: NodePeerStatus, name: Seq<char>)
    ensures
        s is Active ==> status_name(s) == "active"@,
        s is Draining ==> status_name(s) == "draining"@,
        s is Unhealthy ==> status_name(s) == "unhealthy"@,
        status_named(name) is Active <==> name == "active"@,
        status_named(name) is Draining <==> name == "draining"@,
        status_named(name) is Unhealthy <==> name != "active"@ && name != "draining"@,
{
    status_survives_storage(NodePeerStatus::Draining);
}

/// An update of the status, or of the name that a daemon is shown under,
/// changes that and nothing else.
pub proof fn single_updates_change_one_thing(
    before: DaemonColumns,
    assignments: DaemonAssignments,
    after: DaemonColumns,
    time: Timestamp,
    old_daemon: EdgeDaemon,
    new_daemon: EdgeDaemon,
    old_read: Timestamp,
    new_read: Timestamp,
)
    requires
        is_daemon_of(old_daemon, before, old_read),
        assignments.capabilities is None,
        assignments.tags is None,
        !assignments.heartbeat,
        assigned(before, assignments, time, after),
        is_daemon_of(new_daemon, after, new_read),
    ensures
        new_daemon.node_id == old_daemon.node_id,
        new_daemon.tenant_id@ == old_daemon.tenant_id@,
        new_daemon.public_key == old_daemon.public_key,
        new_daemon.enrolled_at == old_daemon.enrolled_at,
        new_daemon.capabilities == old_daemon.capabilities,
        new_daemon.last_heartbeat_at == old_daemon.last_heartbeat_at,
        assignments.display_name is None ==> new_daemon.display_name == old_daemon.display_name,
        assignments.display_name is Some ==> new_daemon.display_name
            == assignments.display_name->0,
        assignments.status is None ==> new_daemon.status == old_daemon.status,
        assignments.status is Some && assignments.status->0@ == "active"@ ==> new_daemon.status
            == NodePeerStatus::Active,
        assignments.status is Some && assignments.status->0@ == "draining"@ ==> new_daemon.status
            == NodePeerStatus::Draining,
        assignments.status is Some && assignments.status->0@ == "unhealthy"@ ==> new_daemon.status
            == NodePeerStatus::Unhealthy,
{
    status_survives_storage(NodePeerStatus::Active);
    status_survives_storage(NodePeerStatus::Draining);
    status_survives_storage(NodePeerStatus::Unhealthy);
}

/// A daemon has each of its parts from the column of that part. It has the tags
/// of the tags' own column whatever its capabilities say, and no open stream.
pub proof fn parts_are_read_from_their_columns(
    daemon: EdgeDaemon,
    row: DaemonColumns,
    now: Timestamp,
)
    requires
        is_daemon_of(daemon, row, now),
    ensures
        daemon.node_id.0 == row.node_id,
        daemon.tenant_id@ == row.tenant_id@,
        daemon.public_key == row.public_key,
        daemon.capabilities.os == row.capabilities.os,
        daemon.capabilities.arch == row.capabilities.arch,
        daemon.capabilities.local_tools == row.capabilities.local_tools,
        daemon.capabilities.mount_points == row.capabilities.mount_points,
        daemon.capabilities.custom_labels == row.capabilities.custom_labels,
        daemon.capabilities.tags == row.tags,
        daemon.enrolled_at == row.enrolled_at,
        daemon.last_heartbeat_at == row.last_heartbeat_at,
        daemon.display_name == row.display_name,
        row.status@ == "active"@ <==> daemon.status is Active,
        row.status@ == "draining"@ <==> daemon.status is Draining,
        daemon.connection is Disconnected,
        daemon.connection->Disconnected_since == now,
{
    status_survives_storage(NodePeerStatus::Draining);
}

/// A daemon that is written again takes over everything but the time of its
/// enrolment, which stays that of the first write.
pub proof fn enrolment_is_of_the_first_write(before: DaemonColumns, written: DaemonColumns)
    ensures
        upserted(Some(before), written).enrolled_at == before.enrolled_at,
        upserted(Some(before), written).node_id == written.node_id,
        upserted(Some(before), written).tenant_id == written.tenant_id,
        upserted(Some(before), written).public_key == written.public_key,
        upserted(Some(before), written).capabilities == written.capabilities,
        upserted(Some(before), written).tags == written.tags,
        upserted(Some(before), written).status == written.status,
        upserted(Some(before), written).last_heartbeat_at == written.last_heartbeat_at,
        upserted(Some(before), written).display_name == written.display_name,
        upserted(None, written) == written,
{
}

/// Each update sets what it names and nothing else, as the daemon is read
/// afterwards: its status, the name it is shown under, its tags, or what it
/// advertises; a heartbeat sets the status and the time of the heartbeat.
pub proof fn updates_set_what_they_name(
    before: DaemonColumns,
    after: DaemonColumns,
    assignments: DaemonAssignments,
    status: NodePeerStatus,
    display_name: String,
    tags: Vec<String>,
    capabilities: EdgeCapabilities,
    time: Timestamp,
    old_daemon: EdgeDaemon,
    new_daemon: EdgeDaemon,
    old_read: Timestamp,
    new_read: Timestamp,
)
    requires
        is_daemon_of(old_daemon, before, old_read),
        assigned(before, assignments, time, after),
        is_daemon_of(new_daemon, after, new_read),
    ensures
        call_ensures(update_status, (status,), assignments) ==> new_daemon.status == status
            && new_daemon.display_name == old_daemon.display_name && new_daemon.capabilities
            == old_daemon.capabilities && new_daemon.last_heartbeat_at
            == old_daemon.last_heartbeat_at,
        call_ensures(update_display_name, (display_name,), assignments) ==> new_daemon.display_name
            == display_name && new_daemon.status == old_daemon.status && new_daemon.capabilities
            == old_daemon.capabilities && new_daemon.last_heartbeat_at
            == old_daemon.last_heartbeat_at,
        call_ensures(update_tags, (tags,), assignments) ==> new_daemon.capabilities.tags == tags
            && new_daemon.capabilities.os == old_daemon.capabilities.os
            && new_daemon.capabilities.arch == old_daemon.capabilities.arch
            && new_daemon.capabilities.local_tools == old_daemon.capabilities.local_tools
            && new_daemon.status == old_daemon.status && new_daemon.display_name
            == old_daemon.display_name && new_daemon.last_heartbeat_at
            == old_daemon.last_heartbeat_at,
        call_ensures(update_capabilities, (capabilities,), assignments)
            ==> new_daemon.capabilities.tags == old_daemon.capabilities.tags
            && new_daemon.capabilities.os == capabilities.os && new_daemon.capabilities.arch
            == capabilities.arch && new_daemon.capabilities.local_tools
            == capabilities.local_tools && new_daemon.status == old_daemon.status
            && new_daemon.display_name == old_daemon.display_name && new_daemon.last_heartbeat_at
            == old_daemon.last_heartbeat_at,
        call_ensures(record_heartbeat, (), assignments) ==> new_daemon.status
            == NodePeerStatus::Active && new_daemon.last_heartbeat_at == Some(time)
            && new_daemon.display_name == old_daemon.display_name && new_daemon.capabilities
            == old_daemon.capabilities,
        new_daemon.node_id == old_daemon.node_id,
        new_daemon.tenant_id@ == old_daemon.tenant_id@,
        new_daemon.public_key == old_daemon.public_key,
        new_daemon.enrolled_at == old_daemon.enrolled_at,
{
    status_survives_storage(status);
    status_survives_storage(NodePeerStatus::Active);
}

} // verus!

//! Edge groups as rows of the `edge_groups` table.

use vstd::prelude::*;
use crate::domain::edge::{EdgeGroup, EdgeGroupId, EdgeGroupRepoError, EdgeSelector};
use crate::domain::shared_kernel::{NodeId, TenantId, Uuid};
use crate::support::clock::Timestamp;
use crate::support::failure::Failure;
use crate::support::text::same_text;

verus! {

/// The columns that a group is read from.
#[derive(Debug)]
pub struct GroupColumns {
    pub id: Uuid,
    pub tenant_id: String,
    pub name: String,
    pub selector: EdgeSelector,
    pub pinned_members: Vec<Uuid>,
    pub created_by: String,
    pub created_at: Timestamp,
}

/// How a statement fared: how many rows it touched, or the database's error
/// with its code, where it has one.
#[derive(Debug)]
pub enum StatementOutcome {
    Touched(u64),
    Refused { code: Option<String>, message: String },
}

/// Identifiers as nodes.
pub open spec fn as_nodes(ids: Seq<Uuid>) -> Seq<NodeId> {
    Seq::new(ids.len(), |i: int| NodeId(ids[i]))
}

/// Nodes as identifiers.
pub open spec fn as_ids(nodes: Seq<NodeId>) -> Seq<Uuid> {
    Seq::new(nodes.len(), |i: int| nodes[i].0)
}

/// Pinned members are read back as they were written.
pub proof fn pinned_members_survive_storage(nodes: Seq<NodeId>)
    ensures
        as_nodes(as_ids(nodes)) == nodes,
{
    assert(as_nodes(as_ids(nodes)) =~= nodes);
}

/// Whether `group` is what `row` stands for.
pub open spec fn is_group_of(group: EdgeGroup, row: GroupColumns) -> bool {
    &&& group.id == EdgeGroupId(row.id)
    &&& group.tenant_id@ == row.tenant_id@
    &&& group.name == row.name
    &&& group.selector == row.selector
    &&& group.pinned_members@ == as_nodes(row.pinned_members@)
    &&& group.created_by == row.created_by
    &&& group.created_at == row.created_at
}

/// The group that a row stands for; its tenant must be one.
pub fn row_to_group(row: GroupColumns) -> (r: Result<EdgeGroup, EdgeGroupRepoError>)
    ensures
        row.tenant_id@.len() > 0 ==> r is Ok && is_group_of(r->Ok_0, row),
        row.tenant_id@.len() == 0 ==> (r matches Err(EdgeGroupRepoError::Other(f)) && f@ == seq![
            "invalid tenant: "@ + "tenant id must not be empty"@,
        ]),
{
    let mut pinned: Vec<NodeId> = Vec::new();
    let mut i: usize = 0;
    while i < row.pinned_members.len()
        invariant
            i <= row.pinned_members@.len(),
            pinned@ =~= as_nodes(row.pinned_members@).take(i as int),
        decreases row.pinned_members.len() - i,
    {
        pinned.push(NodeId(row.pinned_members[i]));
        i = i + 1;
    }
    proof {
        assert(as_nodes(row.pinned_members@).take(i as int) =~= as_nodes(row.pinned_members@));
    }
    let tenant_id = match TenantId::new(row.tenant_id) {
        Ok(tenant) => tenant,
        Err(e) => return Err(
            EdgeGroupRepoError::Other(
                Failure::new("invalid tenant: ".to_owned().concat(e.to_string().as_str())),
            ),
        ),
    };
    Ok(
        EdgeGroup {
            id: EdgeGroupId(row.id),
            tenant_id,
            name: row.name,
            selector: row.selector,
            pinned_members: pinned,
            created_by: row.created_by,
            created_at: row.created_at,
        },
    )
}

/// The pinned members of a group as their column holds them.
pub fn pinned_column(group: &EdgeGroup) -> (r: Vec<Uuid>)
    ensures
        r@ == as_ids(group.pinned_members@),
{
    let mut ids: Vec<Uuid> = Vec::new();
    let mut i: usize = 0;
    while i < group.pinned_members.len()
        invariant
            i <= group.pinned_members@.len(),
            ids@ =~= as_ids(group.pinned_members@).take(i as int),
        decreases group.pinned_members.len() - i,
    {
        ids.push(group.pinned_members[i].0);
        i = i + 1;
    }
    proof {
        assert(as_ids(group.pinned_members@).take(i as int) =~= as_ids(group.pinned_members@));
    }
    ids
}

/// Whether a database's error code says that a value had to be unique and was
/// not.
pub open spec fn unique_violation(code: Option<String>) -> bool {
    code matches Some(c) && c@ == "23505"@
}

/// Whether a database's error code says that a value had to be unique and was
/// not.
pub fn is_unique_violation(code: &Option<String>) -> (r: bool)
    ensures
        r == unique_violation(*code),
{
    match code {
        Some(c) => same_text(c.as_str(), "23505"),
        None => false,
    }
}

/// What a refused statement comes to: a name that is taken within the tenant,
/// or the database's own error.
fn refusal(code: &Option<String>, message: &str) -> (r: EdgeGroupRepoError)
    ensures
        unique_violation(*code) ==> r is GroupExists,
        !unique_violation(*code) ==> (r matches EdgeGroupRepoError::Other(f) && f@ == seq![
            message@,
        ]),
{
    if is_unique_violation(code) {
        EdgeGroupRepoError::GroupExists
    } else {
        EdgeGroupRepoError::Other(Failure::msg(message))
    }
}

/// What the insertion of a group comes to.
pub fn created(outcome: &StatementOutcome) -> (r: Result<(), EdgeGroupRepoError>)
    ensures
        match *outcome {
            StatementOutcome::Touched(_) => r is Ok,
            StatementOutcome::Refused { code, message } => if unique_violation(code) {
                r is Err && r->Err_0 is GroupExists
            } else {
                r matches Err(EdgeGroupRepoError::Other(f)) && f@ == seq![message@]
            },
        },
{
    match outcome {
        StatementOutcome::Touched(_) => Ok(()),
        StatementOutcome::Refused { code, message } => Err(refusal(code, message.as_str())),
    }
}

/// What the change of a group comes to. A change that touched nothing found no
/// group.
pub fn updated(outcome: &StatementOutcome) -> (r: Result<(), EdgeGroupRepoError>)
    ensures
        match *outcome {
            StatementOutcome::Touched(n) => if n == 0 {
                r is Err && r->Err_0 is NotFound
            } else {
                r is Ok
            },
            StatementOutcome::Refused { code, message } => if unique_violation(code) {
                r is Err && r->Err_0 is GroupExists
            } else {
                r matches Err(EdgeGroupRepoError::Other(f)) && f@ == seq![message@]
            },
        },
{
    match outcome {
        StatementOutcome::Touched(n) => if *n == 0 {
            Err(EdgeGroupRepoError::NotFound)
        } else {
            Ok(())
        },
        StatementOutcome::Refused { code, message } => Err(refusal(code, message.as_str())),
    }
}

/// What the removal of a group comes to.
pub fn deleted(outcome: &StatementOutcome) -> (r: Result<(), EdgeGroupRepoError>)
    ensures
        match *outcome {
            StatementOutcome::Touched(n) => if n == 0 {
                r is Err && r->Err_0 is NotFound
            } else {
                r is Ok
            },
            StatementOutcome::Refused { code, message } => r matches Err(
                EdgeGroupRepoError::Other(f),
            ) && f@ == seq![message@],
        },
{
    match outcome {
        StatementOutcome::Touched(n) => if *n == 0 {
            Err(EdgeGroupRepoError::NotFound)
        } else {
            Ok(())
        },
        StatementOutcome::Refused { code: _, message } => Err(
            EdgeGroupRepoError::Other(Failure::msg(message.as_str())),
        ),
    }
}

/// A group has each of its parts from the column of that part, and its pinned
/// members in the order in which they are stored.
pub proof fn parts_are_read_from_their_columns(group: EdgeGroup, row: GroupColumns, i: int)
    requires
        is_group_of(group, row),
    ensures
        group.id.0 == row.id,
        group.tenant_id@ == row.tenant_id@,
        group.name@ == row.name@,
        group.selector == row.selector,
        group.created_by@ == row.created_by@,
        group.created_at == row.created_at,
        group.pinned_members@.len() == row.pinned_members@.len(),
        0 <= i < row.pinned_members@.len() ==> group.pinned_members@[i].0 == row.pinned_members@[i],
{
}

/// A column of pinned members holds the members' own identifiers, in order.
pub proof fn pinned_members_are_stored_in_order(nodes: Seq<NodeId>, ids: Seq<Uuid>, i: int)
    ensures
        as_ids(nodes).len() == nodes.len(),
        as_nodes(ids).len() == ids.len(),
        0 <= i < nodes.len() ==> as_ids(nodes)[i] == nodes[i].0,
        0 <= i < ids.len() ==> as_nodes(ids)[i].0 == ids[i],
{
}

/// Only the code for a value that had to be unique says that it was not; no
/// code does not.
pub proof fn one_code_says_that_a_value_is_taken(code: Option<String>)
    ensures
        code is None ==> !unique_violation(code),
        code is Some ==> (unique_violation(code) <==> code->0@ == "23505"@),
{
}

/// A statement on a group comes to what it did: an insertion succeeds wherever
/// it was carried out, a change or a removal only where it touched a row; a name
/// that is taken is told from every other refusal, which keeps the database's
/// words. A removal takes no name.
pub proof fn statements_come_to_what_they_did(
    outcome: &StatementOutcome,
    creation: Result<(), EdgeGroupRepoError>,
    change: Result<(), EdgeGroupRepoError>,
    removal: Result<(), EdgeGroupRepoError>,
)
    requires
        call_ensures(created, (outcome,), creation),
        call_ensures(updated, (outcome,), change),
        call_ensures(deleted, (outcome,), removal),
    ensures
        outcome matches StatementOutcome::Touched(n) ==> creation is Ok && (change is Ok <==> *n > 0)
            && (removal is Ok <==> *n > 0) && (*n == 0 ==> change->Err_0 is NotFound
            && removal->Err_0 is NotFound),
        outcome matches StatementOutcome::Refused { code, message } ==> {
            let taken = *code is Some && (*code)->0@ == "23505"@;
            &&& creation is Err && change is Err && removal is Err
            &&& taken <==> creation->Err_0 is GroupExists
            &&& taken <==> change->Err_0 is GroupExists
            &&& !taken ==> (creation->Err_0 matches EdgeGroupRepoError::Other(f) && f@ == seq![
                message@,
            ]) && (change->Err_0 matches EdgeGroupRepoError::Other(g) && g@ == seq![message@])
            &&& removal->Err_0 matches EdgeGroupRepoError::Other(h) && h@ == seq![message@]
        },
{
}

} // verus!

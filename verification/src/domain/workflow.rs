//! Workflows and their executions.

use vstd::prelude::*;
use crate::domain::execution::ExecutionStatus;
use crate::domain::shared_kernel::{ExecutionId, TenantId, WorkflowId};
use crate::support::clock::Timestamp;
use crate::support::json;
use crate::support::json::{members_of, Json};
use crate::support::stored::{Keyed, Stored};
use crate::support::text_map::TextMap;

verus! {

/// Who can see a workflow: its tenant, or every tenant.
#[derive(Clone, Copy, Debug, PartialEq, Eq, Hash, Structural)]
pub enum WorkflowScope {
    Tenant,
    Global,
}

/// Name and version of a workflow.
#[derive(Debug, PartialEq, Eq)]
pub struct WorkflowMetadata {
    pub name: String,
    pub version: Option<String>,
}

/// A workflow: its name and version, and the rest of its definition.
#[derive(Debug, PartialEq, Eq)]
pub struct Workflow {
    pub id: WorkflowId,
    pub tenant_id: TenantId,
    pub scope: WorkflowScope,
    pub metadata: WorkflowMetadata,
    pub spec: serde_json::Value,
    pub created_at: Timestamp,
}

impl View for Workflow {
    type V = Workflow;

    open spec fn view(&self) -> Workflow {
        *self
    }
}

impl Workflow {
    /// A copy of the workflow.
    pub fn copy(&self) -> (r: Workflow)
        ensures
            r == *self,
    {
        Workflow {
            id: self.id,
            tenant_id: self.tenant_id.copy(),
            scope: self.scope,
            metadata: WorkflowMetadata {
                name: self.metadata.name.clone(),
                version: self.metadata.version.clone(),
            },
            spec: self.spec.clone(),
            created_at: self.created_at,
        }
    }
}

impl Stored for Workflow {
    fn duplicate(&self) -> (r: Self) {
        self.copy()
    }
}

impl Keyed for Workflow {
    open spec fn key_of(contents: Workflow) -> u128 {
        contents.id.0.bits
    }

    fn key(&self) -> (r: u128) {
        self.id.0.bits
    }
}

/// The language that an intent is carried out in.
#[derive(Debug, PartialEq, Eq)]
pub enum ExecutionLanguage {
    /// The default language.
    Preset,
    /// The language of that tag.
    Tagged(String),
}

/// Name of a workflow state, never empty.
#[derive(Debug, PartialEq, Eq, Hash)]
pub struct StateName {
    name: String,
}

impl View for StateName {
    type V = Seq<char>;

    closed spec fn view(&self) -> Seq<char> {
        self.name@
    }
}

impl StateName {
    /// The name of a state is never empty.
    #[verifier::type_invariant]
    spec fn well_formed(self) -> bool {
        self.name@.len() > 0
    }

    /// The state of that name; an empty name names none.
    pub fn new(name: &str) -> (r: Option<StateName>)
        ensures
            r is Some <==> name@.len() > 0,
            r is Some ==> r->0@ == name@,
    {
        if name.is_empty() {
            None
        } else {
            Some(StateName { name: name.to_owned() })
        }
    }

    /// The state of that name, or the one named `start`.
    pub fn or_start(name: &str) -> (r: StateName)
        ensures
            r@ == (if name@.len() > 0 { name@ } else { "start"@ }),
    {
        match StateName::new(name) {
            Some(state) => state,
            None => {
                proof {
                    reveal_strlit("start");
                }
                StateName { name: "start".to_owned() }
            },
        }
    }

    /// The name.
    pub fn as_str(&self) -> (r: &str)
        ensures
            r@ == self@,
            r@.len() > 0,
    {
        proof {
            use_type_invariant(self);
        }
        self.name.as_str()
    }

    /// A copy of the name.
    pub fn copy(&self) -> (r: StateName)
        ensures
            r == *self,
    {
        proof {
            use_type_invariant(self);
        }
        StateName { name: self.name.clone() }
    }
}

/// What the states of a workflow execution share: JSON values by key.
pub struct Blackboard {
    pub data: TextMap<Json>,
}

/// The members of an object, those with a non-empty key alone; nothing of any
/// other value.
pub open spec fn named_members(v: serde_json::Value) -> Map<Seq<char>, serde_json::Value> {
    match json::json_members(v) {
        Some(members) => members.remove(Seq::empty()),
        None => Map::empty(),
    }
}

/// The first `n` pairs as a map.
spec fn pairs_as_map(pairs: Seq<(String, serde_json::Value)>, n: int, keep_empty: bool) -> Map<
    Seq<char>,
    serde_json::Value,
>
    decreases n,
{
    if n <= 0 {
        Map::empty()
    } else {
        let before = pairs_as_map(pairs, n - 1, keep_empty);
        if keep_empty || pairs[n - 1].0@.len() > 0 {
            before.insert(pairs[n - 1].0@, pairs[n - 1].1)
        } else {
            before
        }
    }
}

proof fn lemma_pairs_as_map(
    pairs: Seq<(String, serde_json::Value)>,
    members: Map<Seq<char>, serde_json::Value>,
    n: int,
    keep_empty: bool,
    k: Seq<char>,
)
    requires
        json::lists_members(pairs, members),
        0 <= n <= pairs.len(),
    ensures
        pairs_as_map(pairs, n, keep_empty).contains_key(k) <==> (keep_empty || k.len() > 0) && exists|
            i: int,
        | 0 <= i < n && (#[trigger] pairs[i]).0@ == k,
        pairs_as_map(pairs, n, keep_empty).contains_key(k) ==> members.contains_key(k)
            && pairs_as_map(pairs, n, keep_empty)[k] == members[k],
    decreases n,
{
    if n > 0 {
        lemma_pairs_as_map(pairs, members, n - 1, keep_empty, k);
        assert(members.contains_key(pairs[n - 1].0@));
    }
}

/// Reads a map from the members of an object.
fn read_members(v: &serde_json::Value, keep_empty: bool) -> (r: Option<TextMap<Json>>)
    ensures
        r is Some <==> json::json_members(*v) is Some,
        r is Some && keep_empty ==> r->0@ == json::json_members(*v)->0,
        r is Some && !keep_empty ==> r->0@ == named_members(*v),
{
    let pairs = match members_of(v) {
        Some(pairs) => pairs,
        None => return None,
    };
    let mut r: TextMap<Json> = TextMap::new();
    let mut i: usize = 0;
    while i < pairs.len()
        invariant
            i <= pairs@.len(),
            r@ == pairs_as_map(pairs@, i as int, keep_empty),
        decreases pairs.len() - i,
    {
        if keep_empty || !pairs[i].0.as_str().is_empty() {
            r.insert(pairs[i].0.clone(), Json { value: pairs[i].1.clone() });
        }
        i = i + 1;
    }
    proof {
        let members = json::json_members(*v)->0;
        let n = pairs@.len() as int;
        assert forall|k: Seq<char>| #[trigger] r@.contains_key(k) <==> (keep_empty || k.len() > 0)
            && members.contains_key(k) by {
            lemma_pairs_as_map(pairs@, members, n, keep_empty, k);
        }
        assert forall|k: Seq<char>| #[trigger] r@.contains_key(k) implies r@[k] == members[k] by {
            lemma_pairs_as_map(pairs@, members, n, keep_empty, k);
        }
        if keep_empty {
            assert(r@ =~= members);
        } else {
            assert forall|k: Seq<char>| k.len() == 0 implies k =~= Seq::<char>::empty() by {}
            assert(r@ =~= members.remove(Seq::empty()));
        }
    }
    Some(r)
}

/// The outputs of states by name; members without a name are passed over.
pub fn read_state_outputs(v: &serde_json::Value) -> (r: TextMap<Json>)
    ensures
        r@ == named_members(*v),
{
    match read_members(v, false) {
        Some(outputs) => outputs,
        None => TextMap::new(),
    }
}

impl Blackboard {
    /// A blackboard without entries.
    pub fn new() -> (r: Blackboard)
        ensures
            r.data@ == Map::<Seq<char>, serde_json::Value>::empty(),
    {
        Blackboard { data: TextMap::new() }
    }

    /// The blackboard that a JSON object stands for.
    pub fn from_json(v: &serde_json::Value) -> (r: Option<Blackboard>)
        ensures
            r is Some <==> json::json_members(*v) is Some,
            r is Some ==> r->0.data@ == json::json_members(*v)->0,
    {
        match read_members(v, true) {
            Some(data) => Some(Blackboard { data }),
            None => None,
        }
    }

    /// Writes an entry.
    pub fn set(&mut self, key: String, value: serde_json::Value)
        ensures
            final(self).data@ == old(self).data@.insert(key@, value),
    {
        self.data.insert(key, Json { value });
    }

    /// Reads an entry.
    pub fn get(&self, key: &str) -> (r: Option<&serde_json::Value>)
        ensures
            r is Some <==> self.data@.contains_key(key@),
            r is Some ==> *r->0 == self.data@[key@],
    {
        match self.data.get(key) {
            Some(json) => Some(&json.value),
            None => None,
        }
    }
}

/// A run of a workflow.
pub struct WorkflowExecution {
    pub id: ExecutionId,
    pub workflow_id: WorkflowId,
    pub tenant_id: TenantId,
    pub status: ExecutionStatus,
    pub current_state: StateName,
    pub blackboard: Blackboard,
    pub input: serde_json::Value,
    pub state_outputs: TextMap<Json>,
    pub final_output: Option<serde_json::Value>,
    pub started_at: Timestamp,
    pub last_transition_at: Timestamp,
}

/// The contents of a [`WorkflowExecution`].
pub ghost struct WorkflowExecutionView {
    pub id: ExecutionId,
    pub workflow_id: WorkflowId,
    pub tenant: Seq<char>,
    pub status: ExecutionStatus,
    pub current_state: Seq<char>,
    pub blackboard: Map<Seq<char>, serde_json::Value>,
    pub input: serde_json::Value,
    pub state_outputs: Map<Seq<char>, serde_json::Value>,
    pub final_output: Option<serde_json::Value>,
    pub started_at: Timestamp,
    pub last_transition_at: Timestamp,
}

impl View for WorkflowExecution {
    type V = WorkflowExecutionView;

    open spec fn view(&self) -> WorkflowExecutionView {
        WorkflowExecutionView {
            id: self.id,
            workflow_id: self.workflow_id,
            tenant: self.tenant_id@,
            status: self.status,
            current_state: self.current_state@,
            blackboard: self.blackboard.data@,
            input: self.input,
            state_outputs: self.state_outputs@,
            final_output: self.final_output,
            started_at: self.started_at,
            last_transition_at: self.last_transition_at,
        }
    }
}

impl Stored for WorkflowExecution {
    fn duplicate(&self) -> (r: Self) {
        WorkflowExecution {
            id: self.id,
            workflow_id: self.workflow_id,
            tenant_id: self.tenant_id.copy(),
            status: self.status,
            current_state: self.current_state.copy(),
            blackboard: Blackboard { data: self.blackboard.data.duplicate() },
            input: self.input.clone(),
            state_outputs: self.state_outputs.duplicate(),
            final_output: self.final_output.clone(),
            started_at: self.started_at,
            last_transition_at: self.last_transition_at,
        }
    }
}

impl Keyed for WorkflowExecution {
    open spec fn key_of(contents: WorkflowExecutionView) -> u128 {
        contents.id.0.bits
    }

    fn key(&self) -> (r: u128) {
        self.id.0.bits
    }
}

/// One entry of the event log of an execution.
#[derive(Debug, PartialEq, Eq)]
pub struct WorkflowExecutionEventRecord {
    pub sequence: i64,
    pub event_type: String,
    pub state_name: Option<String>,
    pub iteration_number: Option<u8>,
    pub payload: serde_json::Value,
    pub recorded_at: Timestamp,
}

/// The contents of a workflow execution are its own parts, and it is kept under
/// its own identifier.
pub proof fn contents_are_the_parts(e: WorkflowExecution)
    ensures
        e@.id == e.id,
        e@.workflow_id == e.workflow_id,
        e@.tenant == e.tenant_id@,
        e@.status == e.status,
        e@.current_state == e.current_state@,
        e@.blackboard == e.blackboard.data@,
        e@.input == e.input,
        e@.state_outputs == e.state_outputs@,
        e@.final_output == e.final_output,
        e@.started_at == e.started_at,
        e@.last_transition_at == e.last_transition_at,
        WorkflowExecution::key_of(e@) == e.id.0.bits,
{
}

/// A workflow is kept under its own identifier.
pub proof fn workflows_are_kept_under_their_identifier(w: Workflow)
    ensures
        Workflow::key_of(w@) == w.id.0.bits,
{
}

/// Of the members of an object those with a name are taken, with their values,
/// and of any other value none.
pub proof fn only_named_members_count(v: serde_json::Value, name: Seq<char>)
    ensures
        json::json_members(v) is None ==> !named_members(v).contains_key(name),
        name.len() == 0 ==> !named_members(v).contains_key(name),
        json::json_members(v) is Some && name.len() > 0 ==> (named_members(v).contains_key(name)
            <==> json::json_members(v)->0.contains_key(name)) && (named_members(v).contains_key(
            name,
        ) ==> named_members(v)[name] == json::json_members(v)->0[name]),
{
    if name.len() == 0 {
        assert(name =~= Seq::<char>::empty());
    }
}

} // verus!

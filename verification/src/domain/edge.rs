//! Edge daemons: hosts that users enrol and reach through a long-lived stream.

use vstd::prelude::*;
use crate::domain::shared_kernel::{NodeId, TenantId, Uuid};
use crate::domain::shared_kernel;
use crate::support::clock;
use crate::support::clock::{Span, Timestamp};
use crate::support::failure::Failure;
use crate::support::text;
use crate::support::text_map::TextMap;

verus! {

/// Whether `items` holds a text equal to `t`.
pub open spec fn holds_text(items: Seq<String>, t: Seq<char>) -> bool {
    exists|i: int| 0 <= i < items.len() && #[trigger] items[i]@ == t
}

fn contains_text(items: &[String], t: &str) -> (r: bool)
    ensures
        r == holds_text(items@, t@),
{
    let mut i: usize = 0;
    while i < items.len()
        invariant
            i <= items.len(),
            forall|j: int| 0 <= j < i ==> #[trigger] items@[j]@ != t@,
        decreases items.len() - i,
    {
        if text::same_text(items[i].as_str(), t) {
            return true;
        }
        i = i + 1;
    }
    false
}

/// What an edge daemon can do, as it advertises it, and the tags that an
/// operator gave it. The daemon never originates tags.
#[derive(Clone, Debug)]
pub struct EdgeCapabilities {
    pub os: String,
    pub arch: String,
    pub local_tools: Vec<String>,
    pub mount_points: Vec<String>,
    pub custom_labels: TextMap<String>,
    pub tags: Vec<String>,
}

impl Default for EdgeCapabilities {
    fn default() -> (r: Self)
        ensures
            r.os@ == Seq::<char>::empty(),
            r.arch@ == Seq::<char>::empty(),
            r.local_tools@ == Seq::<String>::empty(),
            r.mount_points@ == Seq::<String>::empty(),
            r.custom_labels@ == Map::<Seq<char>, Seq<char>>::empty(),
            r.tags@ == Seq::<String>::empty(),
    {
        EdgeCapabilities {
            os: String::new(),
            arch: String::new(),
            local_tools: Vec::new(),
            mount_points: Vec::new(),
            custom_labels: TextMap::new(),
            tags: Vec::new(),
        }
    }
}

impl EdgeCapabilities {
    /// Whether every predicate of `selector` holds of these capabilities.
    pub open spec fn meets(self, selector: EdgeSelector) -> bool {
        &&& selector.os is Some ==> self.os@ == selector.os->0@
        &&& selector.arch is Some ==> self.arch@ == selector.arch->0@
        &&& forall|i: int|
            0 <= i < selector.tools@.len() ==> holds_text(
                self.local_tools@,
                #[trigger] selector.tools@[i]@,
            )
        &&& forall|i: int|
            0 <= i < selector.labels@.len() ==> (#[trigger] selector.labels@[i]).accepts(
                self.custom_labels@,
            )
        &&& forall|i: int|
            0 <= i < selector.tags@.len() ==> (#[trigger] selector.tags@[i]).accepts(self.tags@)
    }

    /// True iff this capability set satisfies every predicate in `selector`:
    /// its operating system and architecture, all of its tools, all of its
    /// label matches and all of its tag matches.
    pub fn satisfies(&self, selector: &EdgeSelector) -> (r: bool)
        ensures
            r == self.meets(*selector),
    {
        if let Some(os) = &selector.os {
            if !text::same_text(self.os.as_str(), os.as_str()) {
                return false;
            }
        }
        if let Some(arch) = &selector.arch {
            if !text::same_text(self.arch.as_str(), arch.as_str()) {
                return false;
            }
        }
        let mut i: usize = 0;
        while i < selector.tools.len()
            invariant
                i <= selector.tools@.len(),
                forall|j: int|
                    0 <= j < i ==> holds_text(
                        self.local_tools@,
                        #[trigger] selector.tools@[j]@,
                    ),
            decreases selector.tools.len() - i,
        {
            if !contains_text(self.local_tools.as_slice(), selector.tools[i].as_str()) {
                return false;
            }
            i = i + 1;
        }
        let mut i: usize = 0;
        while i < selector.labels.len()
            invariant
                i <= selector.labels@.len(),
                forall|j: int|
                    0 <= j < i ==> (#[trigger] selector.labels@[j]).accepts(self.custom_labels@),
            decreases selector.labels.len() - i,
        {
            if !selector.labels[i].matches(&self.custom_labels) {
                return false;
            }
            i = i + 1;
        }
        let mut i: usize = 0;
        while i < selector.tags.len()
            invariant
                i <= selector.tags@.len(),
                forall|j: int|
                    0 <= j < i ==> (#[trigger] selector.tags@[j]).accepts(self.tags@),
            decreases selector.tags.len() - i,
        {
            if !selector.tags[i].matches(self.tags.as_slice()) {
                return false;
            }
            i = i + 1;
        }
        true
    }
}

/// Predicates that pick edge daemons.
#[derive(Clone, Debug, PartialEq, Eq)]
pub struct EdgeSelector {
    pub os: Option<String>,
    pub arch: Option<String>,
    pub tools: Vec<String>,
    pub labels: Vec<LabelMatch>,
    pub tags: Vec<TagMatch>,
}

impl Default for EdgeSelector {
    fn default() -> (r: Self)
        ensures
            r.is_empty_selector(),
    {
        EdgeSelector {
            os: None,
            arch: None,
            tools: Vec::new(),
            labels: Vec::new(),
            tags: Vec::new(),
        }
    }
}

impl EdgeSelector {
    /// Whether the selector asks for nothing.
    pub open spec fn is_empty_selector(self) -> bool {
        &&& self.os is None
        &&& self.arch is None
        &&& self.tools@.len() == 0
        &&& self.labels@.len() == 0
        &&& self.tags@.len() == 0
    }
}

/// A predicate on the labels of a daemon.
#[derive(Clone, Debug, PartialEq, Eq)]
pub enum LabelMatch {
    Equals(String, String),
    Exists(String),
    In(String, Vec<String>),
}

impl LabelMatch {
    /// Whether the predicate holds of `labels`.
    pub open spec fn accepts(self, labels: Map<Seq<char>, Seq<char>>) -> bool {
        match self {
            LabelMatch::Equals(k, v) => labels.contains_key(k@) && labels[k@] == v@,
            LabelMatch::Exists(k) => labels.contains_key(k@),
            LabelMatch::In(k, vs) => labels.contains_key(k@) && holds_text(vs@, labels[k@]),
        }
    }

    /// Whether the predicate holds of `labels`.
    pub fn matches(&self, labels: &TextMap<String>) -> (r: bool)
        ensures
            r == self.accepts(labels@),
    {
        match self {
            LabelMatch::Equals(k, v) => match labels.get(k.as_str()) {
                Some(x) => text::same_text(x.as_str(), v.as_str()),
                None => false,
            },
            LabelMatch::Exists(k) => labels.contains_key(k.as_str()),
            LabelMatch::In(k, vs) => match labels.get(k.as_str()) {
                Some(x) => contains_text(vs.as_slice(), x.as_str()),
                None => false,
            },
        }
    }
}

/// A predicate on the tags of a daemon.
#[derive(Clone, Debug, PartialEq, Eq)]
pub enum TagMatch {
    Has(String),
    AnyOf(Vec<String>),
    AllOf(Vec<String>),
    NoneOf(Vec<String>),
}

/// Whether one of `wanted` is among `tags`.
pub open spec fn any_among(wanted: Seq<String>, tags: Seq<String>) -> bool {
    exists|i: int| 0 <= i < wanted.len() && holds_text(tags, #[trigger] wanted[i]@)
}

fn holds_any(wanted: &[String], tags: &[String]) -> (r: bool)
    ensures
        r == any_among(wanted@, tags@),
{
    let mut i: usize = 0;
    while i < wanted.len()
        invariant
            i <= wanted.len(),
            forall|j: int| 0 <= j < i ==> !holds_text(tags@, #[trigger] wanted@[j]@),
        decreases wanted.len() - i,
    {
        if contains_text(tags, wanted[i].as_str()) {
            return true;
        }
        i = i + 1;
    }
    false
}

/// Whether all of `wanted` are among `tags`.
pub open spec fn all_among(wanted: Seq<String>, tags: Seq<String>) -> bool {
    forall|i: int| 0 <= i < wanted.len() ==> holds_text(tags, #[trigger] wanted[i]@)
}

fn holds_all(wanted: &[String], tags: &[String]) -> (r: bool)
    ensures
        r == all_among(wanted@, tags@),
{
    let mut i: usize = 0;
    while i < wanted.len()
        invariant
            i <= wanted.len(),
            forall|j: int| 0 <= j < i ==> holds_text(tags@, #[trigger] wanted@[j]@),
        decreases wanted.len() - i,
    {
        if !contains_text(tags, wanted[i].as_str()) {
            return false;
        }
        i = i + 1;
    }
    true
}

impl TagMatch {
    /// Whether the predicate holds of `tags`.
    pub open spec fn accepts(self, tags: Seq<String>) -> bool {
        match self {
            TagMatch::Has(t) => holds_text(tags, t@),
            TagMatch::AnyOf(ts) => any_among(ts@, tags),
            TagMatch::AllOf(ts) => all_among(ts@, tags),
            TagMatch::NoneOf(ts) => !any_among(ts@, tags),
        }
    }

    /// Whether the predicate holds of `tags`.
    pub fn matches(&self, tags: &[String]) -> (r: bool)
        ensures
            r == self.accepts(tags@),
    {
        match self {
            TagMatch::Has(t) => contains_text(tags, t.as_str()),
            TagMatch::AnyOf(ts) => holds_any(ts.as_slice(), tags),
            TagMatch::AllOf(ts) => holds_all(ts.as_slice(), tags),
            TagMatch::NoneOf(ts) => !holds_any(ts.as_slice(), tags),
        }
    }
}

/// A selector that asks for nothing is satisfied by every daemon.
pub proof fn empty_selector_accepts_all(capabilities: EdgeCapabilities, selector: EdgeSelector)
    requires
        selector.is_empty_selector(),
    ensures
        capabilities.meets(selector),
{
}

/// A selector made of the predicates of two others is satisfied by exactly the
/// daemons that satisfy both.
pub proof fn selector_lists_are_conjunctive(
    capabilities: EdgeCapabilities,
    a: EdgeSelector,
    b: EdgeSelector,
    both: EdgeSelector,
)
    requires
        both.os == a.os,
        both.arch == a.arch,
        b.os is None,
        b.arch is None,
        both.tools@ == a.tools@ + b.tools@,
        both.labels@ == a.labels@ + b.labels@,
        both.tags@ == a.tags@ + b.tags@,
    ensures
        capabilities.meets(both) == (capabilities.meets(a) && capabilities.meets(b)),
{
    let ts = both.tools@;
    let ls = both.labels@;
    let gs = both.tags@;
    assert forall|i: int| 0 <= i < a.tools@.len() implies ts[i] == #[trigger] a.tools@[i] by {}
    assert forall|i: int| 0 <= i < b.tools@.len() implies ts[i + a.tools@.len()]
        == #[trigger] b.tools@[i] by {}
    assert forall|i: int| 0 <= i < a.labels@.len() implies ls[i] == #[trigger] a.labels@[i] by {}
    assert forall|i: int| 0 <= i < b.labels@.len() implies ls[i + a.labels@.len()]
        == #[trigger] b.labels@[i] by {}
    assert forall|i: int| 0 <= i < a.tags@.len() implies gs[i] == #[trigger] a.tags@[i] by {}
    assert forall|i: int| 0 <= i < b.tags@.len() implies gs[i + a.tags@.len()]
        == #[trigger] b.tags@[i] by {}
}

/// `NoneOf` is the denial of `AnyOf`.
pub proof fn none_of_denies_any_of(wanted: Vec<String>, tags: Seq<String>)
    ensures
        TagMatch::NoneOf(wanted).accepts(tags) == !TagMatch::AnyOf(wanted).accepts(tags),
{
}

/// Identifier of an edge group.
#[derive(Clone, Copy, Debug, PartialEq, Eq, Hash, Structural)]
pub struct EdgeGroupId(pub Uuid);

impl EdgeGroupId {
    /// A random identifier.
    pub fn new() -> (r: Self)
        ensures
            shared_kernel::is_version_four(r.0.bits),
    {
        EdgeGroupId(Uuid::new_v4())
    }

    /// The identifier's text form.
    pub fn to_string(&self) -> (r: String)
        ensures
            r@ == shared_kernel::uuid_text(self.0.bits),
    {
        self.0.to_string()
    }
}

impl Default for EdgeGroupId {
    fn default() -> (r: Self)
        ensures
            shared_kernel::is_version_four(r.0.bits),
    {
        EdgeGroupId::new()
    }
}

/// Which daemons a dispatch is meant for.
#[derive(Clone, Debug, PartialEq, Eq)]
pub enum EdgeTarget {
    Node(NodeId),
    Group(EdgeGroupId),
    Selector(EdgeSelector),
    All,
}

/// A named set of daemons: those that its selector picks and those pinned.
#[derive(Clone, Debug)]
pub struct EdgeGroup {
    pub id: EdgeGroupId,
    pub tenant_id: TenantId,
    pub name: String,
    pub selector: EdgeSelector,
    pub pinned_members: Vec<NodeId>,
    pub created_by: String,
    pub created_at: Timestamp,
}

/// Whether a daemon's stream is open.
#[derive(Clone, Debug, PartialEq, Eq)]
pub enum EdgeConnectionState {
    Connected { stream_id: String, since: Timestamp },
    Disconnected { since: Timestamp },
}

/// Health of a cluster node.
#[derive(Clone, Copy, Debug, PartialEq, Eq, Hash, Structural)]
pub enum NodePeerStatus {
    Active,
    Draining,
    Unhealthy,
}

/// An enrolled daemon.
#[derive(Clone, Debug)]
pub struct EdgeDaemon {
    pub node_id: NodeId,
    pub tenant_id: TenantId,
    pub public_key: Vec<u8>,
    pub capabilities: EdgeCapabilities,
    pub status: NodePeerStatus,
    pub connection: EdgeConnectionState,
    pub last_heartbeat_at: Option<Timestamp>,
    pub enrolled_at: Timestamp,
    pub display_name: String,
}

/// Short-lived enrolment token, opaque outside the security infrastructure.
#[derive(Clone, Debug, PartialEq, Eq)]
pub struct EnrollmentToken(pub String);

/// What a verified enrolment token says.
#[derive(Clone, Debug)]
pub struct EnrollmentTokenClaims {
    /// Tenant that the token enrols for.
    pub tid: String,
    /// Subject that issued the token.
    pub sub: String,
    /// Identifier of the token; it is redeemed once.
    pub jti: Uuid,
    pub exp: i64,
    pub nbf: i64,
    pub aud: String,
    pub iss: String,
    /// Endpoint that the daemon connects to.
    pub cep: String,
}

/// Why a dispatch to edge daemons failed.
#[derive(Clone, Debug, PartialEq, Eq)]
pub enum EdgeRouterError {
    EdgeUnavailable { node_id: NodeId },
    NoMatchingEdges,
    CrossTenantAccessDenied { node_id: NodeId, tenant: String },
    GroupNotFound(EdgeGroupId),
    /// The deadline that passed.
    Timeout(Span),
    EdgeDisconnected,
    InsufficientTargets { required: usize, available: usize },
}

impl EdgeRouterError {
    /// What the error says.
    pub open spec fn message(self) -> Seq<char> {
        match self {
            EdgeRouterError::EdgeUnavailable { node_id } => "edge "@ + shared_kernel::uuid_text(
                node_id.0.bits,
            ) + " unavailable"@,
            EdgeRouterError::NoMatchingEdges => "no edge matches selector"@,
            EdgeRouterError::CrossTenantAccessDenied { node_id, tenant } => "edge "@
                + shared_kernel::uuid_text(node_id.0.bits) + " not owned by tenant "@ + tenant@,
            EdgeRouterError::GroupNotFound(id) => "edge group "@ + shared_kernel::uuid_text(
                id.0.bits,
            ) + " not found"@,
            EdgeRouterError::Timeout(deadline) => "dispatch deadline "@ + clock::span_text(
                deadline@.0,
                deadline@.1,
            ) + " exceeded"@,
            EdgeRouterError::EdgeDisconnected => "edge disconnected during dispatch"@,
            EdgeRouterError::InsufficientTargets { required, available } => "require_min_targets="@
                + text::decimal_digits(required as nat) + " but only "@ + text::decimal_digits(
                available as nat,
            ) + " matched"@,
        }
    }

    /// What the error says.
    pub fn to_string(&self) -> (r: String)
        ensures
            r@ == self.message(),
    {
        match self {
            EdgeRouterError::EdgeUnavailable { node_id } => "edge ".to_owned().concat(
                node_id.0.to_string().as_str(),
            ).concat(" unavailable"),
            EdgeRouterError::NoMatchingEdges => "no edge matches selector".to_owned(),
            EdgeRouterError::CrossTenantAccessDenied { node_id, tenant } => "edge ".to_owned().concat(
                node_id.0.to_string().as_str(),
            ).concat(" not owned by tenant ").concat(tenant.as_str()),
            EdgeRouterError::GroupNotFound(id) => "edge group ".to_owned().concat(
                id.to_string().as_str(),
            ).concat(" not found"),
            EdgeRouterError::Timeout(deadline) => "dispatch deadline ".to_owned().concat(
                deadline.to_string().as_str(),
            ).concat(" exceeded"),
            EdgeRouterError::EdgeDisconnected => "edge disconnected during dispatch".to_owned(),
            EdgeRouterError::InsufficientTargets { required, available } => {
                "require_min_targets=".to_owned().concat(
                    text::decimal(*required as u64).as_str(),
                ).concat(" but only ").concat(text::decimal(*available as u64).as_str()).concat(
                    " matched",
                )
            },
        }
    }
}

/// Why a token was not redeemed.
#[derive(Debug)]
pub enum EnrollmentTokenError {
    AlreadyRedeemed,
    NotFound,
    Other(Failure),
}

impl EnrollmentTokenError {
    /// What the error says.
    pub fn to_string(&self) -> (r: String)
        ensures
            self is AlreadyRedeemed ==> r@ == "token already redeemed"@,
            self is NotFound ==> r@ == "token not found"@,
            self matches EnrollmentTokenError::Other(f) ==> f@.len() > 0 ==> r@ == f@[0],
            self matches EnrollmentTokenError::Other(f) ==> f@.len() == 0 ==> r@.len() == 0,
    {
        match self {
            EnrollmentTokenError::AlreadyRedeemed => "token already redeemed".to_owned(),
            EnrollmentTokenError::NotFound => "token not found".to_owned(),
            EnrollmentTokenError::Other(f) => f.to_string(),
        }
    }
}

/// Why a group operation failed.
#[derive(Debug)]
pub enum EdgeGroupRepoError {
    GroupExists,
    NotFound,
    Other(Failure),
}

impl EdgeGroupRepoError {
    /// What the error says.
    pub fn to_string(&self) -> (r: String)
        ensures
            self is GroupExists ==> r@ == "group with name already exists for tenant"@,
            self is NotFound ==> r@ == "group not found"@,
            self matches EdgeGroupRepoError::Other(f) ==> f@.len() > 0 ==> r@ == f@[0],
            self matches EdgeGroupRepoError::Other(f) ==> f@.len() == 0 ==> r@.len() == 0,
    {
        match self {
            EdgeGroupRepoError::GroupExists => {
                "group with name already exists for tenant".to_owned()
            },
            EdgeGroupRepoError::NotFound => "group not found".to_owned(),
            EdgeGroupRepoError::Other(f) => f.to_string(),
        }
    }
}

/// What a label predicate says of the labels that a daemon advertises, each
/// label a pair of a name and a value.
pub open spec fn label_holds(m: LabelMatch, labels: Map<Seq<char>, Seq<char>>) -> bool {
    match m {
        LabelMatch::Equals(k, v) => exists|name: Seq<char>| #[trigger]
            labels.dom().contains(name) && name == k@ && labels[name] == v@,
        LabelMatch::Exists(k) => exists|name: Seq<char>| #[trigger]
            labels.dom().contains(name) && name == k@,
        LabelMatch::In(k, vs) => exists|name: Seq<char>, i: int| #[trigger]
            labels.dom().contains(name) && 0 <= i < vs@.len() && name == k@
                && labels[name] == #[trigger] vs@[i]@,
    }
}

/// Whether one of the tags reads like `t`.
pub open spec fn carries(tags: Seq<String>, t: Seq<char>) -> bool {
    exists|j: int| 0 <= j < tags.len() && t == (#[trigger] tags[j])@
}

/// What a tag predicate says of the tags that a daemon carries.
pub open spec fn tag_holds(m: TagMatch, tags: Seq<String>) -> bool {
    match m {
        TagMatch::Has(t) => carries(tags, t@),
        TagMatch::AnyOf(ts) => exists|i: int, j: int|
            0 <= i < ts@.len() && 0 <= j < tags.len() && #[trigger] ts@[i]@
                == #[trigger] tags[j]@,
        TagMatch::AllOf(ts) => forall|i: int|
            0 <= i < ts@.len() ==> carries(tags, (#[trigger] ts@[i])@),
        TagMatch::NoneOf(ts) => forall|i: int, j: int|
            0 <= i < ts@.len() && 0 <= j < tags.len() ==> #[trigger] ts@[i]@
                != #[trigger] tags[j]@,
    }
}

/// A label predicate is accepted exactly where a label of that name stands
/// among the daemon's, with the value, or one of the values, that it asks for.
pub proof fn label_predicates_ask_for_a_label(m: LabelMatch, labels: Map<Seq<char>, Seq<char>>)
    ensures
        m.accepts(labels) <==> label_holds(m, labels),
{
    match m {
        LabelMatch::Equals(k, v) => {
            if m.accepts(labels) {
                assert(labels.dom().contains(k@));
            }
        },
        LabelMatch::Exists(k) => {
            if m.accepts(labels) {
                assert(labels.dom().contains(k@));
            }
        },
        LabelMatch::In(k, vs) => {
            if m.accepts(labels) {
                assert(labels.dom().contains(k@));
                let i = choose|i: int| 0 <= i < vs@.len() && #[trigger] vs@[i]@ == labels[k@];
                assert(vs@[i]@ == labels[k@]);
            }
            if label_holds(m, labels) {
                let (name, i) = choose|name: Seq<char>, i: int| #[trigger]
                    labels.dom().contains(name) && 0 <= i < vs@.len() && name == k@
                        && labels[name] == #[trigger] vs@[i]@;
                assert(vs@[i]@ == labels[k@]);
                assert(holds_text(vs@, labels[k@]));
            }
        },
    }
}

/// A tag predicate is accepted exactly where the tags it names stand among the
/// daemon's: the one, at least one, each, or none of them.
pub proof fn tag_predicates_ask_for_tags(m: TagMatch, tags: Seq<String>)
    ensures
        m.accepts(tags) <==> tag_holds(m, tags),
{
    match m {
        TagMatch::Has(t) => {
            lemma_carries(tags, t@);
        },
        TagMatch::AnyOf(ts) => {
            lemma_any_among(ts@, tags);
        },
        TagMatch::AllOf(ts) => {
            assert forall|i: int| 0 <= i < ts@.len() implies carries(tags, (#[trigger] ts@[i])@)
                == holds_text(tags, ts@[i]@) by {
                lemma_carries(tags, ts@[i]@);
            }
        },
        TagMatch::NoneOf(ts) => {
            lemma_any_among(ts@, tags);
        },
    }
}

proof fn lemma_carries(tags: Seq<String>, t: Seq<char>)
    ensures
        carries(tags, t) == holds_text(tags, t),
{
    if carries(tags, t) {
        let j = choose|j: int| 0 <= j < tags.len() && t == (#[trigger] tags[j])@;
        assert(tags[j]@ == t);
    }
}

proof fn lemma_any_among(wanted: Seq<String>, tags: Seq<String>)
    ensures
        any_among(wanted, tags) <==> exists|i: int, j: int|
            0 <= i < wanted.len() && 0 <= j < tags.len() && #[trigger] wanted[i]@
                == #[trigger] tags[j]@,
{
    if any_among(wanted, tags) {
        let i = choose|i: int| 0 <= i < wanted.len() && holds_text(tags, #[trigger] wanted[i]@);
        let j = choose|j: int| 0 <= j < tags.len() && #[trigger] tags[j]@ == wanted[i]@;
        assert(wanted[i]@ == tags[j]@);
    }
    if exists|i: int, j: int|
        0 <= i < wanted.len() && 0 <= j < tags.len() && #[trigger] wanted[i]@
            == #[trigger] tags[j]@ {
        let (i, j) = choose|i: int, j: int|
            0 <= i < wanted.len() && 0 <= j < tags.len() && #[trigger] wanted[i]@
                == #[trigger] tags[j]@;
        assert(tags[j]@ == wanted[i]@);
        assert(holds_text(tags, wanted[i]@));
    }
}

/// One predicate of a selector that fails is enough for the daemon not to be
/// picked: another operating system, another architecture, a tool that it
/// lacks, a label predicate or a tag predicate that does not hold.
pub proof fn one_failed_predicate_rules_out(
    capabilities: EdgeCapabilities,
    selector: EdgeSelector,
    i: int,
)
    ensures
        selector.os is Some && selector.os->0@ != capabilities.os@ ==> !capabilities.meets(
            selector,
        ),
        selector.arch is Some && selector.arch->0@ != capabilities.arch@ ==> !capabilities.meets(
            selector,
        ),
        0 <= i < selector.tools@.len() && (forall|j: int|
            0 <= j < capabilities.local_tools@.len() ==> #[trigger]
            capabilities.local_tools@[j]@ != selector.tools@[i]@) ==> !capabilities.meets(
            selector,
        ),
        0 <= i < selector.labels@.len() && !label_holds(
            selector.labels@[i],
            capabilities.custom_labels@,
        ) ==> !capabilities.meets(selector),
        0 <= i < selector.tags@.len() && !tag_holds(selector.tags@[i], capabilities.tags@)
            ==> !capabilities.meets(selector),
{
    if capabilities.meets(selector) {
        if 0 <= i < selector.tools@.len() {
            assert(holds_text(capabilities.local_tools@, selector.tools@[i]@));
        }
        if 0 <= i < selector.labels@.len() {
            assert(selector.labels@[i].accepts(capabilities.custom_labels@));
            label_predicates_ask_for_a_label(
                selector.labels@[i],
                capabilities.custom_labels@,
            );
        }
        if 0 <= i < selector.tags@.len() {
            assert(selector.tags@[i].accepts(capabilities.tags@));
            tag_predicates_ask_for_tags(selector.tags@[i], capabilities.tags@);
        }
    }
}

/// A daemon on which no predicate of a selector fails is picked; what the
/// selector does not ask about does not count.
pub proof fn no_failed_predicate_lets_in(capabilities: EdgeCapabilities, selector: EdgeSelector)
    requires
        selector.os is Some ==> selector.os->0@ == capabilities.os@,
        selector.arch is Some ==> selector.arch->0@ == capabilities.arch@,
        forall|i: int|
            #![trigger selector.tools@[i]@]
            0 <= i < selector.tools@.len() ==> exists|j: int|
                0 <= j < capabilities.local_tools@.len() && #[trigger]
                capabilities.local_tools@[j]@ == selector.tools@[i]@,
        forall|i: int|
            0 <= i < selector.labels@.len() ==> label_holds(
                #[trigger] selector.labels@[i],
                capabilities.custom_labels@,
            ),
        forall|i: int|
            0 <= i < selector.tags@.len() ==> tag_holds(
                #[trigger] selector.tags@[i],
                capabilities.tags@,
            ),
    ensures
        capabilities.meets(selector),
{
    assert forall|i: int| 0 <= i < selector.labels@.len() implies (
    #[trigger] selector.labels@[i]).accepts(capabilities.custom_labels@) by {
        label_predicates_ask_for_a_label(selector.labels@[i], capabilities.custom_labels@);
    }
    assert forall|i: int| 0 <= i < selector.tags@.len() implies (
    #[trigger] selector.tags@[i]).accepts(capabilities.tags@) by {
        tag_predicates_ask_for_tags(selector.tags@[i], capabilities.tags@);
    }
}

/// What an error of a dispatch says names what it is about: the daemon, the
/// tenant, the group, the deadline, or how many daemons were wanted and found.
pub proof fn dispatch_errors_name_their_cause(e: EdgeRouterError)
    ensures
        e matches EdgeRouterError::EdgeUnavailable { node_id } ==> e.message() == "edge "@
            + shared_kernel::uuid_text(node_id.0.bits) + " unavailable"@,
        e is NoMatchingEdges ==> e.message() == "no edge matches selector"@,
        e matches EdgeRouterError::CrossTenantAccessDenied { node_id, tenant } ==> e.message()
            == "edge "@ + shared_kernel::uuid_text(node_id.0.bits) + " not owned by tenant "@
            + tenant@,
        e matches EdgeRouterError::GroupNotFound(id) ==> e.message() == "edge group "@
            + shared_kernel::uuid_text(id.0.bits) + " not found"@,
        e matches EdgeRouterError::Timeout(deadline) ==> e.message() == "dispatch deadline "@
            + clock::span_text(deadline@.0, deadline@.1) + " exceeded"@,
        e is EdgeDisconnected ==> e.message() == "edge disconnected during dispatch"@,
        e matches EdgeRouterError::InsufficientTargets { required, available } ==> e.message()
            == "require_min_targets="@ + text::decimal_digits(required as nat) + " but only "@
            + text::decimal_digits(available as nat) + " matched"@,
{
}

} // verus!

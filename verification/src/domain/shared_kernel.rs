//! Identifiers that every context shares.

use vstd::prelude::*;
use crate::support::failure::Failure;

verus! {

/// A 128-bit universally unique identifier.
#[derive(Clone, Copy, Debug, PartialEq, Eq, Hash, Structural)]
pub struct Uuid {
    pub bits: u128,
}

/// What `uuid::Uuid::parse_str` reads: the identifier as a big-endian number,
/// or the text of the error.
pub uninterp spec fn uuid_parsed(text: Seq<char>) -> Result<u128, Seq<char>>;

/// What `uuid::Uuid`'s `Display` writes: the hyphenated lower-case form.
pub uninterp spec fn uuid_text(bits: u128) -> Seq<char>;

/// `uuid::Uuid::parse_str`, its result as a number, its error as text.
#[verifier::external_body]
fn parse_uuid(text: &str) -> (r: Result<u128, String>)
    ensures
        r is Ok <==> uuid_parsed(text@) is Ok,
        r is Ok ==> r->Ok_0 == uuid_parsed(text@)->Ok_0,
        r is Err ==> r->Err_0@ == uuid_parsed(text@)->Err_0,
{
    match uuid::Uuid::parse_str(text) {
        Ok(id) => Ok(id.as_u128()),
        Err(e) => Err(e.to_string()),
    }
}

/// `uuid::Uuid`'s `Display`. Parsing the text gives the identifier back.
#[verifier::external_body]
fn format_uuid(bits: u128) -> (r: String)
    ensures
        r@ == uuid_text(bits),
        uuid_parsed(r@) is Ok && uuid_parsed(r@)->Ok_0 == bits,
{
    uuid::Uuid::from_u128(bits).to_string()
}

/// `uuid::Uuid::new_v4`: random but for the version, four, and the variant.
#[verifier::external_body]
fn random_uuid() -> (r: u128)
    ensures
        is_version_four(r),
{
    uuid::Uuid::new_v4().as_u128()
}

/// Whether the version field holds four and the variant field the RFC 4122
/// variant.
pub open spec fn is_version_four(bits: u128) -> bool {
    (bits >> 76u128) & 0xfu128 == 4u128 && (bits >> 62u128) & 0x3u128 == 2u128
}

impl Uuid {
    /// Reads an identifier from its text form.
    pub fn parse_str(text: &str) -> (r: Result<Uuid, String>)
        ensures
            r is Ok <==> uuid_parsed(text@) is Ok,
            r is Ok ==> r->Ok_0 == (Uuid { bits: uuid_parsed(text@)->Ok_0 }),
            r is Err ==> r->Err_0@ == uuid_parsed(text@)->Err_0,
    {
        match parse_uuid(text) {
            Ok(bits) => Ok(Uuid { bits }),
            Err(e) => Err(e),
        }
    }

    /// The hyphenated lower-case form, from which [`Uuid::parse_str`] reads the
    /// same identifier back.
    pub fn to_string(&self) -> (r: String)
        ensures
            r@ == uuid_text(self.bits),
            uuid_parsed(r@) is Ok && uuid_parsed(r@)->Ok_0 == self.bits,
    {
        format_uuid(self.bits)
    }

    /// The identifier whose bits are all zero.
    pub fn nil() -> (r: Uuid)
        ensures
            r == (Uuid { bits: 0 }),
    {
        Uuid { bits: 0 }
    }

    /// A random identifier of version four.
    pub fn new_v4() -> (r: Uuid)
        ensures
            is_version_four(r.bits),
    {
        Uuid { bits: random_uuid() }
    }
}

/// Identifier of an agent.
#[derive(Clone, Copy, Debug, PartialEq, Eq, Hash, Structural)]
pub struct AgentId(pub Uuid);

/// Identifier of an execution.
#[derive(Clone, Copy, Debug, PartialEq, Eq, Hash, Structural)]
pub struct ExecutionId(pub Uuid);

/// Identifier of a workflow.
#[derive(Clone, Copy, Debug, PartialEq, Eq, Hash, Structural)]
pub struct WorkflowId(pub Uuid);

/// Identifier of a volume.
#[derive(Clone, Copy, Debug, PartialEq, Eq, Hash, Structural)]
pub struct VolumeId(pub Uuid);

/// Identifier of a cluster node.
#[derive(Clone, Copy, Debug, PartialEq, Eq, Hash, Structural)]
pub struct NodeId(pub Uuid);

/// Slug of a tenant, never empty.
#[derive(Debug, PartialEq, Eq, Hash)]
pub struct TenantId {
    slug: String,
}

/// Slug of the tenant that owns what is visible to every tenant.
pub open spec fn system_slug() -> Seq<char> {
    "aegis-system"@
}

impl Clone for TenantId {
    fn clone(&self) -> (r: Self)
        ensures
            r == *self,
    {
        self.copy()
    }
}

impl View for TenantId {
    type V = Seq<char>;

    closed spec fn view(&self) -> Seq<char> {
        self.slug@
    }
}

impl TenantId {
    /// A tenant's slug is never empty.
    #[verifier::type_invariant]
    spec fn well_formed(self) -> bool {
        self.slug@.len() > 0
    }

    /// The tenant named `slug`; an empty slug names none.
    pub fn new(slug: String) -> (r: Result<TenantId, Failure>)
        ensures
            r is Ok <==> slug@.len() > 0,
            r is Ok ==> r->Ok_0@ == slug@,
            r is Err ==> r->Err_0@ == seq!["tenant id must not be empty"@],
    {
        if slug.as_str().is_empty() {
            Err(Failure::msg("tenant id must not be empty"))
        } else {
            Ok(TenantId { slug })
        }
    }

    /// The tenant named by a copy of `slug`.
    pub fn from_string(slug: &str) -> (r: Result<TenantId, Failure>)
        ensures
            r is Ok <==> slug@.len() > 0,
            r is Ok ==> r->Ok_0@ == slug@,
            r is Err ==> r->Err_0@ == seq!["tenant id must not be empty"@],
    {
        TenantId::new(slug.to_owned())
    }

    /// The tenant that owns what is visible to every tenant.
    pub fn system() -> (r: TenantId)
        ensures
            r@ == system_slug(),
    {
        proof {
            reveal_strlit("aegis-system");
        }
        TenantId { slug: "aegis-system".to_owned() }
    }

    /// The slug.
    pub fn as_str(&self) -> (r: &str)
        ensures
            r@ == self@,
            r@.len() > 0,
    {
        proof {
            use_type_invariant(self);
        }
        self.slug.as_str()
    }

    /// A copy of the identifier.
    pub fn copy(&self) -> (r: TenantId)
        ensures
            r == *self,
    {
        proof {
            use_type_invariant(self);
        }
        TenantId { slug: self.slug.clone() }
    }

    /// Whether both name the same tenant.
    pub fn same(&self, other: &TenantId) -> (r: bool)
        ensures
            r == (self@ == other@),
    {
        self.slug == other.slug
    }
}

/// What every tenant can see belongs to a tenant with a name of its own, which
/// is never empty.
pub proof fn the_system_tenant_has_a_name()
    ensures
        system_slug() == "aegis-system"@,
        system_slug().len() == 12,
{
    reveal_strlit("aegis-system");
}

/// An identifier is of version four exactly where the four bits of its version
/// read four and the two bits of its variant read two.
pub proof fn version_four_shows_in_two_fields(bits: u128)
    ensures
        is_version_four(bits) <==> bits & 0x0000_0000_0000_f000_c000_0000_0000_0000u128
            == 0x0000_0000_0000_4000_8000_0000_0000_0000u128,
{
    assert(((bits >> 76u128) & 0xfu128 == 4u128 && (bits >> 62u128) & 0x3u128 == 2u128) <==> bits
        & 0x0000_0000_0000_f000_c000_0000_0000_0000u128
        == 0x0000_0000_0000_4000_8000_0000_0000_0000u128) by (bit_vector);
}

} // verus!

//! Identities.

use vstd::prelude::*;
use crate::domain::shared_kernel::TenantId;
use crate::support::text;

verus! {

/// What a consumer pays for.
#[derive(Clone, Copy, Debug, PartialEq, Eq, Hash, Structural)]
pub enum ZaruTier {
    Free,
    Pro,
    Business,
    Enterprise,
}

/// The tier that a claim names, white space at its ends and the case of its
/// letters aside. A claim that names none stands for none: it is not taken for
/// the free tier.
pub open spec fn tier_named(claim: Seq<char>) -> Option<ZaruTier> {
    let name = text::trimmed(claim);
    if text::is_in_any_case(name, "free"@) {
        Some(ZaruTier::Free)
    } else if text::is_in_any_case(name, "pro"@) {
        Some(ZaruTier::Pro)
    } else if text::is_in_any_case(name, "business"@) {
        Some(ZaruTier::Business)
    } else if text::is_in_any_case(name, "enterprise"@) {
        Some(ZaruTier::Enterprise)
    } else {
        None
    }
}

impl ZaruTier {
    /// The tier that a claim names.
    pub fn from_claim(claim: &str) -> (r: Option<ZaruTier>)
        ensures
            r == tier_named(claim@),
    {
        let name = text::trim(claim);
        if text::same_in_any_case(name.as_str(), "free") {
            Some(ZaruTier::Free)
        } else if text::same_in_any_case(name.as_str(), "pro") {
            Some(ZaruTier::Pro)
        } else if text::same_in_any_case(name.as_str(), "business") {
            Some(ZaruTier::Business)
        } else if text::same_in_any_case(name.as_str(), "enterprise") {
            Some(ZaruTier::Enterprise)
        } else {
            None
        }
    }
}

/// The case of a claim's letters does not change the tier that it names.
pub proof fn tier_ignores_case(a: Seq<char>, b: Seq<char>)
    requires
        text::trimmed(a).len() == text::trimmed(b).len(),
        forall|i: int|
            0 <= i < text::trimmed(a).len() ==> text::small(#[trigger] text::trimmed(a)[i])
                == text::small(text::trimmed(b)[i]),
    ensures
        tier_named(a) == tier_named(b),
{
    let x = text::trimmed(a);
    let y = text::trimmed(b);
    assert forall|l: Seq<char>| #[trigger] text::is_in_any_case(x, l) == text::is_in_any_case(
        y,
        l,
    ) by {
        if text::is_in_any_case(x, l) {
            assert forall|i: int| 0 <= i < y.len() implies text::small(#[trigger] y[i]) == l[i] by {
                assert(text::small(x[i]) == l[i]);
            }
        }
        if text::is_in_any_case(y, l) {
            assert forall|i: int| 0 <= i < x.len() implies text::small(#[trigger] x[i]) == l[i] by {
                assert(text::small(y[i]) == l[i]);
            }
        }
    }
}

/// Who a caller is.
#[derive(Debug)]
pub enum IdentityKind {
    ConsumerUser { zaru_tier: ZaruTier, tenant_id: TenantId },
}

/// A caller, as rate limits see it.
#[derive(Debug)]
pub struct UserIdentity {
    pub sub: String,
    pub realm_slug: String,
    pub email: Option<String>,
    pub name: Option<String>,
    pub identity_kind: IdentityKind,
}

/// Whether a claim is a name in small letters, in any case and with white space
/// around it.
pub open spec fn spells(claim: Seq<char>, name: Seq<char>) -> bool {
    exists|at: int| #[trigger] spells_at(claim, name, at)
}

/// Whether a claim holds a name from a place on, in any case and with nothing
/// but white space around it.
pub open spec fn spells_at(claim: Seq<char>, name: Seq<char>, at: int) -> bool {
    &&& 0 <= at && at + name.len() <= claim.len()
    &&& forall|i: int| 0 <= i < at ==> text::whitespace(#[trigger] claim[i])
    &&& forall|i: int| at + name.len() <= i < claim.len() ==> text::whitespace(#[trigger] claim[i])
    &&& forall|i: int|
        0 <= i < name.len() ==> claim[at + i] == (#[trigger] name[i]) || claim[at + i] as int + 32
            == name[i] as int
}

proof fn lemma_spelling(claim: Seq<char>, name: Seq<char>)
    requires
        name.len() > 0,
        forall|i: int| 0 <= i < name.len() ==> 'a' <= #[trigger] name[i] <= 'z',
    ensures
        spells(claim, name) <==> text::is_in_any_case(text::trimmed(claim), name),
{
    text::case_is_that_of_ascii(text::trimmed(claim), name);
    if spells(claim, name) {
        let at = choose|at: int| #[trigger] spells_at(claim, name, at);
        let end = at + name.len();
        assert(name[0] == name[0]);
        assert(claim[at] == claim[at + 0]);
        let last = name.len() - 1;
        assert('a' <= name[last] <= 'z');
        assert(claim[end - 1] == claim[at + last]);
        text::trimming_leaves_the_middle(claim, at, end);
        let middle = claim.subrange(at, end);
        assert forall|i: int| 0 <= i < middle.len() implies (#[trigger] middle[i]) == name[i] || (
        'a' <= name[i] <= 'z' && middle[i] as int + 32 == name[i] as int) by {
            assert(middle[i] == claim[at + i]);
        }
    }
    if text::is_in_any_case(text::trimmed(claim), name) {
        let (a, b) = text::trimming_takes_the_ends(claim);
        let middle = claim.subrange(a, b);
        assert forall|i: int| 0 <= i < name.len() implies claim[a + i] == (#[trigger] name[i])
            || claim[a + i] as int + 32 == name[i] as int by {
            assert(middle[i] == claim[a + i]);
        }
        assert(spells_at(claim, name, a));
    }
}

/// A claim stands for the tier whose name it spells, in any case and with white
/// space around it, and for none where it spells no tier's name.
pub proof fn tier_is_the_one_spelled(claim: Seq<char>)
    ensures
        tier_named(claim) == Some(ZaruTier::Free) <==> spells(claim, "free"@),
        tier_named(claim) == Some(ZaruTier::Pro) <==> spells(claim, "pro"@),
        tier_named(claim) == Some(ZaruTier::Business) <==> spells(claim, "business"@),
        tier_named(claim) == Some(ZaruTier::Enterprise) <==> spells(claim, "enterprise"@),
        tier_named(claim) is None <==> !spells(claim, "free"@) && !spells(claim, "pro"@) && !spells(
            claim,
            "business"@,
        ) && !spells(claim, "enterprise"@),
{
    reveal_strlit("free");
    reveal_strlit("pro");
    reveal_strlit("business");
    reveal_strlit("enterprise");
    lemma_spelling(claim, "free"@);
    lemma_spelling(claim, "pro"@);
    lemma_spelling(claim, "business"@);
    lemma_spelling(claim, "enterprise"@);
}

} // verus!

//! Volumes in memory.

use vstd::prelude::*;
use crate::domain::repository::RepositoryError;
use crate::domain::shared_kernel::{TenantId, VolumeId};
use crate::domain::volume;
use crate::domain::volume::{Volume, VolumeOwnership, VolumeStatus};
use crate::support::clock::Timestamp;
use crate::support::stored::Stored;
use crate::support::text::same_text;

verus! {

/// Volumes by identifier, kept in memory.
pub struct InMemoryVolumeRepository {
    volumes: Vec<Volume>,
}

/// Whether no two volumes share an identifier.
pub open spec fn distinct(s: Seq<Volume>) -> bool {
    forall|i: int, j: int|
        0 <= i < s.len() && 0 <= j < s.len() && (#[trigger] s[i]).id == (#[trigger] s[j]).id ==> i
            == j
}

/// Whether there is a volume with the identifier.
pub open spec fn holds(s: Seq<Volume>, id: VolumeId) -> bool {
    exists|i: int| 0 <= i < s.len() && (#[trigger] s[i]).id == id
}

/// Where the volume with the identifier stands.
pub open spec fn place(s: Seq<Volume>, id: VolumeId) -> int {
    choose|i: int| 0 <= i < s.len() && (#[trigger] s[i]).id == id
}

/// The volume with the identifier.
pub open spec fn lookup(s: Seq<Volume>, id: VolumeId) -> Option<Volume> {
    if holds(s, id) {
        Some(s[place(s, id)])
    } else {
        None
    }
}

/// The volumes with `v` in the place of the one of the same identifier, or
/// behind all others.
pub open spec fn saved(s: Seq<Volume>, v: Volume) -> Seq<Volume> {
    if holds(s, v.id) {
        s.update(place(s, v.id), v)
    } else {
        s.push(v)
    }
}

/// The volumes without the one of the identifier.
pub open spec fn deleted(s: Seq<Volume>, id: VolumeId) -> Seq<Volume> {
    if holds(s, id) {
        s.remove(place(s, id))
    } else {
        s
    }
}

/// The volumes that `keep` accepts, in order.
pub open spec fn selected(s: Seq<Volume>, keep: spec_fn(Volume) -> bool) -> Seq<Volume>
    decreases s.len(),
{
    if s.len() == 0 {
        s
    } else {
        let before = selected(s.drop_last(), keep);
        if keep(s.last()) {
            before.push(s.last())
        } else {
            before
        }
    }
}

/// The sum of what volumes may hold.
pub open spec fn total_size(s: Seq<Volume>) -> nat
    decreases s.len(),
{
    if s.len() == 0 {
        0
    } else {
        total_size(s.drop_last()) + s.last().size_limit_bytes as nat
    }
}

/// Volumes of a tenant.
pub open spec fn of_tenant(tenant: Seq<char>) -> spec_fn(Volume) -> bool {
    |v: Volume| v.tenant_id@ == tenant
}

/// Volumes whose time ran out before `now`.
pub open spec fn expired(now: Timestamp) -> spec_fn(Volume) -> bool {
    |v: Volume| v.expires_at matches Some(t) && t.order() < now.order()
}

/// Volumes of the given owner.
pub open spec fn owned(owner: volume::OwnerView) -> spec_fn(Volume) -> bool {
    |v: Volume| v.ownership@ == owner
}

/// Volumes of a user in a tenant, those that are deleted left out.
pub open spec fn of_user(tenant: Seq<char>, user: Seq<char>) -> spec_fn(Volume) -> bool {
    |v: Volume|
        v.tenant_id@ == tenant && v.status != VolumeStatus::Deleted && v.ownership@
            == (volume::OwnerView::Persistent { owner: user })
}

/// What was saved is found again, and under every other identifier the same as
/// before.
pub proof fn saved_is_found(s: Seq<Volume>, v: Volume, other: VolumeId)
    requires
        distinct(s),
    ensures
        distinct(saved(s, v)),
        lookup(saved(s, v), v.id) == Some(v),
        other != v.id ==> lookup(saved(s, v), other) == lookup(s, other),
{
    let after = saved(s, v);
    let at = if holds(s, v.id) {
        place(s, v.id)
    } else {
        s.len() as int
    };
    assert(after[at] == v);
    assert forall|k: int| 0 <= k < s.len() && k != at implies #[trigger] after[k] == s[k] by {}
    assert(distinct(after));
    assert(holds(after, v.id));
    if other != v.id {
        if holds(s, other) {
            let k = place(s, other);
            assert(after[k].id == other);
        } else {
            assert(!holds(after, other));
        }
    }
}

/// What was deleted is not found any more, and under every other identifier the
/// same is found as before.
pub proof fn deleted_is_gone(s: Seq<Volume>, id: VolumeId, other: VolumeId)
    requires
        distinct(s),
    ensures
        distinct(deleted(s, id)),
        lookup(deleted(s, id), id) is None,
        other != id ==> lookup(deleted(s, id), other) == lookup(s, other),
{
    let after = deleted(s, id);
    if holds(s, id) {
        let at = place(s, id);
        assert forall|k: int| 0 <= k < after.len() implies #[trigger] after[k] == s[if k < at {
            k
        } else {
            k + 1
        }] by {}
        assert(!holds(after, id));
        if other != id {
            if holds(s, other) {
                let k = place(s, other);
                let m = if k < at {
                    k
                } else {
                    k - 1
                };
                assert(after[m] == s[k]);
                assert(after[m].id == other);
            } else {
                assert(!holds(after, other));
            }
        }
    }
}

/// A deleted volume is in no listing of a user's volumes.
pub proof fn deleted_volumes_are_not_listed(
    s: Seq<Volume>,
    tenant: Seq<char>,
    user: Seq<char>,
    i: int,
)
    requires
        0 <= i < selected(s, of_user(tenant, user)).len(),
    ensures
        selected(s, of_user(tenant, user))[i].status != VolumeStatus::Deleted,
        selected(s, of_user(tenant, user))[i].tenant_id@ == tenant,
    decreases s.len(),
{
    if s.len() > 0 {
        let before = selected(s.drop_last(), of_user(tenant, user));
        if i < before.len() {
            deleted_volumes_are_not_listed(s.drop_last(), tenant, user, i);
        }
    }
}

impl View for InMemoryVolumeRepository {
    type V = Seq<Volume>;

    closed spec fn view(&self) -> Seq<Volume> {
        self.volumes@
    }
}

impl InMemoryVolumeRepository {
    #[verifier::type_invariant]
    spec fn well_formed(self) -> bool {
        distinct(self.volumes@)
    }

    /// A repository without volumes.
    pub fn new() -> (r: Self)
        ensures
            r@ == Seq::<Volume>::empty(),
    {
        InMemoryVolumeRepository { volumes: Vec::new() }
    }

    fn find(&self, id: VolumeId) -> (r: Option<usize>)
        ensures
            match r {
                Some(i) => i < self@.len() && holds(self@, id) && place(self@, id) == i,
                None => !holds(self@, id),
            },
    {
        proof {
            use_type_invariant(self);
        }
        let mut i: usize = 0;
        while i < self.volumes.len()
            invariant
                i <= self.volumes@.len(),
                distinct(self.volumes@),
                forall|j: int| 0 <= j < i ==> (#[trigger] self.volumes@[j]).id != id,
            decreases self.volumes.len() - i,
        {
            if self.volumes[i].id == id {
                assert(self.volumes@[i as int].id == id);
                return Some(i);
            }
            i = i + 1;
        }
        None
    }

    /// Keeps a copy of `volume`.
    pub fn save(&mut self, volume: &Volume) -> (r: Result<(), RepositoryError>)
        ensures
            r is Ok,
            final(self)@ == saved(old(self)@, *volume),
            lookup(final(self)@, volume.id) == Some(*volume),
            distinct(final(self)@),
    {
        let at = self.find(volume.id);
        proof {
            use_type_invariant(&*self);
            saved_is_found(self@, *volume, volume.id);
        }
        let copy = volume.duplicate();
        let mut volumes: Vec<Volume> = Vec::new();
        std::mem::swap(&mut volumes, &mut self.volumes);
        match at {
            Some(i) => {
                volumes[i] = copy;
            },
            None => {
                volumes.push(copy);
            },
        }
        self.volumes = volumes;
        Ok(())
    }

    /// The volume with the identifier.
    pub fn find_by_id(&self, id: VolumeId) -> (r: Result<Option<Volume>, RepositoryError>)
        ensures
            r == Ok::<Option<Volume>, RepositoryError>(lookup(self@, id)),
    {
        match self.find(id) {
            Some(i) => Ok(Some(self.volumes[i].duplicate())),
            None => Ok(None),
        }
    }

    fn select<F: Fn(&Volume) -> bool>(
        &self,
        accepts: F,
        Ghost(keep): Ghost<spec_fn(Volume) -> bool>,
    ) -> (r: Vec<Volume>)
        requires
            forall|v: &Volume| #[trigger] accepts.requires((v,)),
            forall|v: &Volume, b: bool| #[trigger] accepts.ensures((v,), b) ==> b == keep(*v),
        ensures
            r@ == selected(self@, keep),
    {
        let mut r: Vec<Volume> = Vec::new();
        let mut i: usize = 0;
        assert(r@ =~= selected(self.volumes@.take(0), keep));
        while i < self.volumes.len()
            invariant
                i <= self.volumes@.len(),
                forall|v: &Volume| #[trigger] accepts.requires((v,)),
                forall|v: &Volume, b: bool|
                    #[trigger] accepts.ensures((v,), b) ==> b == keep(*v),
                r@ == selected(self.volumes@.take(i as int), keep),
            decreases self.volumes.len() - i,
        {
            proof {
                let taken = self.volumes@.take(i as int + 1);
                assert(taken.drop_last() =~= self.volumes@.take(i as int));
                assert(taken.last() == self.volumes@[i as int]);
            }
            if accepts(&self.volumes[i]) {
                r.push(self.volumes[i].duplicate());
            }
            i = i + 1;
        }
        assert(self.volumes@.take(i as int) =~= self.volumes@);
        r
    }

    /// The volumes of a tenant.
    pub fn find_by_tenant(&self, tenant_id: &TenantId) -> (r: Result<Vec<Volume>, RepositoryError>)
        ensures
            r is Ok,
            r->Ok_0@ == selected(self@, of_tenant(tenant_id@)),
    {
        Ok(
            self.select(
                |v: &Volume| -> (b: bool)
                    ensures
                        b == of_tenant(tenant_id@)(*v)
                    { v.tenant_id.same(tenant_id) },
                Ghost(of_tenant(tenant_id@)),
            ),
        )
    }

    /// The volumes whose time has run out.
    pub fn find_expired(&self) -> (r: Result<Vec<Volume>, RepositoryError>)
        ensures
            r is Ok,
            exists|now: Timestamp|
                now.seconds >= 0 && now.nanos < 1_000_000_000 && r->Ok_0@ == selected(
                    self@,
                    #[trigger] expired(now),
                ),
    {
        let now = Timestamp::now();
        self.find_expired_at(now)
    }

    /// The volumes whose time ran out before `now`.
    pub fn find_expired_at(&self, now: Timestamp) -> (r: Result<Vec<Volume>, RepositoryError>)
        ensures
            r is Ok,
            r->Ok_0@ == selected(self@, expired(now)),
    {
        Ok(
            self.select(
                |v: &Volume| -> (b: bool)
                    ensures
                        b == expired(now)(*v)
                    {
                        match &v.expires_at {
                            Some(t) => t.before(&now),
                            None => false,
                        }
                    },
                Ghost(expired(now)),
            ),
        )
    }

    /// The volumes of an owner.
    pub fn find_by_ownership(&self, ownership: &VolumeOwnership) -> (r: Result<
        Vec<Volume>,
        RepositoryError,
    >)
        ensures
            r is Ok,
            r->Ok_0@ == selected(self@, owned(ownership@)),
    {
        Ok(
            self.select(
                |v: &Volume| -> (b: bool)
                    ensures
                        b == owned(ownership@)(*v)
                    { v.ownership.same(ownership) },
                Ghost(owned(ownership@)),
            ),
        )
    }

    /// Drops the volume with the identifier, if there is one.
    pub fn delete(&mut self, id: VolumeId) -> (r: Result<(), RepositoryError>)
        ensures
            r is Ok,
            final(self)@ == deleted(old(self)@, id),
            lookup(final(self)@, id) is None,
            distinct(final(self)@),
    {
        let at = self.find(id);
        proof {
            use_type_invariant(&*self);
            deleted_is_gone(self@, id, id);
        }
        if let Some(i) = at {
            let mut volumes: Vec<Volume> = Vec::new();
            std::mem::swap(&mut volumes, &mut self.volumes);
            let _ = volumes.remove(i);
            self.volumes = volumes;
        }
        Ok(())
    }

    /// The volumes of a user in a tenant, those that are deleted left out.
    pub fn find_by_owner(&self, tenant_id: &TenantId, owner_user_id: &str) -> (r: Result<
        Vec<Volume>,
        RepositoryError,
    >)
        ensures
            r is Ok,
            r->Ok_0@ == selected(self@, of_user(tenant_id@, owner_user_id@)),
    {
        Ok(
            self.select(
                |v: &Volume| -> (b: bool)
                    ensures
                        b == of_user(tenant_id@, owner_user_id@)(*v)
                    {
                        v.tenant_id.same(tenant_id) && v.status != VolumeStatus::Deleted
                            && Self::is_owner(&v.ownership, owner_user_id)
                    },
                Ghost(of_user(tenant_id@, owner_user_id@)),
            ),
        )
    }

    fn is_owner(ownership: &VolumeOwnership, user: &str) -> (r: bool)
        ensures
            r == (ownership@ == (volume::OwnerView::Persistent { owner: user@ })),
    {
        match ownership {
            VolumeOwnership::Persistent { owner } => same_text(owner.as_str(), user),
            _ => false,
        }
    }

    /// How many volumes a user has in a tenant.
    pub fn count_by_owner(&self, tenant_id: &TenantId, owner_user_id: &str) -> (r: Result<
        u32,
        RepositoryError,
    >)
        ensures
            r is Ok,
            r->Ok_0 == selected(self@, of_user(tenant_id@, owner_user_id@)).len() as u32,
    {
        match self.find_by_owner(tenant_id, owner_user_id) {
            Ok(found) => {
                let n: usize = found.len();
                Ok(n as u32)
            },
            Err(e) => Err(e),
        }
    }

    /// What the volumes of a user in a tenant may hold together.
    pub fn sum_allocated_size_by_owner(&self, tenant_id: &TenantId, owner_user_id: &str) -> (r:
        Result<u64, RepositoryError>)
        requires
            total_size(selected(self@, of_user(tenant_id@, owner_user_id@))) <= u64::MAX,
        ensures
            r is Ok,
            r->Ok_0 == total_size(selected(self@, of_user(tenant_id@, owner_user_id@))),
    {
        let found = match self.find_by_owner(tenant_id, owner_user_id) {
            Ok(found) => found,
            Err(e) => return Err(e),
        };
        let mut sum: u64 = 0;
        let mut i: usize = 0;
        assert(found@.take(0) =~= Seq::<Volume>::empty());
        while i < found.len()
            invariant
                i <= found@.len(),
                sum == total_size(found@.take(i as int)),
                total_size(found@) <= u64::MAX,
            decreases found.len() - i,
        {
            proof {
                let taken = found@.take(i as int + 1);
                assert(taken.drop_last() =~= found@.take(i as int));
                lemma_prefix_is_smaller(found@, i as int + 1);
            }
            sum = sum + found[i].size_limit_bytes;
            i = i + 1;
        }
        assert(found@.take(i as int) =~= found@);
        Ok(sum)
    }
}

/// Some of the volumes hold no more than all of them.
proof fn lemma_prefix_is_smaller(s: Seq<Volume>, n: int)
    requires
        0 <= n <= s.len(),
    ensures
        total_size(s.take(n)) <= total_size(s),
    decreases s.len(),
{
    if n < s.len() {
        assert(s.drop_last().take(n) =~= s.take(n));
        lemma_prefix_is_smaller(s.drop_last(), n);
    } else {
        assert(s.take(n) =~= s);
    }
}

impl Default for InMemoryVolumeRepository {
    fn default() -> (r: Self)
        ensures
            r@ == Seq::<Volume>::empty(),
    {
        InMemoryVolumeRepository::new()
    }
}

/// Each list of volumes holds exactly the volumes that it is asked for, in the
/// order in which they are kept. A volume that never runs out is not expired,
/// nor is one that runs out at the very moment; a deleted volume is no user's.
pub proof fn lists_hold_what_is_asked_for(
    s: Seq<Volume>,
    tenant: Seq<char>,
    user: Seq<char>,
    owner: VolumeOwnership,
    now: Timestamp,
)
    ensures
        selected(s, of_tenant(tenant)) == s.filter(|v: Volume| v.tenant_id@ == tenant),
        selected(s, expired(now)) == s.filter(
            |v: Volume|
                v.expires_at is Some && (v.expires_at->0.seconds < now.seconds || (
                v.expires_at->0.seconds == now.seconds && v.expires_at->0.nanos < now.nanos)),
        ),
        selected(s, owned(owner@)) == s.filter(
            |v: Volume|
                (owner is Execution && v.ownership is Execution && v.ownership->execution_id
                    == owner->execution_id) || (owner is Persistent && v.ownership is Persistent
                    && v.ownership->owner@ == owner->owner@),
        ),
        selected(s, of_user(tenant, user)) == s.filter(
            |v: Volume|
                v.tenant_id@ == tenant && !(v.status is Deleted) && v.ownership is Persistent
                    && v.ownership->owner@ == user,
        ),
{
    lemma_selected_is_filter(s, of_tenant(tenant));
    lemma_selected_is_filter(s, expired(now));
    lemma_selected_is_filter(s, owned(owner@));
    lemma_selected_is_filter(s, of_user(tenant, user));
    assert(of_tenant(tenant) =~= |v: Volume| v.tenant_id@ == tenant);
    assert(expired(now) =~= |v: Volume|
        v.expires_at is Some && (v.expires_at->0.seconds < now.seconds || (
        v.expires_at->0.seconds == now.seconds && v.expires_at->0.nanos < now.nanos)));
    assert(owned(owner@) =~= |v: Volume|
        (owner is Execution && v.ownership is Execution && v.ownership->execution_id
            == owner->execution_id) || (owner is Persistent && v.ownership is Persistent
            && v.ownership->owner@ == owner->owner@));
    assert(of_user(tenant, user) =~= |v: Volume|
        v.tenant_id@ == tenant && !(v.status is Deleted) && v.ownership is Persistent
            && v.ownership->owner@ == user);
}

proof fn lemma_selected_is_filter(s: Seq<Volume>, keep: spec_fn(Volume) -> bool)
    ensures
        selected(s, keep) == s.filter(keep),
    decreases s.len(),
{
    reveal(Seq::filter);
    if s.len() > 0 {
        lemma_selected_is_filter(s.drop_last(), keep);
    } else {
        assert(s.filter(keep) =~= s);
    }
}

/// What volumes may hold together grows with each volume by what it may hold,
/// in whatever order they are added up.
pub proof fn sizes_add_up(a: Seq<Volume>, b: Seq<Volume>, v: Volume)
    ensures
        total_size(Seq::<Volume>::empty()) == 0,
        total_size(seq![v]) == v.size_limit_bytes,
        total_size(a + b) == total_size(a) + total_size(b),
    decreases b.len(),
{
    assert(seq![v].drop_last() =~= Seq::<Volume>::empty());
    assert(total_size(seq![v].drop_last()) == 0);
    if b.len() > 0 {
        sizes_add_up(a, b.drop_last(), v);
        assert((a + b).drop_last() =~= a + b.drop_last());
        assert((a + b).last() == b.last());
    } else {
        assert(a + b =~= a);
    }
}

/// Saving and deleting touch the volume of that identifier and leave the others
/// in their places.
pub proof fn other_volumes_keep_their_places(s: Seq<Volume>, v: Volume, i: int)
    requires
        distinct(s),
        0 <= i < s.len(),
    ensures
        s[i].id == v.id ==> saved(s, v) == s.update(i, v) && deleted(s, v.id) == s.remove(i)
            && lookup(s, v.id) == Some(s[i]),
        s[i].id != v.id ==> saved(s, v)[i] == s[i],
        (forall|j: int| 0 <= j < s.len() ==> (#[trigger] s[j]).id != v.id) ==> saved(s, v)
            == s.push(v) && deleted(s, v.id) == s && lookup(s, v.id) is None,
{
    if s[i].id == v.id {
        assert(holds(s, v.id));
        assert(place(s, v.id) == i);
    }
}

} // verus!

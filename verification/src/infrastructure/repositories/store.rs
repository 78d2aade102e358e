//! Values kept by tenant and identifier.

use vstd::prelude::*;
use crate::domain::shared_kernel::TenantId;
use crate::support::sorting;
use crate::support::stored::Keyed;

verus! {

/// A value with the tenant and the identifier that it is kept under.
pub struct Row<E> {
    pub tenant: TenantId,
    pub id: u128,
    pub value: E,
}

/// The contents of a [`Row`].
pub ghost struct RowView<V> {
    pub tenant: Seq<char>,
    pub id: u128,
    pub value: V,
}

impl<E: View> View for Row<E> {
    type V = RowView<E::V>;

    open spec fn view(&self) -> RowView<E::V> {
        RowView { tenant: self.tenant@, id: self.id, value: self.value@ }
    }
}

/// Whether a row is kept under the given tenant and identifier.
pub open spec fn is_under<V>(row: RowView<V>, tenant: Seq<char>, id: u128) -> bool {
    row.tenant == tenant && row.id == id
}

/// Whether some row is kept under the given tenant and identifier.
pub open spec fn holds<V>(rows: Seq<RowView<V>>, tenant: Seq<char>, id: u128) -> bool {
    exists|i: int| 0 <= i < rows.len() && is_under(#[trigger] rows[i], tenant, id)
}

/// Where the row under the given tenant and identifier stands.
pub open spec fn place<V>(rows: Seq<RowView<V>>, tenant: Seq<char>, id: u128) -> int {
    choose|i: int| 0 <= i < rows.len() && is_under(#[trigger] rows[i], tenant, id)
}

/// The value under the given tenant and identifier.
pub open spec fn lookup<V>(rows: Seq<RowView<V>>, tenant: Seq<char>, id: u128) -> Option<V> {
    if holds(rows, tenant, id) {
        Some(rows[place(rows, tenant, id)].value)
    } else {
        None
    }
}

/// Whether no two rows are kept under the same tenant and identifier.
pub open spec fn distinct<V>(rows: Seq<RowView<V>>) -> bool {
    forall|i: int, j: int|
        0 <= i < rows.len() && 0 <= j < rows.len() && (#[trigger] rows[i]).tenant == (
        #[trigger] rows[j]).tenant && rows[i].id == rows[j].id ==> i == j
}

/// Whether every value is kept under its own identifier.
pub open spec fn keyed<E: Keyed>(rows: Seq<RowView<E::V>>) -> bool {
    forall|i: int| 0 <= i < rows.len() ==> (#[trigger] rows[i]).id == E::key_of(rows[i].value)
}

/// The rows with `value` under the given tenant and identifier: in the place of
/// the one that was there, or behind all others.
pub open spec fn saved<V>(
    rows: Seq<RowView<V>>,
    tenant: Seq<char>,
    id: u128,
    value: V,
) -> Seq<RowView<V>> {
    if holds(rows, tenant, id) {
        rows.update(place(rows, tenant, id), RowView { tenant, id, value })
    } else {
        rows.push(RowView { tenant, id, value })
    }
}

/// The rows without the one under the given tenant and identifier.
pub open spec fn deleted<V>(rows: Seq<RowView<V>>, tenant: Seq<char>, id: u128) -> Seq<RowView<V>> {
    if holds(rows, tenant, id) {
        rows.remove(place(rows, tenant, id))
    } else {
        rows
    }
}

/// The values of the rows that `keep` accepts, in order.
pub open spec fn selected<V>(rows: Seq<RowView<V>>, keep: spec_fn(RowView<V>) -> bool) -> Seq<V>
    decreases rows.len(),
{
    if rows.len() == 0 {
        Seq::empty()
    } else {
        let before = selected(rows.drop_last(), keep);
        if keep(rows.last()) {
            before.push(rows.last().value)
        } else {
            before
        }
    }
}

/// The first row with the given identifier, whatever its tenant.
pub open spec fn first_with_id<V>(rows: Seq<RowView<V>>, id: u128) -> Option<int>
    decreases rows.len(),
{
    if rows.len() == 0 {
        None
    } else {
        match first_with_id(rows.drop_last(), id) {
            Some(i) => Some(i),
            None => if rows.last().id == id {
                Some(rows.len() - 1)
            } else {
                None
            },
        }
    }
}

/// Where two values stand under the same tenant and identifier, they stand in
/// the same place.
pub proof fn lemma_place_is_unique<V>(
    rows: Seq<RowView<V>>,
    tenant: Seq<char>,
    id: u128,
    i: int,
)
    requires
        distinct(rows),
        0 <= i < rows.len(),
        is_under(rows[i], tenant, id),
    ensures
        holds(rows, tenant, id),
        place(rows, tenant, id) == i,
        lookup(rows, tenant, id) == Some(rows[i].value),
{
}

/// What was saved is found again; under every other tenant or identifier the
/// same is found as before.
pub proof fn saved_is_found<V>(
    rows: Seq<RowView<V>>,
    tenant: Seq<char>,
    id: u128,
    value: V,
    other_tenant: Seq<char>,
    other_id: u128,
)
    requires
        distinct(rows),
    ensures
        distinct(saved(rows, tenant, id, value)),
        lookup(saved(rows, tenant, id, value), tenant, id) == Some(value),
        other_tenant != tenant || other_id != id ==> lookup(
            saved(rows, tenant, id, value),
            other_tenant,
            other_id,
        ) == lookup(rows, other_tenant, other_id),
{
    let after = saved(rows, tenant, id, value);
    let at = if holds(rows, tenant, id) {
        place(rows, tenant, id)
    } else {
        rows.len() as int
    };
    assert(after[at] == RowView { tenant, id, value });
    assert forall|k: int| 0 <= k < rows.len() && k != at implies #[trigger] after[k]
        == rows[k] by {}
    lemma_place_is_unique(after, tenant, id, at);
    if other_tenant != tenant || other_id != id {
        if holds(rows, other_tenant, other_id) {
            let k = place(rows, other_tenant, other_id);
            assert(after[k] == rows[k]);
            lemma_place_is_unique(after, other_tenant, other_id, k);
        } else {
            assert(!holds(after, other_tenant, other_id));
        }
    }
}

/// What was deleted is not found any more; under every other tenant or
/// identifier the same is found as before.
pub proof fn deleted_is_gone<V>(
    rows: Seq<RowView<V>>,
    tenant: Seq<char>,
    id: u128,
    other_tenant: Seq<char>,
    other_id: u128,
)
    requires
        distinct(rows),
    ensures
        distinct(deleted(rows, tenant, id)),
        lookup(deleted(rows, tenant, id), tenant, id) is None,
        other_tenant != tenant || other_id != id ==> lookup(
            deleted(rows, tenant, id),
            other_tenant,
            other_id,
        ) == lookup(rows, other_tenant, other_id),
{
    let after = deleted(rows, tenant, id);
    if holds(rows, tenant, id) {
        let at = place(rows, tenant, id);
        assert forall|k: int| 0 <= k < after.len() implies #[trigger] after[k] == rows[if k < at {
            k
        } else {
            k + 1
        }] by {}
        assert(!holds(after, tenant, id));
        if other_tenant != tenant || other_id != id {
            if holds(rows, other_tenant, other_id) {
                let k = place(rows, other_tenant, other_id);
                let m = if k < at {
                    k
                } else {
                    k - 1
                };
                assert(after[m] == rows[k]);
                lemma_place_is_unique(after, other_tenant, other_id, m);
            } else {
                assert(!holds(after, other_tenant, other_id));
            }
        }
    }
}

/// Everything that is selected stands in a row that is accepted, and everything
/// that stands in such a row is selected.
pub proof fn selected_is_exact<V>(
    rows: Seq<RowView<V>>,
    keep: spec_fn(RowView<V>) -> bool,
    value: V,
)
    ensures
        selected(rows, keep).contains(value) <==> exists|i: int|
            0 <= i < rows.len() && keep(#[trigger] rows[i]) && rows[i].value == value,
    decreases rows.len(),
{
    if rows.len() > 0 {
        let rest = rows.drop_last();
        selected_is_exact(rest, keep, value);
        let before = selected(rest, keep);
        let all = selected(rows, keep);
        assert(rows[rows.len() - 1] == rows.last());
        if keep(rows.last()) {
            assert(all[before.len() as int] == rows.last().value);
        }
        if before.contains(value) {
            let j = choose|j: int| 0 <= j < before.len() && before[j] == value;
            assert(all[j] == value);
            let i = choose|i: int|
                0 <= i < rest.len() && keep(#[trigger] rest[i]) && rest[i].value == value;
            assert(rows[i] == rest[i]);
        }
        if all.contains(value) {
            let j = choose|j: int| 0 <= j < all.len() && all[j] == value;
            if j < before.len() {
                assert(before[j] == value);
            }
        }
        if exists|i: int| 0 <= i < rows.len() && keep(#[trigger] rows[i]) && rows[i].value == value {
            let i = choose|i: int|
                0 <= i < rows.len() && keep(#[trigger] rows[i]) && rows[i].value == value;
            if i < rest.len() {
                assert(rest[i] == rows[i]);
            }
        }
    }
}

/// Values by tenant and identifier.
pub struct TenantStore<E: Keyed> {
    rows: Vec<Row<E>>,
}

impl<E: Keyed> View for TenantStore<E> {
    type V = Seq<RowView<E::V>>;

    closed spec fn view(&self) -> Seq<RowView<E::V>> {
        sorting::views(self.rows@)
    }
}

impl<E: Keyed> TenantStore<E> {
    /// Whether no two values are kept under the same tenant and identifier, and
    /// each under its own.
    #[verifier::type_invariant]
    pub closed spec fn well_formed(self) -> bool {
        distinct(sorting::views(self.rows@)) && keyed::<E>(sorting::views(self.rows@))
    }

    /// What a well-formed store is.
    pub proof fn lemma_well_formed(self)
        requires
            self.well_formed(),
        ensures
            distinct(self@),
            keyed::<E>(self@),
    {
    }

    /// A store without values.
    pub fn new() -> (r: Self)
        ensures
            r@ == Seq::<RowView<E::V>>::empty(),
            distinct(r@),
            keyed::<E>(r@),
    {
        let r = TenantStore { rows: Vec::new() };
        proof {
            assert(r@ =~= Seq::<RowView<E::V>>::empty());
        }
        r
    }

    fn find(&self, tenant: &TenantId, id: u128) -> (r: Option<usize>)
        ensures
            match r {
                Some(i) => {
                    &&& i < self.rows@.len()
                    &&& holds(self@, tenant@, id)
                    &&& place(self@, tenant@, id) == i
                },
                None => !holds(self@, tenant@, id),
            },
    {
        proof {
            use_type_invariant(self);
        }
        let mut i: usize = 0;
        while i < self.rows.len()
            invariant
                i <= self.rows@.len(),
                distinct(self@),
                self@ == sorting::views(self.rows@),
                forall|j: int| 0 <= j < i ==> !is_under(#[trigger] self@[j], tenant@, id),
            decreases self.rows.len() - i,
        {
            if self.rows[i].id == id && self.rows[i].tenant.same(tenant) {
                proof {
                    assert(is_under(self@[i as int], tenant@, id));
                    lemma_place_is_unique(self@, tenant@, id, i as int);
                }
                return Some(i);
            }
            assert(!is_under(self@[i as int], tenant@, id));
            i = i + 1;
        }
        None
    }

    /// A copy of the value under the given tenant and identifier.
    pub fn get(&self, tenant: &TenantId, id: u128) -> (r: Option<E>)
        ensures
            match r {
                Some(value) => lookup(self@, tenant@, id) == Some(value@) && E::key_of(value@)
                    == id,
                None => lookup(self@, tenant@, id) is None,
            },
    {
        proof {
            use_type_invariant(self);
        }
        match self.find(tenant, id) {
            Some(i) => Some(self.rows[i].value.duplicate()),
            None => None,
        }
    }

    /// Keeps `value` under the given tenant and its own identifier.
    pub fn save(&mut self, tenant: &TenantId, value: E)
        ensures
            final(self)@ == saved(old(self)@, tenant@, E::key_of(value@), value@),
            lookup(final(self)@, tenant@, E::key_of(value@)) == Some(value@),
            distinct(final(self)@),
            keyed::<E>(final(self)@),
    {
        let id: u128 = value.key();
        let at = self.find(tenant, id);
        proof {
            use_type_invariant(&*self);
            saved_is_found(self@, tenant@, id, value@, tenant@, id);
        }
        let ghost before = self@;
        let row = Row { tenant: tenant.copy(), id, value };
        let mut rows: Vec<Row<E>> = Vec::new();
        std::mem::swap(&mut rows, &mut self.rows);
        match at {
            Some(i) => {
                rows[i] = row;
            },
            None => {
                rows.push(row);
            },
        }
        proof {
            assert(sorting::views(rows@) =~= saved(before, tenant@, id, value@));
        }
        self.rows = rows;
    }

    /// Drops what is kept under the given tenant and identifier.
    pub fn delete(&mut self, tenant: &TenantId, id: u128)
        ensures
            final(self)@ == deleted(old(self)@, tenant@, id),
            lookup(final(self)@, tenant@, id) is None,
            distinct(final(self)@),
            keyed::<E>(final(self)@),
    {
        let at = self.find(tenant, id);
        proof {
            use_type_invariant(&*self);
            deleted_is_gone(self@, tenant@, id, tenant@, id);
        }
        if let Some(i) = at {
            let ghost before = self@;
            let mut rows: Vec<Row<E>> = Vec::new();
            std::mem::swap(&mut rows, &mut self.rows);
            let _ = rows.remove(i);
            proof {
                assert(sorting::views(rows@) =~= deleted(before, tenant@, id));
            }
            self.rows = rows;
        }
    }

    /// Copies of the values of the rows that are accepted.
    pub(crate) fn select<F: Fn(&Row<E>) -> bool>(
        &self,
        accepts: F,
        Ghost(keep): Ghost<spec_fn(RowView<E::V>) -> bool>,
    ) -> (r: Vec<E>)
        requires
            forall|row: &Row<E>| #[trigger] accepts.requires((row,)),
            forall|row: &Row<E>, b: bool|
                #[trigger] accepts.ensures((row,), b) ==> b == keep(row@),
        ensures
            sorting::views(r@) == selected(self@, keep),
    {
        let mut r: Vec<E> = Vec::new();
        let mut i: usize = 0;
        assert(sorting::views(r@) =~= selected(self@.take(0), keep));
        while i < self.rows.len()
            invariant
                i <= self.rows@.len(),
                self@ == sorting::views(self.rows@),
                forall|row: &Row<E>| #[trigger] accepts.requires((row,)),
                forall|row: &Row<E>, b: bool|
                    #[trigger] accepts.ensures((row,), b) ==> b == keep(row@),
                sorting::views(r@) == selected(self@.take(i as int), keep),
            decreases self.rows.len() - i,
        {
            let ghost taken = self@.take(i as int + 1);
            let ghost before = sorting::views(r@);
            proof {
                assert(taken.drop_last() =~= self@.take(i as int));
                assert(taken.last() == self.rows@[i as int]@);
            }
            if accepts(&self.rows[i]) {
                r.push(self.rows[i].value.duplicate());
                proof {
                    assert(sorting::views(r@) =~= before.push(taken.last().value));
                }
            }
            i = i + 1;
        }
        assert(self@.take(i as int) =~= self@);
        r
    }

    /// How many rows are accepted.
    pub(crate) fn count<F: Fn(&Row<E>) -> bool>(
        &self,
        accepts: F,
        Ghost(keep): Ghost<spec_fn(RowView<E::V>) -> bool>,
    ) -> (r: usize)
        requires
            forall|row: &Row<E>| #[trigger] accepts.requires((row,)),
            forall|row: &Row<E>, b: bool|
                #[trigger] accepts.ensures((row,), b) ==> b == keep(row@),
        ensures
            r == selected(self@, keep).len(),
            r <= self@.len(),
    {
        let mut r: usize = 0;
        let mut i: usize = 0;
        while i < self.rows.len()
            invariant
                i <= self.rows@.len(),
                self@ == sorting::views(self.rows@),
                forall|row: &Row<E>| #[trigger] accepts.requires((row,)),
                forall|row: &Row<E>, b: bool|
                    #[trigger] accepts.ensures((row,), b) ==> b == keep(row@),
                r == selected(self@.take(i as int), keep).len(),
                r <= i,
            decreases self.rows.len() - i,
        {
            let ghost taken = self@.take(i as int + 1);
            proof {
                assert(taken.drop_last() =~= self@.take(i as int));
                assert(taken.last() == self.rows@[i as int]@);
            }
            if accepts(&self.rows[i]) {
                r = r + 1;
            }
            i = i + 1;
        }
        assert(self@.take(i as int) =~= self@);
        r
    }

    /// A copy of the first row with the given identifier, whatever its tenant.
    pub fn first(&self, id: u128) -> (r: Option<(TenantId, E)>)
        ensures
            match r {
                Some(found) => first_with_id(self@, id) matches Some(i) && 0 <= i < self@.len()
                    && found.0@ == self@[i].tenant && found.1@ == self@[i].value && self@[i].id
                    == id && E::key_of(found.1@) == id,
                None => first_with_id(self@, id) is None,
            },
    {
        proof {
            use_type_invariant(self);
        }
        let mut i: usize = 0;
        while i < self.rows.len()
            invariant
                i <= self.rows@.len(),
                self@ == sorting::views(self.rows@),
                keyed::<E>(self@),
                first_with_id(self@.take(i as int), id) is None,
            decreases self.rows.len() - i,
        {
            let ghost taken = self@.take(i as int + 1);
            proof {
                assert(taken.drop_last() =~= self@.take(i as int));
                assert(taken.last() == self.rows@[i as int]@);
            }
            if self.rows[i].id == id {
                proof {
                    assert(self@[i as int].id == id);
                    lemma_first_is_stable(self@, id, i as int + 1);
                }
                return Some((self.rows[i].tenant.copy(), self.rows[i].value.duplicate()));
            }
            i = i + 1;
        }
        assert(self@.take(i as int) =~= self@);
        None
    }
}

/// Rows behind the first one with an identifier do not change which is first.
proof fn lemma_first_is_stable<V>(rows: Seq<RowView<V>>, id: u128, n: int)
    requires
        0 <= n <= rows.len(),
        first_with_id(rows.take(n), id) is Some,
    ensures
        first_with_id(rows, id) == first_with_id(rows.take(n), id),
    decreases rows.len(),
{
    if n < rows.len() {
        let rest = rows.drop_last();
        assert(rest.take(n) =~= rows.take(n));
        lemma_first_is_stable(rest, id, n);
    } else {
        assert(rows.take(n) =~= rows);
    }
}

/// The values of the rows of which `p` holds, in the order of the rows.
pub open spec fn values_where<V>(rows: Seq<RowView<V>>, p: spec_fn(RowView<V>) -> bool) -> Seq<V> {
    rows.filter(p).map_values(|row: RowView<V>| row.value)
}

/// A selection leaves out the rows that are not accepted and nothing else, and
/// keeps the order of the rest.
pub proof fn selections_keep_order<V>(rows: Seq<RowView<V>>, keep: spec_fn(RowView<V>) -> bool)
    ensures
        selected(rows, keep) == values_where(rows, keep),
    decreases rows.len(),
{
    reveal(Seq::filter);
    let value = |row: RowView<V>| row.value;
    if rows.len() > 0 {
        selections_keep_order(rows.drop_last(), keep);
        let before = rows.drop_last().filter(keep);
        if keep(rows.last()) {
            assert(rows.filter(keep) == before.push(rows.last()));
            assert(before.push(rows.last()).map_values(value) =~= before.map_values(value).push(
                rows.last().value,
            ));
        } else {
            assert(rows.filter(keep) == before);
        }
    } else {
        assert(rows.filter(keep).map_values(value) =~= Seq::<V>::empty());
    }
}

/// A selection begins with the first row that is accepted, and is empty exactly
/// where none is.
pub proof fn selections_begin_with_the_first<V>(
    rows: Seq<RowView<V>>,
    keep: spec_fn(RowView<V>) -> bool,
)
    ensures
        selected(rows, keep).len() == 0 <==> forall|i: int|
            0 <= i < rows.len() ==> !keep(#[trigger] rows[i]),
        selected(rows, keep).len() > 0 ==> exists|i: int|
            0 <= i < rows.len() && keep(#[trigger] rows[i]) && rows[i].value == selected(
                rows,
                keep,
            )[0] && forall|j: int| 0 <= j < i ==> !keep(#[trigger] rows[j]),
    decreases rows.len(),
{
    if rows.len() > 0 {
        let rest = rows.drop_last();
        selections_begin_with_the_first(rest, keep);
        let before = selected(rest, keep);
        assert(rows[rows.len() - 1] == rows.last());
        assert forall|i: int| 0 <= i < rest.len() implies #[trigger] rest[i] == rows[i] by {}
        if before.len() > 0 {
            let i = choose|i: int|
                0 <= i < rest.len() && keep(#[trigger] rest[i]) && rest[i].value == before[0]
                    && forall|j: int| 0 <= j < i ==> !keep(#[trigger] rest[j]);
            assert(rows[i] == rest[i]);
            assert forall|j: int| 0 <= j < i implies !keep(#[trigger] rows[j]) by {
                assert(rest[j] == rows[j]);
            }
            assert(selected(rows, keep)[0] == before[0]);
        } else {
            assert forall|j: int| 0 <= j < rest.len() implies !keep(#[trigger] rows[j]) by {
                assert(rest[j] == rows[j]);
            }
            if keep(rows.last()) {
                assert(selected(rows, keep)[0] == rows[rows.len() - 1].value);
            }
        }
    }
}

/// The first row with an identifier has it, no row in front of it has, and
/// there is one wherever some row has it.
pub proof fn first_with_id_is_the_first<V>(rows: Seq<RowView<V>>, id: u128)
    ensures
        match first_with_id(rows, id) {
            Some(i) => 0 <= i < rows.len() && rows[i].id == id && forall|j: int|
                0 <= j < i ==> (#[trigger] rows[j]).id != id,
            None => forall|j: int| 0 <= j < rows.len() ==> (#[trigger] rows[j]).id != id,
        },
    decreases rows.len(),
{
    if rows.len() > 0 {
        let rest = rows.drop_last();
        first_with_id_is_the_first(rest, id);
        assert forall|j: int| 0 <= j < rest.len() implies #[trigger] rows[j] == rest[j] by {}
    }
}

/// Saving changes at most one row: the one under the same tenant and
/// identifier, in its place, or else one more at the end.
pub proof fn saving_keeps_the_other_rows<V>(
    rows: Seq<RowView<V>>,
    tenant: Seq<char>,
    id: u128,
    value: V,
    i: int,
)
    requires
        distinct(rows),
        0 <= i < rows.len(),
    ensures
        rows[i].tenant == tenant && rows[i].id == id ==> saved(rows, tenant, id, value)
            == rows.update(i, RowView { tenant, id, value }),
        rows[i].tenant != tenant || rows[i].id != id ==> saved(rows, tenant, id, value)[i]
            == rows[i],
        (forall|j: int|
            0 <= j < rows.len() ==> (#[trigger] rows[j]).tenant != tenant || rows[j].id != id)
            ==> saved(rows, tenant, id, value) == rows.push(RowView { tenant, id, value }),
{
    if rows[i].tenant == tenant && rows[i].id == id {
        lemma_place_is_unique(rows, tenant, id, i);
    }
}

/// Deleting takes away at most one row, the one under that tenant and
/// identifier, and the others keep their order.
pub proof fn deleting_keeps_the_other_rows<V>(
    rows: Seq<RowView<V>>,
    tenant: Seq<char>,
    id: u128,
    i: int,
)
    requires
        distinct(rows),
    ensures
        0 <= i < rows.len() && rows[i].tenant == tenant && rows[i].id == id ==> deleted(
            rows,
            tenant,
            id,
        ) == rows.remove(i),
        (forall|j: int|
            0 <= j < rows.len() ==> (#[trigger] rows[j]).tenant != tenant || rows[j].id != id)
            ==> deleted(rows, tenant, id) == rows,
{
    if 0 <= i < rows.len() && rows[i].tenant == tenant && rows[i].id == id {
        lemma_place_is_unique(rows, tenant, id, i);
    }
}

/// What is found under a tenant and an identifier is the value of the row under
/// them, and nothing is found exactly where there is no such row.
pub proof fn lookups_find_their_row<V>(
    rows: Seq<RowView<V>>,
    tenant: Seq<char>,
    id: u128,
    i: int,
)
    requires
        distinct(rows),
    ensures
        0 <= i < rows.len() && rows[i].tenant == tenant && rows[i].id == id ==> lookup(
            rows,
            tenant,
            id,
        ) == Some(rows[i].value),
        lookup(rows, tenant, id) is None <==> forall|j: int|
            0 <= j < rows.len() ==> (#[trigger] rows[j]).tenant != tenant || rows[j].id != id,
{
    if 0 <= i < rows.len() && rows[i].tenant == tenant && rows[i].id == id {
        lemma_place_is_unique(rows, tenant, id, i);
    }
    if holds(rows, tenant, id) {
        let k = place(rows, tenant, id);
        assert(is_under(rows[k], tenant, id));
    }
    if exists|j: int|
        0 <= j < rows.len() && (#[trigger] rows[j]).tenant == tenant && rows[j].id == id {
        let j = choose|j: int|
            0 <= j < rows.len() && (#[trigger] rows[j]).tenant == tenant && rows[j].id == id;
        assert(is_under(rows[j], tenant, id));
    }
}

/// The contents of a row are the tenant, the identifier and the value that it
/// was made of.
pub proof fn contents_are_the_parts<E: View>(row: Row<E>)
    ensures
        row@.tenant == row.tenant@,
        row@.id == row.id,
        row@.value == row.value@,
{
}

} // verus!

//! Storage events in memory.

use vstd::prelude::*;
use crate::domain::events::StorageEvent;
use crate::domain::repository::RepositoryError;
use crate::domain::shared_kernel::{ExecutionId, VolumeId};
use crate::support::sorting;
use crate::support::stored::Stored;

verus! {

/// The audit trail of storage events, in the order in which they came.
pub struct InMemoryStorageEventRepository {
    pub events: Vec<StorageEvent>,
}

/// The first `limit` of `s`, or all of it where there is no limit.
pub open spec fn limited(s: Seq<StorageEvent>, limit: Option<usize>) -> Seq<StorageEvent> {
    match limit {
        Some(n) => if n < s.len() {
            s.take(n as int)
        } else {
            s
        },
        None => s,
    }
}

/// The events that `keep` accepts, in order.
pub open spec fn matching(s: Seq<StorageEvent>, keep: spec_fn(StorageEvent) -> bool) -> Seq<
    StorageEvent,
>
    decreases s.len(),
{
    if s.len() == 0 {
        s
    } else {
        let before = matching(s.drop_last(), keep);
        if keep(s.last()) {
            before.push(s.last())
        } else {
            before
        }
    }
}

/// Events of an execution.
pub open spec fn of_execution(id: ExecutionId) -> spec_fn(StorageEvent) -> bool {
    |e: StorageEvent| e.execution() == Some(id)
}

/// Events on a volume.
pub open spec fn on_volume(id: VolumeId) -> spec_fn(StorageEvent) -> bool {
    |e: StorageEvent| e.volume() == Some(id)
}

/// Violations, of one execution where one is given.
pub open spec fn violations(id: Option<ExecutionId>) -> spec_fn(StorageEvent) -> bool {
    |e: StorageEvent| e.violation() && (id is Some ==> e.execution() == id)
}

/// An event is among those that match exactly where it was saved and is
/// accepted.
pub proof fn matching_is_exact(
    s: Seq<StorageEvent>,
    keep: spec_fn(StorageEvent) -> bool,
    event: StorageEvent,
)
    ensures
        matching(s, keep).contains(event) <==> s.contains(event) && keep(event),
    decreases s.len(),
{
    if s.len() > 0 {
        let rest = s.drop_last();
        matching_is_exact(rest, keep, event);
        let before = matching(rest, keep);
        let all = matching(s, keep);
        assert(s[s.len() - 1] == s.last());
        if keep(s.last()) {
            assert(all[before.len() as int] == s.last());
        }
        if before.contains(event) {
            let j = choose|j: int| 0 <= j < before.len() && before[j] == event;
            assert(all[j] == event);
        }
        if all.contains(event) {
            let j = choose|j: int| 0 <= j < all.len() && all[j] == event;
            if j < before.len() {
                assert(before[j] == event);
            }
        }
        if s.contains(event) {
            let j = choose|j: int| 0 <= j < s.len() && s[j] == event;
            if j < rest.len() {
                assert(rest[j] == event);
            }
        }
        if rest.contains(event) {
            let j = choose|j: int| 0 <= j < rest.len() && rest[j] == event;
            assert(s[j] == event);
        }
    }
}

/// Whether the first of two events happened later.
pub open spec fn newest_first() -> spec_fn(StorageEvent, StorageEvent) -> bool {
    |a: StorageEvent, b: StorageEvent| b.time().order() < a.time().order()
}

/// The events of an execution come from the latest to the earliest, and with a
/// limit none is left out for an earlier one.
pub proof fn trails_are_newest_first(
    s: Seq<StorageEvent>,
    keep: spec_fn(StorageEvent) -> bool,
    limit: Option<usize>,
    i: int,
    j: int,
)
    requires
        0 <= i < limited(sorting::ordered(matching(s, keep), newest_first()), limit).len(),
        i < j < matching(s, keep).len(),
    ensures
        ({
            let all = sorting::ordered(matching(s, keep), newest_first());
            let listed = limited(all, limit);
            &&& all.len() == matching(s, keep).len()
            &&& all.to_multiset() == matching(s, keep).to_multiset()
            &&& listed[i].time().order() >= all[j].time().order()
        }),
{
    let found = matching(s, keep);
    let all = sorting::ordered(found, newest_first());
    sorting::ordered_sorts(found, newest_first());
    assert(!newest_first()(all[j], all[i]));
}

impl InMemoryStorageEventRepository {
    /// A trail without events.
    pub fn new() -> (r: Self)
        ensures
            r.events@ == Seq::<StorageEvent>::empty(),
    {
        InMemoryStorageEventRepository { events: Vec::new() }
    }

    /// Adds a copy of `event` to the trail.
    pub fn save(&mut self, event: &StorageEvent) -> (r: Result<(), RepositoryError>)
        ensures
            r is Ok,
            final(self).events@ == old(self).events@.push(*event),
    {
        self.events.push(event.duplicate());
        Ok(())
    }

    fn select<F: Fn(&StorageEvent) -> bool>(
        &self,
        accepts: F,
        Ghost(keep): Ghost<spec_fn(StorageEvent) -> bool>,
    ) -> (r: Vec<StorageEvent>)
        requires
            forall|e: &StorageEvent| #[trigger] accepts.requires((e,)),
            forall|e: &StorageEvent, b: bool|
                #[trigger] accepts.ensures((e,), b) ==> b == keep(*e),
        ensures
            r@ == matching(self.events@, keep),
    {
        let mut r: Vec<StorageEvent> = Vec::new();
        let mut i: usize = 0;
        assert(r@ =~= matching(self.events@.take(0), keep));
        while i < self.events.len()
            invariant
                i <= self.events@.len(),
                forall|e: &StorageEvent| #[trigger] accepts.requires((e,)),
                forall|e: &StorageEvent, b: bool|
                    #[trigger] accepts.ensures((e,), b) ==> b == keep(*e),
                r@ == matching(self.events@.take(i as int), keep),
            decreases self.events.len() - i,
        {
            proof {
                let taken = self.events@.take(i as int + 1);
                assert(taken.drop_last() =~= self.events@.take(i as int));
                assert(taken.last() == self.events@[i as int]);
            }
            if accepts(&self.events[i]) {
                r.push(self.events[i].duplicate());
            }
            i = i + 1;
        }
        assert(self.events@.take(i as int) =~= self.events@);
        r
    }

    fn limit_to(events: Vec<StorageEvent>, limit: Option<usize>) -> (r: Vec<StorageEvent>)
        ensures
            r@ == limited(events@, limit),
    {
        let mut r = events;
        if let Some(n) = limit {
            r.truncate(n);
        }
        proof {
            assert(r@ =~= limited(events@, limit));
        }
        r
    }

    fn sort_newest_first(events: Vec<StorageEvent>) -> (r: Vec<StorageEvent>)
        ensures
            r@ == sorting::ordered(events@, newest_first()),
    {
        let r = sorting::sort(
            events,
            |a: &StorageEvent, b: &StorageEvent| -> (x: bool)
                ensures
                    x == newest_first()(a@, b@)
                { b.happened_at().before(&a.happened_at()) },
            Ghost(newest_first()),
        );
        proof {
            assert(sorting::views(events@) =~= events@);
            assert(sorting::views(r@) =~= r@);
        }
        r
    }

    /// The events of an execution, from the latest to the earliest.
    pub fn find_by_execution(&self, execution_id: ExecutionId, limit: Option<usize>) -> (r: Result<
        Vec<StorageEvent>,
        RepositoryError,
    >)
        ensures
            r is Ok,
            r->Ok_0@ == limited(
                sorting::ordered(
                    matching(self.events@, of_execution(execution_id)),
                    newest_first(),
                ),
                limit,
            ),
    {
        let found = self.select(
            |e: &StorageEvent| -> (b: bool)
                ensures
                    b == of_execution(execution_id)(*e)
                { Self::is_of(e, execution_id) },
            Ghost(of_execution(execution_id)),
        );
        Ok(Self::limit_to(Self::sort_newest_first(found), limit))
    }

    fn is_of(event: &StorageEvent, execution_id: ExecutionId) -> (r: bool)
        ensures
            r == (event.execution() == Some(execution_id)),
    {
        match event.execution_id() {
            Some(id) => id == execution_id,
            None => false,
        }
    }

    /// The events on a volume, in the order in which they came.
    pub fn find_by_volume(&self, volume_id: VolumeId, limit: Option<usize>) -> (r: Result<
        Vec<StorageEvent>,
        RepositoryError,
    >)
        ensures
            r is Ok,
            r->Ok_0@ == limited(matching(self.events@, on_volume(volume_id)), limit),
    {
        let found = self.select(
            |e: &StorageEvent| -> (b: bool)
                ensures
                    b == on_volume(volume_id)(*e)
                {
                    match e.volume_id() {
                        Some(id) => id == volume_id,
                        None => false,
                    }
                },
            Ghost(on_volume(volume_id)),
        );
        Ok(Self::limit_to(found, limit))
    }

    /// The violations, of one execution where one is given, in the order in which
    /// they came.
    pub fn find_violations(&self, execution_id: Option<ExecutionId>) -> (r: Result<
        Vec<StorageEvent>,
        RepositoryError,
    >)
        ensures
            r is Ok,
            r->Ok_0@ == matching(self.events@, violations(execution_id)),
    {
        Ok(
            self.select(
                |e: &StorageEvent| -> (b: bool)
                    ensures
                        b == violations(execution_id)(*e)
                    {
                        if !e.is_violation() {
                            return false;
                        }
                        match execution_id {
                            Some(id) => Self::is_of(e, id),
                            None => true,
                        }
                    },
                Ghost(violations(execution_id)),
            ),
        )
    }
}

impl Default for InMemoryStorageEventRepository {
    fn default() -> (r: Self)
        ensures
            r.events@ == Seq::<StorageEvent>::empty(),
    {
        InMemoryStorageEventRepository::new()
    }
}

/// Each list of events holds exactly those that it is asked for, in the order
/// in which they came: of an execution, on a volume, or violations, of one
/// execution or of all.
pub proof fn lists_hold_what_is_asked_for(
    s: Seq<StorageEvent>,
    execution_id: ExecutionId,
    volume_id: VolumeId,
)
    ensures
        matching(s, of_execution(execution_id)) == s.filter(
            |e: StorageEvent| e.execution() is Some && e.execution()->0 == execution_id,
        ),
        matching(s, on_volume(volume_id)) == s.filter(
            |e: StorageEvent| e.volume() is Some && e.volume()->0 == volume_id,
        ),
        matching(s, violations(None)) == s.filter(
            |e: StorageEvent|
                e is PathTraversalBlocked || e is FilesystemPolicyViolation || e is QuotaExceeded
                    || e is UnauthorizedVolumeAccess,
        ),
        matching(s, violations(Some(execution_id))) == s.filter(
            |e: StorageEvent|
                (e is PathTraversalBlocked || e is FilesystemPolicyViolation || e is QuotaExceeded
                    || e is UnauthorizedVolumeAccess) && e.execution() is Some
                    && e.execution()->0 == execution_id,
        ),
{
    lemma_matching_is_filter(s, of_execution(execution_id));
    lemma_matching_is_filter(s, on_volume(volume_id));
    lemma_matching_is_filter(s, violations(None));
    lemma_matching_is_filter(s, violations(Some(execution_id)));
    assert(of_execution(execution_id) =~= |e: StorageEvent|
        e.execution() is Some && e.execution()->0 == execution_id);
    assert(on_volume(volume_id) =~= |e: StorageEvent|
        e.volume() is Some && e.volume()->0 == volume_id);
    assert(violations(None) =~= |e: StorageEvent|
        e is PathTraversalBlocked || e is FilesystemPolicyViolation || e is QuotaExceeded
            || e is UnauthorizedVolumeAccess);
    assert(violations(Some(execution_id)) =~= |e: StorageEvent|
        (e is PathTraversalBlocked || e is FilesystemPolicyViolation || e is QuotaExceeded
            || e is UnauthorizedVolumeAccess) && e.execution() is Some && e.execution()->0
            == execution_id);
}

proof fn lemma_matching_is_filter(s: Seq<StorageEvent>, keep: spec_fn(StorageEvent) -> bool)
    ensures
        matching(s, keep) == s.filter(keep),
    decreases s.len(),
{
    reveal(Seq::filter);
    if s.len() > 0 {
        lemma_matching_is_filter(s.drop_last(), keep);
    } else {
        assert(s.filter(keep) =~= s);
    }
}

/// A limit keeps the first events and drops the rest; without one all are kept.
pub proof fn limits_keep_the_first(s: Seq<StorageEvent>, limit: Option<usize>)
    ensures
        limit is None ==> limited(s, limit) == s,
        limit is Some ==> limited(s, limit).len() <= limit->0,
        limit is Some && limited(s, limit).len() < limit->0 ==> limited(s, limit) == s,
        limited(s, limit).is_prefix_of(s),
{
    assert(limited(s, limit) =~= s.subrange(0, limited(s, limit).len() as int));
}

/// The trail of an execution runs from the latest event to the earliest: no
/// event has a later time than one that is listed before it.
pub proof fn later_events_come_first(
    s: Seq<StorageEvent>,
    keep: spec_fn(StorageEvent) -> bool,
    limit: Option<usize>,
    i: int,
    j: int,
)
    requires
        0 <= i < j < limited(sorting::ordered(matching(s, keep), newest_first()), limit).len(),
    ensures
        ({
            let listed = limited(sorting::ordered(matching(s, keep), newest_first()), limit);
            let earlier = listed[i].time();
            let later = listed[j].time();
            later.seconds < earlier.seconds || (later.seconds == earlier.seconds && later.nanos
                <= earlier.nanos)
        }),
{
    let found = matching(s, keep);
    let all = sorting::ordered(found, newest_first());
    sorting::ordered_sorts(found, newest_first());
    assert(!newest_first()(all[j], all[i]));
}

} // verus!

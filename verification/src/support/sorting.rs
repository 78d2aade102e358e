//! Stable sorting, picking the greatest, and pages.

use vstd::prelude::*;
use crate::support::text;

verus! {

/// `s`, whose order is given by `lt`, with `x` put behind everything that it
/// does not come before.
pub open spec fn insert_ordered<V>(s: Seq<V>, x: V, lt: spec_fn(V, V) -> bool) -> Seq<V>
    decreases s.len(),
{
    if s.len() > 0 && lt(x, s.last()) {
        insert_ordered(s.drop_last(), x, lt).push(s.last())
    } else {
        s.push(x)
    }
}

/// `s` in the order of `lt`; what `lt` does not tell apart keeps its order.
pub open spec fn ordered<V>(s: Seq<V>, lt: spec_fn(V, V) -> bool) -> Seq<V>
    decreases s.len(),
{
    if s.len() == 0 {
        s
    } else {
        insert_ordered(ordered(s.drop_last(), lt), s.last(), lt)
    }
}

/// Whether `lt` orders strictly: it never holds both ways, and what is not
/// after something that is not after a third is not after the third.
pub open spec fn strict_order<V>(lt: spec_fn(V, V) -> bool) -> bool {
    &&& forall|a: V, b: V| #[trigger] lt(a, b) ==> !lt(b, a)
    &&& forall|a: V, b: V, c: V| !#[trigger] lt(b, a) && !#[trigger] lt(c, b) ==> !lt(c, a)
}

/// Whether nothing in `s` comes before something that stands in front of it.
pub open spec fn in_order<V>(s: Seq<V>, lt: spec_fn(V, V) -> bool) -> bool {
    forall|i: int, j: int| 0 <= i < j < s.len() ==> !lt(#[trigger] s[j], #[trigger] s[i])
}

proof fn lemma_insert_at<V>(s: Seq<V>, x: V, lt: spec_fn(V, V) -> bool, at: int)
    requires
        0 <= at <= s.len(),
        forall|i: int| at <= i < s.len() ==> lt(x, #[trigger] s[i]),
        at > 0 ==> !lt(x, s[at - 1]),
    ensures
        insert_ordered(s, x, lt) == s.insert(at, x),
    decreases s.len(),
{
    if at < s.len() {
        let rest = s.drop_last();
        assert(lt(x, s[s.len() - 1]));
        lemma_insert_at(rest, x, lt, at);
        assert(rest.insert(at, x).push(s.last()) =~= s.insert(at, x));
    } else {
        assert(s.push(x) =~= s.insert(at, x));
    }
}

proof fn lemma_insert_keeps_order<V>(s: Seq<V>, x: V, lt: spec_fn(V, V) -> bool)
    requires
        strict_order(lt),
        in_order(s, lt),
    ensures
        in_order(insert_ordered(s, x, lt), lt),
        insert_ordered(s, x, lt).to_multiset() == s.to_multiset().insert(x),
        insert_ordered(s, x, lt).len() == s.len() + 1,
    decreases s.len(),
{
    broadcast use vstd::seq_lib::group_to_multiset_ensures;

    if s.len() > 0 && lt(x, s.last()) {
        let rest = s.drop_last();
        lemma_insert_keeps_order(rest, x, lt);
        let inner = insert_ordered(rest, x, lt);
        let all = inner.push(s.last());
        assert(s =~= rest.push(s.last()));
        assert forall|j: int| 0 <= j < inner.len() implies !lt(s.last(), #[trigger] inner[j]) by {
            assert(inner.to_multiset().count(inner[j]) > 0);
            if inner[j] != x {
                assert(rest.to_multiset().count(inner[j]) > 0);
                assert(rest.contains(inner[j]));
                let k = choose|k: int| 0 <= k < rest.len() && rest[k] == inner[j];
                assert(s[k] == inner[j]);
                assert(s[s.len() - 1] == s.last());
            }
        }
        assert(in_order(all, lt));
        assert(all.to_multiset() =~= s.to_multiset().insert(x));
    } else {
        let all = s.push(x);
        if s.len() > 0 {
            assert forall|j: int| 0 <= j < s.len() implies !lt(x, #[trigger] s[j]) by {
                if j < s.len() - 1 {
                    assert(!lt(s[s.len() - 1], s[j]));
                }
                assert(!lt(x, s.last()));
            }
        }
        assert(in_order(all, lt));
    }
}

/// Sorting by a strict order loses and adds nothing, and leaves everything in
/// order.
pub proof fn ordered_sorts<V>(s: Seq<V>, lt: spec_fn(V, V) -> bool)
    requires
        strict_order(lt),
    ensures
        in_order(ordered(s, lt), lt),
        ordered(s, lt).to_multiset() == s.to_multiset(),
        ordered(s, lt).len() == s.len(),
    decreases s.len(),
{
    broadcast use vstd::seq_lib::group_to_multiset_ensures;

    if s.len() > 0 {
        ordered_sorts(s.drop_last(), lt);
        lemma_insert_keeps_order(ordered(s.drop_last(), lt), s.last(), lt);
        assert(s =~= s.drop_last().push(s.last()));
    }
}

/// The views of the elements of `s`.
pub open spec fn views<E: View>(s: Seq<E>) -> Seq<E::V> {
    Seq::new(s.len(), |i: int| s[i]@)
}

/// The elements in the order of `lt`, which `precedes` computes.
pub(crate) fn sort<E: View, F: Fn(&E, &E) -> bool>(
    items: Vec<E>,
    precedes: F,
    Ghost(lt): Ghost<spec_fn(E::V, E::V) -> bool>,
) -> (r: Vec<E>)
    requires
        forall|a: &E, b: &E| #[trigger] precedes.requires((a, b)),
        forall|a: &E, b: &E, x: bool| #[trigger] precedes.ensures((a, b), x) ==> x == lt(a@, b@),
    ensures
        views(r@) == ordered(views(items@), lt),
{
    let ghost all = views(items@);
    let mut rest = items;
    let mut r: Vec<E> = Vec::new();
    let ghost mut done: nat = 0;
    proof {
        assert(views(r@) =~= ordered(all.take(0), lt));
    }
    while rest.len() > 0
        invariant
            forall|a: &E, b: &E| #[trigger] precedes.requires((a, b)),
            forall|a: &E, b: &E, x: bool|
                #[trigger] precedes.ensures((a, b), x) ==> x == lt(a@, b@),
            done <= all.len(),
            views(rest@) =~= all.skip(done as int),
            views(r@) == ordered(all.take(done as int), lt),
        decreases rest.len(),
    {
        let ghost before = rest@;
        let x = rest.remove(0);
        let mut at: usize = r.len();
        let mut go = true;
        while go && at > 0
            invariant
                at <= r@.len(),
                forall|a: &E, b: &E| #[trigger] precedes.requires((a, b)),
                forall|a: &E, b: &E, x: bool|
                    #[trigger] precedes.ensures((a, b), x) ==> x == lt(a@, b@),
                forall|i: int| at <= i < r@.len() ==> lt(x@, #[trigger] views(r@)[i]),
                !go ==> at > 0 && !lt(x@, views(r@)[at - 1]),
            decreases at + (if go { 1int } else { 0 }),
        {
            if precedes(&x, &r[at - 1]) {
                at = at - 1;
            } else {
                go = false;
            }
        }
        let ghost sorted = views(r@);
        let ghost xv = x@;
        proof {
            lemma_insert_at(sorted, xv, lt, at as int);
        }
        r.insert(at, x);
        proof {
            assert(views(r@) =~= sorted.insert(at as int, xv));
            assert(views(before).len() == all.skip(done as int).len());
            assert(done < all.len());
            assert(views(before)[0] == all.skip(done as int)[0]);
            assert(xv == all[done as int]);
            let taken = all.take(done as int + 1);
            assert(taken.drop_last() =~= all.take(done as int));
            assert(taken.last() == xv);
            assert(views(rest@) =~= all.skip(done as int + 1)) by {
                assert forall|i: int| 0 <= i < rest@.len() implies #[trigger] views(rest@)[i]
                    == all.skip(done as int + 1)[i] by {
                    assert(views(before)[i + 1] == all.skip(done as int)[i + 1]);
                }
            }
            done = done + 1;
        }
    }
    proof {
        assert(all.take(done as int) =~= all);
    }
    r
}

/// The greatest of `s` in the order of `lt`, the last where several are.
pub open spec fn greatest<V>(s: Seq<V>, lt: spec_fn(V, V) -> bool) -> Option<V>
    decreases s.len(),
{
    if s.len() == 0 {
        None
    } else {
        match greatest(s.drop_last(), lt) {
            None => Some(s.last()),
            Some(best) => if lt(s.last(), best) {
                Some(best)
            } else {
                Some(s.last())
            },
        }
    }
}

/// The greatest element in the order of `lt`, which `precedes` computes.
pub(crate) fn pick_greatest<E: View, F: Fn(&E, &E) -> bool>(
    items: Vec<E>,
    precedes: F,
    Ghost(lt): Ghost<spec_fn(E::V, E::V) -> bool>,
) -> (r: Option<E>)
    requires
        forall|a: &E, b: &E| #[trigger] precedes.requires((a, b)),
        forall|a: &E, b: &E, x: bool| #[trigger] precedes.ensures((a, b), x) ==> x == lt(a@, b@),
    ensures
        match r {
            Some(e) => greatest(views(items@), lt) == Some(e@),
            None => greatest(views(items@), lt) is None,
        },
{
    let ghost all = views(items@);
    let mut rest = items;
    let mut best: Option<E> = None;
    let ghost mut done: nat = 0;
    while rest.len() > 0
        invariant
            forall|a: &E, b: &E| #[trigger] precedes.requires((a, b)),
            forall|a: &E, b: &E, x: bool|
                #[trigger] precedes.ensures((a, b), x) ==> x == lt(a@, b@),
            done <= all.len(),
            views(rest@) =~= all.skip(done as int),
            match best {
                Some(e) => greatest(all.take(done as int), lt) == Some(e@),
                None => greatest(all.take(done as int), lt) is None,
            },
        decreases rest.len(),
    {
        let ghost before = rest@;
        let x = rest.remove(0);
        proof {
            assert(views(before).len() == all.skip(done as int).len());
            assert(done < all.len());
            assert(views(before)[0] == all.skip(done as int)[0]);
            assert(x@ == all[done as int]);
            let taken = all.take(done as int + 1);
            assert(taken.drop_last() =~= all.take(done as int));
            assert(taken.last() == x@);
            assert forall|i: int| 0 <= i < rest@.len() implies #[trigger] views(rest@)[i]
                == all.skip(done as int + 1)[i] by {
                assert(views(before)[i + 1] == all.skip(done as int)[i + 1]);
            }
            done = done + 1;
        }
        best = match best {
            None => Some(x),
            Some(e) => if precedes(&x, &e) {
                Some(e)
            } else {
                Some(x)
            },
        };
    }
    proof {
        assert(all.take(done as int) =~= all);
    }
    best
}

/// The greatest stands in the sequence and comes before nothing in it.
pub proof fn greatest_is_maximal<V>(s: Seq<V>, lt: spec_fn(V, V) -> bool, i: int)
    requires
        strict_order(lt),
        0 <= i < s.len(),
    ensures
        greatest(s, lt) is Some,
        s.contains(greatest(s, lt)->0),
        !lt(greatest(s, lt)->0, s[i]),
    decreases s.len(),
{
    let rest = s.drop_last();
    assert(s[s.len() - 1] == s.last());
    if rest.len() > 0 {
        if i < rest.len() {
            greatest_is_maximal(rest, lt, i);
            assert(rest[i] == s[i]);
        } else {
            greatest_is_maximal(rest, lt, 0);
        }
        let best = greatest(rest, lt)->0;
        let k = choose|k: int| 0 <= k < rest.len() && rest[k] == best;
        assert(s[k] == best);
    }
}

/// At most `limit` elements of `s`, those from `offset` on.
pub open spec fn page<V>(s: Seq<V>, offset: nat, limit: nat) -> Seq<V> {
    if offset >= s.len() {
        Seq::empty()
    } else if s.len() - offset <= limit {
        s.skip(offset as int)
    } else {
        s.subrange(offset as int, (offset + limit) as int)
    }
}

/// Two pages that follow on each other make up the page of both.
pub proof fn pages_join<V>(s: Seq<V>, offset: nat, first: nat, second: nat)
    ensures
        page(s, offset, first) + page(s, offset + first, second) == page(s, offset, first + second),
{
    assert(page(s, offset, first) + page(s, offset + first, second) =~= page(
        s,
        offset,
        first + second,
    ));
}

/// The first element, if there is one.
pub(crate) fn take_first<E: View>(items: Vec<E>) -> (r: Option<E>)
    ensures
        match r {
            Some(e) => views(items@).len() > 0 && e@ == views(items@)[0],
            None => views(items@).len() == 0,
        },
{
    let mut items = items;
    if items.len() == 0 {
        None
    } else {
        Some(items.remove(0))
    }
}

/// A page of the elements.
pub fn take_page<E: View>(items: Vec<E>, offset: usize, limit: usize) -> (r: Vec<E>)
    ensures
        views(r@) == page(views(items@), offset as nat, limit as nat),
{
    let ghost all = views(items@);
    if offset >= items.len() {
        let r: Vec<E> = Vec::new();
        proof {
            assert(views(r@) =~= page(all, offset as nat, limit as nat));
        }
        return r;
    }
    let mut items = items;
    let mut r = items.split_off(offset);
    r.truncate(limit);
    proof {
        assert(views(r@) =~= page(all, offset as nat, limit as nat));
    }
    r
}

/// Whether text `a` comes before text `b`, character by character.
pub open spec fn text_before(a: Seq<char>, b: Seq<char>) -> bool
    decreases a.len(),
{
    if b.len() == 0 {
        false
    } else if a.len() == 0 {
        true
    } else if a[0] != b[0] {
        a[0] < b[0]
    } else {
        text_before(a.drop_first(), b.drop_first())
    }
}

/// Whether text `a` comes before text `b`, character by character.
pub fn comes_before(a: &str, b: &str) -> (r: bool)
    ensures
        r == text_before(a@, b@),
{
    let x = text::chars_of(a);
    let y = text::chars_of(b);
    let mut i: usize = 0;
    assert(a@.skip(0) =~= a@);
    assert(b@.skip(0) =~= b@);
    while i < x.len() && i < y.len()
        invariant
            i <= x@.len(),
            i <= y@.len(),
            x@ == a@,
            y@ == b@,
            text_before(a@, b@) == text_before(a@.skip(i as int), b@.skip(i as int)),
        decreases x.len() - i,
    {
        if x[i] != y[i] {
            return x[i] < y[i];
        }
        proof {
            assert(a@.skip(i as int).drop_first() =~= a@.skip(i as int + 1));
            assert(b@.skip(i as int).drop_first() =~= b@.skip(i as int + 1));
        }
        i = i + 1;
    }
    i < y.len()
}

proof fn lemma_text_before_strict(a: Seq<char>, b: Seq<char>)
    requires
        text_before(a, b),
    ensures
        !text_before(b, a),
    decreases a.len(),
{
    if a.len() > 0 && b.len() > 0 && a[0] == b[0] {
        lemma_text_before_strict(a.drop_first(), b.drop_first());
    }
}

proof fn lemma_text_before_transitive(a: Seq<char>, b: Seq<char>, c: Seq<char>)
    requires
        !text_before(b, a),
        !text_before(c, b),
    ensures
        !text_before(c, a),
    decreases a.len(),
{
    if a.len() > 0 && b.len() > 0 && c.len() > 0 && a[0] == b[0] && b[0] == c[0] {
        lemma_text_before_transitive(a.drop_first(), b.drop_first(), c.drop_first());
    }
}

/// The order of texts is a strict one.
pub proof fn text_order_is_strict()
    ensures
        strict_order(|a: Seq<char>, b: Seq<char>| text_before(a, b)),
{
    let lt = |a: Seq<char>, b: Seq<char>| text_before(a, b);
    assert forall|a: Seq<char>, b: Seq<char>| #[trigger] lt(a, b) implies !lt(b, a) by {
        lemma_text_before_strict(a, b);
    }
    assert forall|a: Seq<char>, b: Seq<char>, c: Seq<char>|
        !#[trigger] lt(b, a) && !#[trigger] lt(c, b) implies !lt(c, a) by {
        lemma_text_before_transitive(a, b, c);
    }
}

/// Sorting is stable: the elements that `lt` does not tell from `x` keep the
/// order that they came in.
pub proof fn ordered_is_stable<V>(s: Seq<V>, lt: spec_fn(V, V) -> bool, x: V)
    requires
        strict_order(lt),
    ensures
        ordered(s, lt).filter(|y: V| !lt(x, y) && !lt(y, x)) == s.filter(
            |y: V| !lt(x, y) && !lt(y, x),
        ),
    decreases s.len(),
{
    reveal(Seq::filter);
    let same = |y: V| !lt(x, y) && !lt(y, x);
    if s.len() > 0 {
        ordered_is_stable(s.drop_last(), lt, x);
        lemma_insert_is_stable(ordered(s.drop_last(), lt), s.last(), lt, x);
    }
}

proof fn lemma_insert_is_stable<V>(s: Seq<V>, y: V, lt: spec_fn(V, V) -> bool, x: V)
    requires
        strict_order(lt),
    ensures
        ({
            let same = |y: V| !lt(x, y) && !lt(y, x);
            insert_ordered(s, y, lt).filter(same) == if same(y) {
                s.filter(same).push(y)
            } else {
                s.filter(same)
            }
        }),
    decreases s.len(),
{
    reveal(Seq::filter);
    let same = |y: V| !lt(x, y) && !lt(y, x);
    if s.len() > 0 && lt(y, s.last()) {
        let rest = s.drop_last();
        lemma_insert_is_stable(rest, y, lt, x);
        let inner = insert_ordered(rest, y, lt);
        assert(inner.push(s.last()).drop_last() =~= inner);
        if same(y) && same(s.last()) {
            assert(!lt(x, s.last()) && !lt(y, x));
            assert(!lt(y, s.last()));
        }
    } else {
        assert(s.push(y).drop_last() =~= s);
    }
}

/// The greatest stands somewhere with nothing before it that is greater, and
/// everything behind it is smaller: of several it is the last.
pub proof fn greatest_is_the_last_of_its_like<V>(s: Seq<V>, lt: spec_fn(V, V) -> bool)
    requires
        strict_order(lt),
    ensures
        greatest(s, lt) is None <==> s.len() == 0,
        s.len() > 0 ==> exists|k: int|
            0 <= k < s.len() && (#[trigger] s[k]) == greatest(s, lt)->0 && (forall|j: int|
                k < j < s.len() ==> lt(#[trigger] s[j], s[k])) && (forall|j: int|
                0 <= j < s.len() ==> !lt(s[k], #[trigger] s[j])),
    decreases s.len(),
{
    if s.len() > 0 {
        let rest = s.drop_last();
        greatest_is_the_last_of_its_like(rest, lt);
        assert forall|j: int| 0 <= j < s.len() implies !lt(greatest(s, lt)->0, #[trigger] s[j]) by {
            greatest_is_maximal(s, lt, j);
        }
        if rest.len() > 0 && lt(s.last(), greatest(rest, lt)->0) {
            let k = choose|k: int|
                0 <= k < rest.len() && (#[trigger] rest[k]) == greatest(rest, lt)->0 && (forall|
                    j: int,
                |
                    k < j < rest.len() ==> lt(#[trigger] rest[j], rest[k]));
            assert(s[k] == rest[k]);
            assert forall|j: int| k < j < s.len() implies lt(#[trigger] s[j], s[k]) by {
                if j < rest.len() {
                    assert(rest[j] == s[j]);
                }
            }
        } else {
            assert(s[s.len() - 1] == greatest(s, lt)->0);
        }
    }
}

/// A page holds the elements from its offset on, in their order, as many as its
/// limit lets in and as there are.
pub proof fn pages_hold_what_lies_there<V>(s: Seq<V>, offset: nat, limit: nat, i: int)
    ensures
        page(s, offset, limit).len() <= limit,
        offset + page(s, offset, limit).len() <= s.len() || page(s, offset, limit).len() == 0,
        page(s, offset, limit).len() < limit ==> offset + page(s, offset, limit).len() >= s.len(),
        0 <= i < page(s, offset, limit).len() ==> page(s, offset, limit)[i] == s[offset + i],
{
}

/// One text comes before another exactly where the first character in which
/// they differ is smaller, or where it ends and the other goes on.
pub proof fn texts_order_by_their_first_difference(a: Seq<char>, b: Seq<char>)
    ensures
        text_before(a, b) <==> exists|k: int|
            0 <= k <= a.len() && k < b.len() && #[trigger] a.take(k) == b.take(k) && (k == a.len()
                || a[k] < b[k]),
    decreases a.len(),
{
    if text_before(a, b) {
        lemma_before_differs(a, b);
    }
    if exists|k: int|
        0 <= k <= a.len() && k < b.len() && #[trigger] a.take(k) == b.take(k) && (k == a.len()
            || a[k] < b[k]) {
        let k = choose|k: int|
            0 <= k <= a.len() && k < b.len() && #[trigger] a.take(k) == b.take(k) && (k == a.len()
                || a[k] < b[k]);
        lemma_difference_decides(a, b, k);
    }
}

proof fn lemma_before_differs(a: Seq<char>, b: Seq<char>)
    requires
        text_before(a, b),
    ensures
        exists|k: int|
            0 <= k <= a.len() && k < b.len() && #[trigger] a.take(k) == b.take(k) && (k == a.len()
                || a[k] < b[k]),
    decreases a.len(),
{
    if a.len() == 0 || a[0] != b[0] {
        assert(a.take(0) =~= b.take(0));
    } else {
        let x = a.drop_first();
        let y = b.drop_first();
        lemma_before_differs(x, y);
        let k = choose|k: int|
            0 <= k <= x.len() && k < y.len() && #[trigger] x.take(k) == y.take(k) && (k == x.len()
                || x[k] < y[k]);
        assert forall|i: int| 0 <= i < k + 1 implies #[trigger] a.take(k + 1)[i] == b.take(
            k + 1,
        )[i] by {
            if i > 0 {
                assert(x.take(k)[i - 1] == a[i]);
                assert(y.take(k)[i - 1] == b[i]);
            }
        }
        assert(a.take(k + 1) =~= b.take(k + 1));
        assert(k + 1 == a.len() || a[k + 1] < b[k + 1]);
    }
}

proof fn lemma_difference_decides(a: Seq<char>, b: Seq<char>, k: int)
    requires
        0 <= k <= a.len(),
        k < b.len(),
        a.take(k) == b.take(k),
        k == a.len() || a[k] < b[k],
    ensures
        text_before(a, b),
    decreases a.len(),
{
    if k > 0 {
        assert(a.take(k)[0] == a[0]);
        assert(b.take(k)[0] == b[0]);
        let x = a.drop_first();
        let y = b.drop_first();
        assert forall|i: int| 0 <= i < k - 1 implies #[trigger] x.take(k - 1)[i] == y.take(
            k - 1,
        )[i] by {
            assert(a.take(k)[i + 1] == a[i + 1]);
            assert(b.take(k)[i + 1] == b[i + 1]);
            assert(x[i] == a[i + 1]);
            assert(y[i] == b[i + 1]);
        }
        assert(x.take(k - 1) =~= y.take(k - 1));
        lemma_difference_decides(x, y, k - 1);
    }
}

} // verus!

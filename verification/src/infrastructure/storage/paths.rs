//! Paths of files and directories.

use vstd::prelude::*;
use crate::support::text;

verus! {

/// How many characters stand before the first slash.
pub open spec fn run_length(s: Seq<char>) -> nat
    decreases s.len(),
{
    if s.len() == 0 || s[0] == '/' {
        0
    } else {
        1 + run_length(s.drop_first())
    }
}

/// What stands between the slashes of a path, nothing left out but what is
/// empty.
pub open spec fn segments(s: Seq<char>) -> Seq<Seq<char>>
    decreases s.len(),
{
    if s.len() == 0 {
        Seq::empty()
    } else if s[0] == '/' {
        segments(s.drop_first())
    } else if run_length(s) <= s.len() {
        seq![s.take(run_length(s) as int)] + segments(s.skip(run_length(s) as int))
    } else {
        Seq::empty()
    }
}

/// The path that leads through the first `n` segments.
pub open spec fn ancestor(parts: Seq<Seq<char>>, n: int) -> Seq<char>
    decreases n,
{
    if n <= 0 {
        Seq::empty()
    } else {
        ancestor(parts, n - 1) + seq!['/'] + parts[n - 1]
    }
}

/// Every directory on the way to `path`, the outermost first, itself the last.
pub open spec fn ancestors(path: Seq<char>) -> Seq<Seq<char>> {
    Seq::new(segments(path).len(), |i: int| ancestor(segments(path), i + 1))
}

/// A path without the slashes at its end.
pub open spec fn without_trailing_slashes(s: Seq<char>) -> Seq<char>
    decreases s.len(),
{
    if s.len() > 0 && s.last() == '/' {
        without_trailing_slashes(s.drop_last())
    } else {
        s
    }
}

/// What stands behind the last slash.
pub open spec fn base_name(s: Seq<char>) -> Seq<char>
    decreases s.len(),
{
    if s.len() == 0 || s.last() == '/' {
        Seq::empty()
    } else {
        base_name(s.drop_last()).push(s.last())
    }
}

/// A text with every backslash made a slash.
pub open spec fn forward_slashes(s: Seq<char>) -> Seq<char> {
    Seq::new(
        s.len(),
        |i: int|
            if s[i] == '\\' {
                '/'
            } else {
                s[i]
            },
    )
}

/// Segments hold no slash and are not empty.
pub proof fn segments_are_names(s: Seq<char>, i: int)
    requires
        0 <= i < segments(s).len(),
    ensures
        segments(s)[i].len() > 0,
        !segments(s)[i].contains('/'),
    decreases s.len(),
{
    lemma_run(s);
    if s.len() > 0 {
        if s[0] == '/' {
            segments_are_names(s.drop_first(), i);
        } else {
            let n = run_length(s) as int;
            assert(n >= 1);
            if i > 0 {
                segments_are_names(s.skip(n), i - 1);
            } else {
                let name = s.take(n);
                assert(segments(s)[0] == name);
                if name.contains('/') {
                    let k = choose|k: int| 0 <= k < name.len() && name[k] == '/';
                    assert(s[k] == '/');
                }
            }
        }
    }
}

/// Each directory on the way lies directly within the one before it.
pub proof fn ancestors_descend(path: Seq<char>, i: int)
    requires
        0 < i < ancestors(path).len(),
    ensures
        ancestors(path)[i] == ancestors(path)[i - 1] + seq!['/'] + segments(path)[i],
        ancestors(path)[0] == seq!['/'] + segments(path)[0],
{
    let parts = segments(path);
    assert(ancestor(parts, 0) =~= Seq::empty());
    assert(ancestor(parts, 1) =~= seq!['/'] + parts[0]);
}

/// The characters before the first slash: as many as there are, none a slash,
/// and a slash or the end behind them.
proof fn lemma_run(s: Seq<char>)
    ensures
        run_length(s) <= s.len(),
        forall|k: int| 0 <= k < run_length(s) ==> #[trigger] s[k] != '/',
        run_length(s) < s.len() ==> s[run_length(s) as int] == '/',
        s.len() > 0 && s[0] != '/' ==> run_length(s) > 0,
    decreases s.len(),
{
    if s.len() > 0 && s[0] != '/' {
        let rest = s.drop_first();
        lemma_run(rest);
        assert forall|k: int| 0 <= k < run_length(s) implies #[trigger] s[k] != '/' by {
            if k > 0 {
                assert(rest[k - 1] == s[k]);
            }
        }
        if run_length(s) < s.len() {
            assert(rest[run_length(rest) as int] == s[run_length(s) as int]);
        }
    }
}

/// Where a run of other characters ends at `n`, its length is `n`.
proof fn lemma_run_is(s: Seq<char>, n: int)
    requires
        0 <= n <= s.len(),
        forall|k: int| 0 <= k < n ==> #[trigger] s[k] != '/',
        n < s.len() ==> s[n] == '/',
    ensures
        run_length(s) == n,
{
    lemma_run(s);
    let m = run_length(s) as int;
    if m < n {
        assert(s[m] != '/');
    }
    if n < m {
        assert(s[n] != '/');
    }
}

/// What stands between the slashes of a path.
pub fn split_segments(path: &str) -> (r: Vec<String>)
    ensures
        text::texts(r@) == segments(path@),
{
    let chars = text::chars_of(path);
    let mut r: Vec<String> = Vec::new();
    let mut i: usize = 0;
    proof {
        assert(path@.skip(0) =~= path@);
        assert(text::texts(r@) + segments(path@) =~= segments(path@));
    }
    while i < chars.len()
        invariant
            i <= chars@.len(),
            chars@ == path@,
            segments(path@) == text::texts(r@) + segments(path@.skip(i as int)),
        decreases chars.len() - i,
    {
        let ghost rest = path@.skip(i as int);
        if chars[i] == '/' {
            proof {
                assert(rest.drop_first() =~= path@.skip(i as int + 1));
            }
            i = i + 1;
        } else {
            let mut j: usize = i;
            while j < chars.len() && chars[j] != '/'
                invariant
                    i <= j <= chars@.len(),
                    chars@ == path@,
                    forall|k: int| i <= k < j ==> #[trigger] path@[k] != '/',
                decreases chars.len() - j,
            {
                j = j + 1;
            }
            let name = path.substring_char(i, j);
            let ghost before = text::texts(r@);
            r.push(name.to_owned());
            proof {
                let n = j - i;
                assert forall|k: int| 0 <= k < n implies #[trigger] rest[k] != '/' by {
                    assert(rest[k] == path@[i + k]);
                }
                lemma_run_is(rest, n);
                assert(rest[0] == path@[i as int]);
                assert(rest.take(n) =~= name@);
                assert(rest.skip(n) =~= path@.skip(j as int));
                assert(text::texts(r@) =~= before.push(name@));
                assert(before + (seq![name@] + segments(path@.skip(j as int)))
                    =~= before.push(name@) + segments(path@.skip(j as int)));
            }
            i = j;
        }
    }
    proof {
        assert(path@.skip(i as int) =~= Seq::<char>::empty());
        assert(text::texts(r@) + Seq::<Seq<char>>::empty() =~= text::texts(r@));
    }
    r
}

/// Every directory on the way to `path`, the outermost first.
pub fn list_ancestors(path: &str) -> (r: Vec<String>)
    ensures
        text::texts(r@) == ancestors(path@),
{
    let parts = split_segments(path);
    let mut r: Vec<String> = Vec::new();
    let mut current = String::new();
    let mut i: usize = 0;
    let ghost names = segments(path@);
    proof {
        assert(current@ =~= ancestor(names, 0));
    }
    while i < parts.len()
        invariant
            i <= parts@.len(),
            names == text::texts(parts@),
            current@ == ancestor(names, i as int),
            r@.len() == i,
            forall|j: int| 0 <= j < i ==> (#[trigger] r@[j])@ == ancestor(names, j + 1),
        decreases parts.len() - i,
    {
        current.push('/');
        current = current.concat(parts[i].as_str());
        proof {
            assert(names[i as int] == parts@[i as int]@);
            assert(current@ =~= ancestor(names, i as int + 1));
        }
        r.push(current.clone());
        i = i + 1;
    }
    proof {
        assert(text::texts(r@) =~= ancestors(path@));
    }
    r
}

/// A path without the slashes at its end.
pub fn trim_trailing_slashes(path: &str) -> (r: String)
    ensures
        r@ == without_trailing_slashes(path@),
{
    let chars = text::chars_of(path);
    let mut n: usize = chars.len();
    proof {
        assert(path@.take(n as int) =~= path@);
    }
    while n > 0 && chars[n - 1] == '/'
        invariant
            n <= chars@.len(),
            chars@ == path@,
            without_trailing_slashes(path@) == without_trailing_slashes(path@.take(n as int)),
        decreases n,
    {
        proof {
            assert(path@.take(n as int).drop_last() =~= path@.take(n as int - 1));
        }
        n = n - 1;
    }
    let kept = path.substring_char(0, n);
    proof {
        assert(kept@ =~= path@.take(n as int));
    }
    kept.to_owned()
}

/// What stands behind the last slash.
pub fn last_segment(path: &str) -> (r: String)
    ensures
        r@ == base_name(path@),
{
    let chars = text::chars_of(path);
    let n: usize = chars.len();
    let mut from: usize = n;
    while from > 0 && chars[from - 1] != '/'
        invariant
            from <= n == chars@.len(),
            chars@ == path@,
            forall|k: int| from <= k < n ==> #[trigger] path@[k] != '/',
        decreases from,
    {
        from = from - 1;
    }
    proof {
        lemma_base_name(path@, from as int);
    }
    path.substring_char(from, n).to_owned()
}

proof fn lemma_base_name(s: Seq<char>, from: int)
    requires
        0 <= from <= s.len(),
        forall|k: int| from <= k < s.len() ==> #[trigger] s[k] != '/',
        from > 0 ==> s[from - 1] == '/',
    ensures
        base_name(s) == s.subrange(from, s.len() as int),
    decreases s.len(),
{
    if from < s.len() {
        lemma_base_name(s.drop_last(), from);
        assert(s.subrange(from, s.len() as int) =~= s.drop_last().subrange(
            from,
            s.len() - 1,
        ).push(s.last()));
    } else {
        assert(s.subrange(from, s.len() as int) =~= Seq::empty());
    }
}

/// A text with every backslash made a slash.
pub fn to_forward_slashes(s: &str) -> (r: String)
    ensures
        r@ == forward_slashes(s@),
{
    let chars = text::chars_of(s);
    let mut r = String::new();
    let mut i: usize = 0;
    while i < chars.len()
        invariant
            i <= chars@.len(),
            chars@ == s@,
            r@ =~= forward_slashes(s@).take(i as int),
        decreases chars.len() - i,
    {
        if chars[i] == '\\' {
            r.push('/');
        } else {
            r.push(chars[i]);
        }
        i = i + 1;
    }
    proof {
        assert(forward_slashes(s@).take(i as int) =~= forward_slashes(s@));
    }
    r
}

/// The names on a path are what it was put together from: a slash and a name
/// behind a path add that name, and only it; slashes alone add nothing; a name
/// on its own is its only one.
pub proof fn paths_take_apart_as_put_together(s: Seq<char>, name: Seq<char>)
    requires
        name.len() > 0,
        !name.contains('/'),
    ensures
        segments(s + seq!['/'] + name) == segments(s).push(name),
        segments(s.push('/')) == segments(s),
        segments(name) == seq![name],
        segments(Seq::<char>::empty()).len() == 0,
{
    lemma_single(name);
    lemma_tail(s, seq!['/']);
    lemma_tail(s, seq!['/'] + name);
    assert(s + seq!['/'] =~= s.push('/'));
    assert(s + (seq!['/'] + name) =~= s + seq!['/'] + name);
    assert(seq!['/'].drop_first() =~= Seq::<char>::empty());
    assert((seq!['/'] + name).drop_first() =~= name);
    assert(segments(Seq::<char>::empty()) =~= Seq::<Seq<char>>::empty());
    assert(segments(seq!['/']) == segments(seq!['/'].drop_first()));
    assert(segments(seq!['/'] + name) == segments((seq!['/'] + name).drop_first()));
    assert(segments(s) + Seq::<Seq<char>>::empty() =~= segments(s));
    assert(segments(s) + seq![name] =~= segments(s).push(name));
}

proof fn lemma_single(name: Seq<char>)
    requires
        name.len() > 0,
        !name.contains('/'),
    ensures
        segments(name) == seq![name],
{
    assert forall|k: int| 0 <= k < name.len() implies #[trigger] name[k] != '/' by {
        assert(name.contains(name[k]));
    }
    lemma_run_is(name, name.len() as int);
    assert(name[0] != '/');
    assert(name.take(name.len() as int) =~= name);
    assert(name.skip(name.len() as int) =~= Seq::<char>::empty());
    assert(segments(Seq::<char>::empty()) =~= Seq::<Seq<char>>::empty());
    assert(segments(name.skip(name.len() as int)) == Seq::<Seq<char>>::empty());
    assert(seq![name.take(name.len() as int)] + Seq::<Seq<char>>::empty() =~= seq![name]);
}

/// What begins with a slash adds its own names behind those of the path.
proof fn lemma_tail(s: Seq<char>, tail: Seq<char>)
    requires
        tail.len() > 0,
        tail[0] == '/',
    ensures
        segments(s + tail) == segments(s) + segments(tail),
    decreases s.len(),
{
    let t = s + tail;
    if s.len() == 0 {
        assert(t =~= tail);
        assert(segments(s) + segments(tail) =~= segments(tail));
    } else if s[0] == '/' {
        lemma_tail(s.drop_first(), tail);
        assert(t.drop_first() =~= s.drop_first() + tail);
    } else {
        lemma_run(s);
        let n = run_length(s) as int;
        assert forall|k: int| 0 <= k < n implies #[trigger] t[k] != '/' by {
            assert(t[k] == s[k]);
        }
        assert(t[n] == '/');
        lemma_run_is(t, n);
        assert(t[0] == s[0]);
        assert(t.take(n) =~= s.take(n));
        assert(t.skip(n) =~= s.skip(n) + tail);
        lemma_tail(s.skip(n), tail);
        assert(seq![s.take(n)] + (segments(s.skip(n)) + segments(tail)) =~= seq![s.take(n)]
            + segments(s.skip(n)) + segments(tail));
    }
}

/// The directories on the way to a path are those that its first names lead
/// to: each has one name more than the one before, and the last has them all.
pub proof fn ancestors_lead_to_the_path(path: Seq<char>, i: int)
    requires
        0 <= i < ancestors(path).len(),
    ensures
        ancestors(path).len() == segments(path).len(),
        segments(ancestors(path)[i]) == segments(path).take(i + 1),
{
    lemma_ancestor(path, i + 1);
}

proof fn lemma_ancestor(path: Seq<char>, n: int)
    requires
        0 <= n <= segments(path).len(),
    ensures
        segments(ancestor(segments(path), n)) == segments(path).take(n),
    decreases n,
{
    let parts = segments(path);
    if n > 0 {
        lemma_ancestor(path, n - 1);
        segments_are_names(path, n - 1);
        paths_take_apart_as_put_together(ancestor(parts, n - 1), parts[n - 1]);
        assert(parts.take(n) =~= parts.take(n - 1).push(parts[n - 1]));
    } else {
        assert(parts.take(0) =~= Seq::<Seq<char>>::empty());
    }
}

/// Only slashes go from the end of a path, and all that stand there.
pub proof fn only_trailing_slashes_go(s: Seq<char>)
    ensures
        without_trailing_slashes(s).is_prefix_of(s),
        forall|k: int| without_trailing_slashes(s).len() <= k < s.len() ==> #[trigger] s[k] == '/',
        without_trailing_slashes(s).len() > 0 ==> without_trailing_slashes(s).last() != '/',
    decreases s.len(),
{
    if s.len() > 0 && s.last() == '/' {
        only_trailing_slashes_go(s.drop_last());
        let kept = without_trailing_slashes(s);
        assert(kept =~= s.drop_last().subrange(0, kept.len() as int));
        assert(kept =~= s.subrange(0, kept.len() as int));
        assert forall|k: int| kept.len() <= k < s.len() implies #[trigger] s[k] == '/' by {
            if k < s.len() - 1 {
                assert(s.drop_last()[k] == '/');
            }
        }
    } else {
        assert(s =~= s.subrange(0, s.len() as int));
    }
}

/// The last name of a path is what was put behind its last slash.
pub proof fn base_name_is_what_came_last(dir: Seq<char>, name: Seq<char>)
    requires
        !name.contains('/'),
    ensures
        base_name(dir + seq!['/'] + name) == name,
        base_name(name) == name,
        !base_name(dir).contains('/'),
{
    assert forall|k: int| 0 <= k < name.len() implies #[trigger] name[k] != '/' by {
        assert(name.contains(name[k]));
    }
    let path = dir + seq!['/'] + name;
    let from = dir.len() + 1;
    assert forall|k: int| from <= k < path.len() implies #[trigger] path[k] != '/' by {
        assert(path[k] == name[k - from]);
    }
    lemma_base_name(path, from as int);
    assert(path.subrange(from as int, path.len() as int) =~= name);
    lemma_base_name(name, 0);
    assert(name.subrange(0, name.len() as int) =~= name);
    lemma_no_slash(dir);
}

proof fn lemma_no_slash(s: Seq<char>)
    ensures
        !base_name(s).contains('/'),
    decreases s.len(),
{
    if s.len() > 0 && s.last() != '/' {
        lemma_no_slash(s.drop_last());
        let before = base_name(s.drop_last());
        if base_name(s).contains('/') {
            let k = choose|k: int| 0 <= k < base_name(s).len() && base_name(s)[k] == '/';
            if k < before.len() {
                assert(before[k] == '/');
                assert(before.contains('/'));
            }
        }
    }
}

/// No backslash is left, no character is added or dropped, and what is no
/// backslash stays where it was.
pub proof fn backslashes_become_slashes(s: Seq<char>, i: int)
    requires
        0 <= i < s.len(),
    ensures
        forward_slashes(s).len() == s.len(),
        forward_slashes(s)[i] != '\\',
        s[i] != '\\' ==> forward_slashes(s)[i] == s[i],
        s[i] == '\\' ==> forward_slashes(s)[i] == '/',
{
}

} // verus!

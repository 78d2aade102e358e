//! Names of stored workflow artifacts.

use vstd::prelude::*;
use crate::support::text;
use crate::support::text::{chars_of, text_of, trim};

verus! {

/// Whether a character may stand in the name of an artifact.
pub open spec fn safe(c: char) -> bool {
    'a' <= c <= 'z' || 'A' <= c <= 'Z' || '0' <= c <= '9' || c == '-' || c == '_' || c == '.'
}

/// Whether two dots stand side by side.
pub open spec fn has_double_dot(s: Seq<char>) -> bool {
    exists|i: int| 0 <= i < s.len() - 1 && #[trigger] s[i] == '.' && s[i + 1] == '.'
}

/// Whether nothing can be made of a name: it is empty, or a step within a
/// directory tree.
pub open spec fn unusable(s: Seq<char>) -> bool {
    s.len() == 0 || s == seq!['.'] || has_double_dot(s)
}

/// The name that a text gives to an artifact: the text without white space at
/// its ends, with an underscore for every character that may not stand in a
/// name, or a stand-in where nothing can be made of it.
pub open spec fn segment_of(input: Seq<char>) -> Seq<char> {
    let name = text::trimmed(input);
    if unusable(name) {
        "unversioned"@
    } else {
        Seq::new(
            name.len(),
            |i: int|
                if safe(name[i]) {
                    name[i]
                } else {
                    '_'
                },
        )
    }
}

/// A name stays within its directory: it is not empty, holds nothing but safe
/// characters, and is no step within a directory tree.
pub proof fn segments_stay_in_their_directory(input: Seq<char>)
    ensures
        !unusable(segment_of(input)),
        forall|i: int| 0 <= i < segment_of(input).len() ==> safe(#[trigger] segment_of(input)[i]),
{
    let name = text::trimmed(input);
    let r = segment_of(input);
    if unusable(name) {
        reveal_strlit("unversioned");
        assert(forall|i: int| 0 <= i < r.len() ==> safe(#[trigger] r[i]) && r[i] != '.');
    } else {
        assert(!has_double_dot(r)) by {
            if has_double_dot(r) {
                let i = choose|i: int| 0 <= i < r.len() - 1 && #[trigger] r[i] == '.' && r[i + 1]
                    == '.';
                assert(name[i] == '.' && name[i + 1] == '.');
            }
        }
        if r == seq!['.'] {
            assert(r[0] == '.');
            assert(name[0] == '.');
            assert(name =~= seq!['.']);
        }
    }
}

fn is_safe(c: char) -> (r: bool)
    ensures
        r == safe(c),
{
    ('a' <= c && c <= 'z') || ('A' <= c && c <= 'Z') || ('0' <= c && c <= '9') || c == '-' || c
        == '_' || c == '.'
}

/// The name that a text gives to an artifact.
pub fn sanitize_segment(input: &str) -> (r: String)
    ensures
        r@ == segment_of(input@),
{
    let name = trim(input);
    let chars = chars_of(name.as_str());
    if chars.len() == 0 {
        return "unversioned".to_owned();
    }
    if chars.len() == 1 && chars[0] == '.' {
        proof {
            assert(name@ =~= seq!['.']);
        }
        return "unversioned".to_owned();
    }
    let mut kept: Vec<char> = Vec::new();
    let mut i: usize = 0;
    while i < chars.len()
        invariant
            i <= chars@.len(),
            chars@ == name@,
            kept@.len() == i,
            forall|k: int| 0 <= k < i - 1 ==> !(#[trigger] name@[k] == '.' && name@[k + 1] == '.'),
            forall|k: int|
                0 <= k < i ==> #[trigger] kept@[k] == (if safe(name@[k]) {
                    name@[k]
                } else {
                    '_'
                }),
            name@ == text::trimmed(input@),
        decreases chars.len() - i,
    {
        let c = chars[i];
        if i > 0 && c == '.' && chars[i - 1] == '.' {
            proof {
                assert(name@[i - 1] == '.' && name@[i - 1 + 1] == '.');
                assert(has_double_dot(name@));
            }
            return "unversioned".to_owned();
        }
        if is_safe(c) {
            kept.push(c);
        } else {
            kept.push('_');
        }
        i = i + 1;
    }
    let r = text_of(&kept);
    proof {
        assert(!has_double_dot(name@));
        assert(!unusable(name@));
        assert(r@ =~= segment_of(input@));
    }
    r
}

/// A name keeps each character that is a letter, a digit, a hyphen, an
/// underscore or a dot, in its place, and has an underscore for any other; what
/// is empty, a lone dot or holds two dots side by side is stood in for.
pub proof fn names_keep_their_safe_characters(input: Seq<char>, i: int)
    ensures
        ({
            let name = text::trimmed(input);
            let stands_in = name.len() == 0 || (name.len() == 1 && name[0] == '.') || exists|k: int|
                0 <= k && k + 1 < name.len() && #[trigger] name[k] == '.' && name[k + 1] == '.';
            &&& stands_in ==> segment_of(input) == "unversioned"@
            &&& !stands_in ==> segment_of(input).len() == name.len()
            &&& !stands_in && 0 <= i < name.len() ==> ({
                let c = name[i];
                let kept = segment_of(input)[i];
                &&& 'a' <= c <= 'z' || 'A' <= c <= 'Z' || '0' <= c <= '9' || c == '-' || c == '_'
                    || c == '.' ==> kept == c
                &&& !('a' <= c <= 'z' || 'A' <= c <= 'Z' || '0' <= c <= '9' || c == '-' || c == '_'
                    || c == '.') ==> kept == '_'
            })
        }),
{
    let name = text::trimmed(input);
    if name.len() == 1 && name[0] == '.' {
        assert(name =~= seq!['.']);
    }
    if exists|k: int|
        0 <= k && k + 1 < name.len() && #[trigger] name[k] == '.' && name[k + 1] == '.' {
        let k = choose|k: int|
            0 <= k && k + 1 < name.len() && #[trigger] name[k] == '.' && name[k + 1] == '.';
        assert(name[k] == '.' && name[k + 1] == '.');
        assert(has_double_dot(name));
    }
    if has_double_dot(name) {
        let k = choose|k: int| 0 <= k < name.len() - 1 && #[trigger] name[k] == '.' && name[k + 1]
            == '.';
        assert(name[k] == '.' && name[k + 1] == '.');
    }
}

/// A name is its own name: naming twice changes nothing.
pub proof fn naming_twice_changes_nothing(input: Seq<char>)
    ensures
        segment_of(segment_of(input)) == segment_of(input),
{
    let name = segment_of(input);
    segments_stay_in_their_directory(input);
    assert(safe(name[0]) && safe(name[name.len() - 1]));
    assert(text::trimmed(name) == name);
    assert(segment_of(name) =~= name);
}

} // verus!

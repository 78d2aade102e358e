//! JSON values, held as `serde_json::Value`.

use vstd::prelude::*;
use crate::support::stored::Stored;
use crate::support::text;
use crate::support::text_map::TextMap;

verus! {

/// A JSON value. Its contents are spoken of through [`json_text`],
/// [`json_members`] and [`json_items`].
#[verifier::external_type_specification]
#[verifier::external_body]
pub struct ExValue(serde_json::Value);

/// What `Value::as_str` gives: the text of a JSON string, nothing of any other
/// value.
pub uninterp spec fn json_text(v: serde_json::Value) -> Option<Seq<char>>;

/// What `Value::as_object` gives: the members of a JSON object by key, nothing
/// of any other value.
pub uninterp spec fn json_members(v: serde_json::Value) -> Option<Map<Seq<char>, serde_json::Value>>;

/// What `Value::as_array` gives: the items of a JSON array, nothing of any
/// other value.
pub uninterp spec fn json_items(v: serde_json::Value) -> Option<Seq<serde_json::Value>>;

/// What `Value`'s `Display` writes: the value as compact JSON text.
pub uninterp spec fn json_rendering(v: serde_json::Value) -> Seq<char>;

/// `Value::clone` gives an equal value.
pub assume_specification[ <serde_json::Value as Clone>::clone ](v: &serde_json::Value) -> (r:
    serde_json::Value)
    ensures
        r == *v,
;

/// `Value::as_str`: the text of a JSON string, copied out.
#[verifier::external_body]
pub(crate) fn as_text(v: &serde_json::Value) -> (r: Option<String>)
    ensures
        r is Some <==> json_text(*v) is Some,
        r is Some ==> r->0@ == json_text(*v)->0,
{
    v.as_str().map(|s| s.to_string())
}

/// `Value`'s `Display`, as text.
#[verifier::external_body]
pub(crate) fn render(v: &serde_json::Value) -> (r: String)
    ensures
        r@ == json_rendering(*v),
{
    v.to_string()
}

/// `serde_json::Map::new` as a value: an object without members.
#[verifier::external_body]
pub(crate) fn empty_object() -> (r: serde_json::Value)
    ensures
        json_members(r) == Some(Map::<Seq<char>, serde_json::Value>::empty()),
{
    serde_json::Value::Object(serde_json::Map::new())
}

/// `Value::from` on a list of texts: an array that holds them as JSON strings,
/// in order.
#[verifier::external_body]
pub(crate) fn array_of_texts(items: &Vec<String>) -> (r: serde_json::Value)
    ensures
        json_items(r) is Some,
        is_array_of_texts(r, text::texts(items@)),
{
    serde_json::Value::from(items.clone())
}

/// `serde_json::Map::remove` on the members of an object: takes `key` out and
/// leaves every other member; a value that is no object, or has no such
/// member, stays as it is. Gives back whether the member was there.
#[verifier::external_body]
pub(crate) fn remove_member(v: &mut serde_json::Value, key: &str) -> (r: bool)
    ensures
        json_members(*old(v)) is None ==> *final(v) == *old(v) && !r,
        json_members(*old(v)) matches Some(m) ==> {
            &&& json_members(*final(v)) == Some(m.remove(key@))
            &&& r == m.contains_key(key@)
            &&& !m.contains_key(key@) ==> *final(v) == *old(v)
        },
{
    match v {
        serde_json::Value::Object(members) => members.remove(key).is_some(),
        _ => false,
    }
}

/// Whether `v` is an array that holds `items` as JSON strings, in order.
pub open spec fn is_array_of_texts(v: serde_json::Value, items: Seq<Seq<char>>) -> bool {
    &&& json_items(v) is Some
    &&& json_items(v)->0.len() == items.len()
    &&& forall|i: int|
        0 <= i < items.len() ==> #[trigger] json_text(json_items(v)->0[i]) == Some(items[i])
}

/// A JSON value as a value of a map.
#[derive(Debug, PartialEq, Eq)]
pub struct Json {
    pub value: serde_json::Value,
}

impl View for Json {
    type V = serde_json::Value;

    open spec fn view(&self) -> serde_json::Value {
        self.value
    }
}

impl Stored for Json {
    fn duplicate(&self) -> (r: Self) {
        Json { value: self.value.clone() }
    }
}

/// Whether `pairs` lists the members of an object, each once.
pub open spec fn lists_members(
    pairs: Seq<(String, serde_json::Value)>,
    members: Map<Seq<char>, serde_json::Value>,
) -> bool {
    &&& forall|i: int, j: int|
        0 <= i < pairs.len() && 0 <= j < pairs.len() && (#[trigger] pairs[i]).0@ == (
        #[trigger] pairs[j]).0@ ==> i == j
    &&& forall|i: int|
        0 <= i < pairs.len() ==> members.contains_key((#[trigger] pairs[i]).0@)
            && members[pairs[i].0@] == pairs[i].1
    &&& forall|k: Seq<char>| #[trigger] members.contains_key(k) ==> exists|i: int|
        0 <= i < pairs.len() && (#[trigger] pairs[i]).0@ == k
}

/// `Value::as_object`, the members copied out: each member once, in no order
/// that is promised.
#[verifier::external_body]
pub(crate) fn members_of(v: &serde_json::Value) -> (r: Option<Vec<(String, serde_json::Value)>>)
    ensures
        r is Some <==> json_members(*v) is Some,
        r is Some ==> lists_members(r->0@, json_members(*v)->0),
{
    v.as_object().map(|members| members.iter().map(|(k, v)| (k.clone(), v.clone())).collect())
}

/// `Value::from` on a `serde_json::Map` that was collected from pairs: an
/// object with these members. No key stands in two pairs.
#[verifier::external_body]
fn object_from_pairs(pairs: Vec<(String, serde_json::Value)>) -> (r: serde_json::Value)
    requires
        forall|i: int, j: int|
            0 <= i < pairs@.len() && 0 <= j < pairs@.len() && (#[trigger] pairs@[i]).0@ == (
            #[trigger] pairs@[j]).0@ ==> i == j,
    ensures
        json_members(r) is Some,
        lists_members(pairs@, json_members(r)->0),
{
    serde_json::Value::from(pairs.into_iter().collect::<serde_json::Map<String, serde_json::Value>>())
}

/// The object whose members are the entries of `map`.
pub fn object_of(map: &TextMap<Json>) -> (r: serde_json::Value)
    ensures
        json_members(r) == Some(map@),
{
    let keys = map.keys();
    let mut pairs: Vec<(String, serde_json::Value)> = Vec::new();
    let mut i: usize = 0;
    while i < keys.len()
        invariant
            i <= keys@.len(),
            pairs@.len() == i,
            forall|k: Seq<char>|
                #[trigger] text::texts(keys@).contains(k) <==> map@.contains_key(k),
            forall|j: int|
                0 <= j < i ==> (#[trigger] pairs@[j]).0 == keys@[j] && map@.contains_key(
                    pairs@[j].0@,
                ) && pairs@[j].1 == map@[pairs@[j].0@],
        decreases keys.len() - i,
    {
        proof {
            assert(text::texts(keys@)[i as int] == keys@[i as int]@);
            assert(text::texts(keys@).contains(keys@[i as int]@));
        }
        if let Some(json) = map.get(keys[i].as_str()) {
            pairs.push((keys[i].clone(), json.value.clone()));
        }
        i = i + 1;
    }
    proof {
        let ks = text::texts(keys@);
        assert forall|a: int, b: int|
            0 <= a < pairs@.len() && 0 <= b < pairs@.len() && (#[trigger] pairs@[a]).0@ == (
            #[trigger] pairs@[b]).0@ implies a == b by {
            assert(ks[a] == ks[b]);
        }
    }
    let r = object_from_pairs(pairs);
    proof {
        let ks = text::texts(keys@);
        let members = json_members(r)->0;
        assert forall|k: Seq<char>| #[trigger] members.contains_key(k) <==> map@.contains_key(
            k,
        ) by {
            if map@.contains_key(k) {
                assert(ks.contains(k));
                let j = choose|j: int| 0 <= j < ks.len() && ks[j] == k;
                assert(pairs@[j].0@ == k);
            }
        }
        assert forall|k: Seq<char>| members.contains_key(k) implies #[trigger] members[k]
            == map@[k] by {
            let j = choose|j: int| 0 <= j < pairs@.len() && (#[trigger] pairs@[j]).0@ == k;
            assert(members[pairs@[j].0@] == pairs@[j].1);
        }
        assert(members =~= map@);
    }
    r
}

/// An array of texts has as many items as there are texts, and each item is the
/// text in its place.
pub proof fn arrays_hold_their_texts(v: serde_json::Value, items: Seq<Seq<char>>, i: int)
    requires
        is_array_of_texts(v, items),
    ensures
        json_items(v) is Some,
        json_items(v)->0.len() == items.len(),
        0 <= i < items.len() ==> json_text(json_items(v)->0[i]) is Some && json_text(
            json_items(v)->0[i],
        )->0 == items[i],
{
}

/// A list of members names each member once, with its value, and none besides.
pub proof fn members_are_listed_once(
    pairs: Seq<(String, serde_json::Value)>,
    members: Map<Seq<char>, serde_json::Value>,
    key: Seq<char>,
    i: int,
    j: int,
)
    requires
        lists_members(pairs, members),
    ensures
        members.contains_key(key) <==> exists|k: int|
            0 <= k < pairs.len() && (#[trigger] pairs[k]).0@ == key,
        0 <= i < pairs.len() && pairs[i].0@ == key ==> members[key] == pairs[i].1,
        0 <= i < j < pairs.len() ==> pairs[i].0@ != pairs[j].0@,
{
}

} // verus!

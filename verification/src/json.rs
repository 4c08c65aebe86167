//! A JSON value, as the library builds and reads it.
use vstd::prelude::*;
use crate::text::{owned, str_eq};

verus! {

/// A JSON value.
///
/// Numbers are held as their JSON text (such as `-12` or `0.5`), so that any
/// number the API sends is kept exactly. An object holds its members as pairs of a
/// key and a value, in the order in which they were set; JSON gives that order no
/// meaning.
#[derive(Debug)]
pub enum JsonValue {
    Null,
    Bool(bool),
    Number(String),
    String(String),
    Array(Vec<JsonValue>),
    Object(Vec<(String, JsonValue)>),
}

/// The mathematical value of a [`JsonValue`]: an object is its sequence of members.
#[verifier::ext_equal]
pub enum Json {
    Null,
    Bool(bool),
    Number(Seq<char>),
    Str(Seq<char>),
    Array(Seq<Json>),
    Object(Seq<(Seq<char>, Json)>),
}

impl View for JsonValue {
    type V = Json;

    open spec fn view(&self) -> Json
        decreases self,
    {
        match self {
            JsonValue::Null => Json::Null,
            JsonValue::Bool(b) => Json::Bool(*b),
            JsonValue::Number(n) => Json::Number(n@),
            JsonValue::String(s) => Json::Str(s@),
            JsonValue::Array(a) => Json::Array(
                Seq::new(
                    a@.len(),
                    |i: int|
                        if 0 <= i < a@.len() {
                            a@[i].view()
                        } else {
                            Json::Null
                        },
                ),
            ),
            JsonValue::Object(m) => {
                let vs = Seq::new(
                    m@.len(),
                    |i: int|
                        if 0 <= i < m@.len() {
                            m@[i].1.view()
                        } else {
                            Json::Null
                        },
                );
                Json::Object(Seq::new(m@.len(), |i: int| (m@[i].0@, vs[i])))
            },
        }
    }
}

/// The members of an object value, or the empty sequence for any other value.
pub open spec fn members(j: Json) -> Seq<(Seq<char>, Json)> {
    match j {
        Json::Object(m) => m,
        _ => Seq::empty(),
    }
}

/// The value of the first member named `key`, if any.
pub open spec fn member(m: Seq<(Seq<char>, Json)>, key: Seq<char>) -> Option<Json>
    decreases m.len(),
{
    if m.len() == 0 {
        None
    } else if m[0].0 == key {
        Some(m[0].1)
    } else {
        member(m.drop_first(), key)
    }
}

/// `m` with member `key` set to `v`: the first member with that key gets the new
/// value, in place; without one, the member is added at the end.
pub open spec fn set_member(m: Seq<(Seq<char>, Json)>, key: Seq<char>, v: Json) -> Seq<(Seq<char>, Json)>
    decreases m.len(),
{
    if m.len() == 0 {
        seq![(key, v)]
    } else if m[0].0 == key {
        m.update(0, (key, v))
    } else {
        seq![m[0]] + set_member(m.drop_first(), key, v)
    }
}

/// The members that setting each pair of `ps` in turn gives, starting from none.
pub open spec fn members_of_pairs(ps: Seq<(Seq<char>, Json)>) -> Seq<(Seq<char>, Json)>
    decreases ps.len(),
{
    if ps.len() == 0 {
        Seq::empty()
    } else {
        set_member(members_of_pairs(ps.drop_last()), ps.last().0, ps.last().1)
    }
}

/// The value that looking up `key` in `j` gives: the member's value when `j` is
/// an object with such a member, `None` otherwise.
pub open spec fn get(j: Json, key: Seq<char>) -> Option<Json> {
    member(members(j), key)
}

/// `i` is the first position of a member named `key`.
pub open spec fn first_key_at(m: Seq<(Seq<char>, Json)>, key: Seq<char>, i: int) -> bool {
    &&& 0 <= i < m.len()
    &&& m[i].0 == key
    &&& forall|j: int| 0 <= j < i ==> m[j].0 != key
}

/// No member is named `key`.
pub open spec fn lacks_key(m: Seq<(Seq<char>, Json)>, key: Seq<char>) -> bool {
    forall|j: int| 0 <= j < m.len() ==> m[j].0 != key
}

/// Looking up a key finds the first member with that key, and nothing without one.
pub proof fn lemma_member(m: Seq<(Seq<char>, Json)>, key: Seq<char>, i: int)
    ensures
        first_key_at(m, key, i) ==> member(m, key) == Some(m[i].1),
        lacks_key(m, key) ==> member(m, key) is None,
    decreases m.len(),
{
    if m.len() > 0 && m[0].0 != key {
        lemma_member(m.drop_first(), key, i - 1);
        if first_key_at(m, key, i) {
            assert(first_key_at(m.drop_first(), key, i - 1)) by {
                assert forall|j: int| 0 <= j < i - 1 implies m.drop_first()[j].0 != key by {
                    assert(m.drop_first()[j] == m[j + 1]);
                }
            }
        }
        if lacks_key(m, key) {
            assert(lacks_key(m.drop_first(), key)) by {
                assert forall|j: int| 0 <= j < m.drop_first().len() implies m.drop_first()[j].0 != key by {
                    assert(m.drop_first()[j] == m[j + 1]);
                }
            }
        }
    }
}

/// Setting a member replaces the value of the first member with that key, and adds
/// the member at the end without one.
pub proof fn lemma_set_member(m: Seq<(Seq<char>, Json)>, key: Seq<char>, v: Json, i: int)
    ensures
        first_key_at(m, key, i) ==> set_member(m, key, v) == m.update(i, (key, v)),
        lacks_key(m, key) ==> set_member(m, key, v) == m.push((key, v)),
    decreases m.len(),
{
    if m.len() > 0 && m[0].0 != key {
        let t = m.drop_first();
        lemma_set_member(t, key, v, i - 1);
        if first_key_at(m, key, i) {
            assert(first_key_at(t, key, i - 1)) by {
                assert forall|j: int| 0 <= j < i - 1 implies t[j].0 != key by {
                    assert(t[j] == m[j + 1]);
                }
            }
            assert(seq![m[0]] + t.update(i - 1, (key, v)) =~= m.update(i, (key, v)));
        }
        if lacks_key(m, key) {
            assert(lacks_key(t, key)) by {
                assert forall|j: int| 0 <= j < t.len() implies t[j].0 != key by {
                    assert(t[j] == m[j + 1]);
                }
            }
            assert(seq![m[0]] + t.push((key, v)) =~= m.push((key, v)));
        }
    } else if m.len() == 0 {
        assert(seq![(key, v)] =~= m.push((key, v)));
    }
}

/// What a read gives back of a write: once member `key` is set to `v`, looking up
/// `key` gives `v`, and looking up any other key gives what it gave before.
pub proof fn lemma_get_after_set(m: Seq<(Seq<char>, Json)>, key: Seq<char>, v: Json, other: Seq<char>)
    ensures
        member(set_member(m, key, v), key) == Some(v),
        other != key ==> member(set_member(m, key, v), other) == member(m, other),
    decreases m.len(),
{
    if m.len() == 0 {
        assert(seq![(key, v)].drop_first() =~= m);
    } else if m[0].0 == key {
        assert(m.update(0, (key, v)).drop_first() =~= m.drop_first());
    } else {
        lemma_get_after_set(m.drop_first(), key, v, other);
        let s = seq![m[0]] + set_member(m.drop_first(), key, v);
        assert(s[0] == m[0]);
        assert(s.drop_first() =~= set_member(m.drop_first(), key, v));
    }
}

/// The value of the last pair of `ps` with the key `key`, if any.
pub open spec fn last_value(ps: Seq<(Seq<char>, Json)>, key: Seq<char>) -> Option<Json>
    decreases ps.len(),
{
    if ps.len() == 0 {
        None
    } else if ps.last().0 == key {
        Some(ps.last().1)
    } else {
        last_value(ps.drop_last(), key)
    }
}

/// Setting pairs in turn, the later of two pairs with one key wins: looking up a
/// key in the members gives the value of the last pair with that key.
pub proof fn lemma_later_pair_wins(ps: Seq<(Seq<char>, Json)>, key: Seq<char>)
    ensures
        member(members_of_pairs(ps), key) == last_value(ps, key),
    decreases ps.len(),
{
    if ps.len() > 0 {
        lemma_later_pair_wins(ps.drop_last(), key);
        lemma_get_after_set(members_of_pairs(ps.drop_last()), ps.last().0, ps.last().1, key);
    }
}

/// No two members of `m` have one key.
pub open spec fn unique_keys(m: Seq<(Seq<char>, Json)>) -> bool {
    forall|i: int, j: int| 0 <= i < j < m.len() ==> m[i].0 != m[j].0
}

/// Setting a member adds at most the key set, and keeps the others.
proof fn lemma_set_member_keys(m: Seq<(Seq<char>, Json)>, key: Seq<char>, v: Json)
    ensures
        forall|i: int| 0 <= i < set_member(m, key, v).len() ==> (#[trigger] set_member(m, key, v)[i]).0 == key
            || exists|j: int| 0 <= j < m.len() && m[j].0 == set_member(m, key, v)[i].0,
    decreases m.len(),
{
    if m.len() > 0 && m[0].0 != key {
        let t = m.drop_first();
        lemma_set_member_keys(t, key, v);
        let s = set_member(m, key, v);
        assert(s == seq![m[0]] + set_member(t, key, v));
        assert forall|i: int| 0 <= i < s.len() implies (#[trigger] s[i]).0 == key
            || exists|j: int| 0 <= j < m.len() && m[j].0 == s[i].0 by {
            if i == 0 {
                assert(m[0].0 == s[0].0);
            } else {
                let x = set_member(t, key, v)[i - 1];
                assert(s[i] == x);
                if x.0 != key {
                    let j = choose|j: int| 0 <= j < t.len() && t[j].0 == x.0;
                    assert(m[j + 1] == t[j]);
                }
            }
        }
    } else if m.len() > 0 {
        let s = set_member(m, key, v);
        assert forall|i: int| 0 <= i < s.len() implies (#[trigger] s[i]).0 == key
            || exists|j: int| 0 <= j < m.len() && m[j].0 == s[i].0 by {
            if i != 0 {
                assert(m[i].0 == s[i].0);
            }
        }
    }
}

/// Setting a member never puts a key into an object twice.
pub proof fn lemma_set_member_unique(m: Seq<(Seq<char>, Json)>, key: Seq<char>, v: Json)
    requires
        unique_keys(m),
    ensures
        unique_keys(set_member(m, key, v)),
    decreases m.len(),
{
    if m.len() > 0 && m[0].0 != key {
        let t = m.drop_first();
        assert(unique_keys(t)) by {
            assert forall|i: int, j: int| 0 <= i < j < t.len() implies t[i].0 != t[j].0 by {
                assert(t[i] == m[i + 1] && t[j] == m[j + 1]);
            }
        }
        lemma_set_member_unique(t, key, v);
        lemma_set_member_keys(t, key, v);
        let r = set_member(t, key, v);
        let s = seq![m[0]] + r;
        assert forall|i: int, j: int| 0 <= i < j < s.len() implies s[i].0 != s[j].0 by {
            if i == 0 {
                assert(s[j] == r[j - 1]);
                if r[j - 1].0 != key {
                    let k = choose|k: int| 0 <= k < t.len() && t[k].0 == r[j - 1].0;
                    assert(m[k + 1] == t[k]);
                }
            } else {
                assert(s[i] == r[i - 1] && s[j] == r[j - 1]);
            }
        }
    } else if m.len() == 0 {
    } else {
        let s = m.update(0, (key, v));
        assert forall|i: int, j: int| 0 <= i < j < s.len() implies s[i].0 != s[j].0 by {
            assert(m[i].0 == s[i].0);
            assert(m[j].0 == s[j].0);
        }
    }
}

/// The members that setting pairs in turn gives have no key twice.
pub proof fn lemma_pairs_unique(ps: Seq<(Seq<char>, Json)>)
    ensures
        unique_keys(members_of_pairs(ps)),
    decreases ps.len(),
{
    if ps.len() > 0 {
        lemma_pairs_unique(ps.drop_last());
        lemma_set_member_unique(members_of_pairs(ps.drop_last()), ps.last().0, ps.last().1);
    }
}

/// What the view of an array holds: the views of its elements, in order.
pub proof fn lemma_array_view(a: Vec<JsonValue>)
    ensures
        JsonValue::Array(a)@ == Json::Array(a@.map_values(|e: JsonValue| e@)),
{
    assert(JsonValue::Array(a)@->Array_0 =~= a@.map_values(|e: JsonValue| e@));
}

/// What the view of an object holds: its keys paired with the views of its values.
pub proof fn lemma_object_view(m: Vec<(String, JsonValue)>)
    ensures
        JsonValue::Object(m)@ is Object,
        JsonValue::Object(m)@->Object_0.len() == m@.len(),
        forall|i: int| 0 <= i < m@.len() ==> #[trigger] JsonValue::Object(m)@->Object_0[i] == (m@[i].0@, m@[i].1@),
{
}

/// A copy of a JSON value.
pub fn json_clone(v: &JsonValue) -> (r: JsonValue)
    ensures
        r@ == v@,
    decreases v,
{
    match v {
        JsonValue::Null => JsonValue::Null,
        JsonValue::Bool(b) => JsonValue::Bool(*b),
        JsonValue::Number(n) => JsonValue::Number(n.clone()),
        JsonValue::String(s) => JsonValue::String(s.clone()),
        JsonValue::Array(a) => {
            let mut out: Vec<JsonValue> = Vec::new();
            let mut i: usize = 0;
            while i < a.len()
                invariant
                    *v == JsonValue::Array(*a),
                    i <= a@.len(),
                    out@.len() == i,
                    forall|j: int| 0 <= j < i ==> (#[trigger] out@[j])@ == a@[j]@,
                decreases a@.len() - i,
            {
                proof {
                    assert(decreases_to!(*v => v->Array_0));
                    assert(decreases_to!(*a => a@));
                    assert(decreases_to!(a@ => a@[i as int]));
                }
                let e = json_clone(&a[i]);
                out.push(e);
                i = i + 1;
            }
            proof {
                lemma_array_view(out);
                lemma_array_view(*a);
                assert(out@.map_values(|e: JsonValue| e@) =~= a@.map_values(|e: JsonValue| e@));
            }
            JsonValue::Array(out)
        },
        JsonValue::Object(m) => {
            let mut out: Vec<(String, JsonValue)> = Vec::new();
            let mut i: usize = 0;
            while i < m.len()
                invariant
                    *v == JsonValue::Object(*m),
                    i <= m@.len(),
                    out@.len() == i,
                    forall|j: int| 0 <= j < i ==> (#[trigger] out@[j]).0@ == m@[j].0@ && out@[j].1@ == m@[j].1@,
                decreases m@.len() - i,
            {
                proof {
                    assert(decreases_to!(*v => v->Object_0));
                    assert(decreases_to!(*m => m@));
                    assert(decreases_to!(m@ => m@[i as int]));
                    assert(decreases_to!(m@[i as int] => m@[i as int].1));
                }
                let key = m[i].0.clone();
                let value = json_clone(&m[i].1);
                out.push((key, value));
                i = i + 1;
            }
            proof {
                lemma_object_view(out);
                lemma_object_view(*m);
            }
            let r = JsonValue::Object(out);
            assert(r@->Object_0 =~= v@->Object_0);
            r
        },
    }
}

impl Clone for JsonValue {
    /// A copy with the same view.
    fn clone(&self) -> (r: Self)
        ensures
            r@ == self@,
    {
        json_clone(self)
    }
}

/// The position of the first member of `m` whose key is `key`, if any.
pub fn find_key(m: &Vec<(String, JsonValue)>, key: &str) -> (r: Option<usize>)
    ensures
        match r {
            Some(i) => i < m@.len() && m@[i as int].0@ == key@
                && forall|j: int| 0 <= j < i ==> m@[j].0@ != key@,
            None => forall|j: int| 0 <= j < m@.len() ==> m@[j].0@ != key@,
        },
{
    let mut i: usize = 0;
    while i < m.len()
        invariant
            i <= m@.len(),
            forall|j: int| 0 <= j < i ==> m@[j].0@ != key@,
        decreases m@.len() - i,
    {
        if str_eq(m[i].0.as_str(), key) {
            return Some(i);
        }
        i = i + 1;
    }
    None
}

/// The value of member `key` of `value`: that of the first member with that key
/// when `value` is an object that has one, `None` otherwise.
pub fn json_get<'a>(value: &'a JsonValue, key: &str) -> (r: Option<&'a JsonValue>)
    ensures
        match r {
            Some(x) => get(value@, key@) == Some(x@),
            None => get(value@, key@) is None,
        },
{
    match value {
        JsonValue::Object(m) => {
            proof {
                lemma_object_view(*m);
            }
            match find_key(m, key) {
                Some(i) => {
                    proof {
                        assert(first_key_at(value@->Object_0, key@, i as int));
                        lemma_member(value@->Object_0, key@, i as int);
                    }
                    Some(&m[i].1)
                },
                None => {
                    proof {
                        lemma_member(value@->Object_0, key@, 0);
                    }
                    None
                },
            }
        },
        _ => None,
    }
}

/// Sets member `key` of an object to `v`, as [`set_member`] says. A value that is
/// not an object is left unchanged.
pub fn json_set(value: &mut JsonValue, key: &str, v: JsonValue)
    ensures
        match old(value)@ {
            Json::Object(m) => final(value)@ == Json::Object(set_member(m, key@, v@)),
            _ => final(value)@ == old(value)@,
        },
{
    match value {
        JsonValue::Object(m) => {
            proof {
                lemma_object_view(*m);
            }
            let ghost mv = old(value)@->Object_0;
            let ghost vview = v@;
            let mut k = String::new();
            k.append(key);
            match find_key(m, key) {
                Some(i) => {
                    proof {
                        assert(first_key_at(mv, key@, i as int));
                        lemma_set_member(mv, key@, vview, i as int);
                    }
                    m.set(i, (k, v));
                    proof {
                        lemma_object_view(*m);
                        assert(JsonValue::Object(*m)@->Object_0 =~= mv.update(i as int, (key@, vview)));
                    }
                },
                None => {
                    proof {
                        lemma_set_member(mv, key@, vview, 0);
                    }
                    m.push((k, v));
                    proof {
                        lemma_object_view(*m);
                        assert(JsonValue::Object(*m)@->Object_0 =~= mv.push((key@, vview)));
                    }
                },
            }
        },
        _ => {},
    }
}

/// The views of key-value pairs.
pub open spec fn pairs_view(s: Seq<(String, JsonValue)>) -> Seq<(Seq<char>, Json)> {
    s.map_values(|p: (String, JsonValue)| (p.0@, p.1@))
}

/// The object with the members `m`, in order.
pub fn object_of(m: Vec<(String, JsonValue)>) -> (r: JsonValue)
    ensures
        r@ == Json::Object(pairs_view(m@)),
{
    let ghost mv = m@;
    proof {
        lemma_object_view(m);
    }
    let r = JsonValue::Object(m);
    assert(r@->Object_0 =~= pairs_view(mv));
    r
}

/// The array with the elements `a`, in order.
pub fn array_of(a: Vec<JsonValue>) -> (r: JsonValue)
    ensures
        r@ == Json::Array(a@.map_values(|e: JsonValue| e@)),
{
    proof {
        lemma_array_view(a);
    }
    JsonValue::Array(a)
}

/// A JSON string with the characters of `s`.
pub fn string_value(s: &str) -> (r: JsonValue)
    ensures
        r@ == Json::Str(s@),
{
    JsonValue::String(owned(s))
}

/// The JSON strings of a list of string slices, in order.
pub open spec fn strings_view(items: Seq<&str>) -> Seq<Json> {
    items.map_values(|s: &str| Json::Str(s@))
}

/// An array of the strings `items`, in order.
pub fn string_array(items: &[&str]) -> (r: JsonValue)
    ensures
        r@ == Json::Array(strings_view(items@)),
{
    let mut out: Vec<JsonValue> = Vec::new();
    let mut i: usize = 0;
    while i < items.len()
        invariant
            i <= items@.len(),
            out@.len() == i,
            forall|j: int| 0 <= j < i ==> (#[trigger] out@[j])@ == Json::Str(items@[j]@),
        decreases items@.len() - i,
    {
        out.push(string_value(items[i]));
        i = i + 1;
    }
    let ghost ov = out@;
    let r = array_of(out);
    assert(ov.map_values(|e: JsonValue| e@) =~= strings_view(items@));
    r
}

} // verus!

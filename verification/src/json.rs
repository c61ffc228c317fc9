//! The JSON document model that requests and responses are read and built in.
use vstd::prelude::*;

use crate::text::{decimal, decimal_string};

verus! {

/// A JSON value.
///
/// Objects keep their members in the order in which they were read or
/// written; a lookup by key finds the first member with that key.
/// A number is kept as the text of its literal.
#[derive(Debug)]
pub enum Json {
    Null,
    Bool(bool),
    Number(String),
    Str(String),
    Array(Vec<Json>),
    Object(Vec<(String, Json)>),
}

/// The value of the first member of `members` whose key is `key`.
pub open spec fn member(members: Seq<(String, Json)>, key: Seq<char>) -> Option<Json>
    decreases members.len(),
{
    if members.len() == 0 {
        None
    } else if members[0].0@ == key {
        Some(members[0].1)
    } else {
        member(members.drop_first(), key)
    }
}

/// The index of the first member of `members` whose key is `key`.
pub fn find_member(members: &Vec<(String, Json)>, key: &str) -> (r: Option<usize>)
    ensures
        match r {
            Some(i) => i < members@.len() && members@[i as int].0@ == key@ && member(members@, key@)
                == Some(members@[i as int].1),
            None => member(members@, key@) is None,
        },
{
    let wanted = key.to_owned();
    let mut i: usize = 0;
    assert(members@.skip(0) =~= members@);
    while i < members.len()
        invariant
            i <= members@.len(),
            wanted@ == key@,
            member(members@, key@) == member(members@.skip(i as int), key@),
        decreases members@.len() - i,
    {
        assert(members@.skip(i as int).drop_first() =~= members@.skip(i + 1));
        if members[i].0 == wanted {
            return Some(i);
        }
        i = i + 1;
    }
    None
}

/// The text of a string value found at member `key`, if there is one.
pub open spec fn text_member(members: Seq<(String, Json)>, key: Seq<char>) -> Option<Seq<char>> {
    match member(members, key) {
        Some(Json::Str(s)) => Some(s@),
        _ => None,
    }
}

/// A copy of the string held at member `key` of `members`, when that member is a string.
pub fn text_at(members: &Vec<(String, Json)>, key: &str) -> (r: Option<String>)
    ensures
        match r {
            Some(s) => text_member(members@, key@) == Some(s@),
            None => text_member(members@, key@) is None,
        },
{
    match find_member(members, key) {
        Some(i) => match &members[i].1 {
            Json::Str(s) => Some(s.clone()),
            _ => None,
        },
        None => None,
    }
}

} // verus!

verus! {

/// A JSON value with its strings taken by their characters.
#[verifier::ext_equal]
pub enum JsonView {
    Null,
    Bool(bool),
    Number(Seq<char>),
    Str(Seq<char>),
    Array(Seq<JsonView>),
    Object(Seq<(Seq<char>, JsonView)>),
}

/// The view of a JSON value.
pub open spec fn json_view(j: Json) -> JsonView
    decreases j,
{
    match j {
        Json::Null => JsonView::Null,
        Json::Bool(b) => JsonView::Bool(b),
        Json::Number(n) => JsonView::Number(n@),
        Json::Str(s) => JsonView::Str(s@),
        Json::Array(a) => JsonView::Array(
            Seq::new(a@.len(), |i: int| if 0 <= i < a@.len() { json_view(a@[i]) } else { JsonView::Null }),
        ),
        Json::Object(m) => JsonView::Object(
            Seq::new(
                m@.len(),
                |i: int| if 0 <= i < m@.len() { (m@[i].0@, json_view(m@[i].1)) } else { (Seq::empty(), JsonView::Null) },
            ),
        ),
    }
}

} // verus!

verus! {

impl View for Json {
    type V = JsonView;

    open spec fn view(&self) -> JsonView {
        json_view(*self)
    }
}

/// The view of an object's members.
pub open spec fn members_view(m: Seq<(String, Json)>) -> Seq<(Seq<char>, JsonView)> {
    Seq::new(m.len(), |i: int| (m[i].0@, json_view(m[i].1)))
}

/// The view of an array of strings.
pub open spec fn strings_view(v: Seq<String>) -> Seq<JsonView> {
    Seq::new(v.len(), |i: int| JsonView::Str(v[i]@))
}

/// A member `key` holding the string `v`, when there is one.
pub open spec fn opt_str_member(key: Seq<char>, v: Option<String>) -> Seq<(Seq<char>, JsonView)> {
    match v {
        Some(s) => seq![(key, JsonView::Str(s@))],
        None => Seq::empty(),
    }
}

/// A member `key` holding the number `v`, when there is one.
pub open spec fn opt_u32_member(key: Seq<char>, v: Option<u32>) -> Seq<(Seq<char>, JsonView)> {
    match v {
        Some(n) => seq![(key, JsonView::Number(decimal(n as nat)))],
        None => Seq::empty(),
    }
}

/// A member `key` holding the boolean `v`, when there is one.
pub open spec fn opt_bool_member(key: Seq<char>, v: Option<bool>) -> Seq<(Seq<char>, JsonView)> {
    match v {
        Some(b) => seq![(key, JsonView::Bool(b))],
        None => Seq::empty(),
    }
}

/// A member `key` holding the array of strings `v`, when there is one.
pub open spec fn opt_strs_member(key: Seq<char>, v: Option<Vec<String>>) -> Seq<(Seq<char>, JsonView)> {
    match v {
        Some(a) => seq![(key, JsonView::Array(strings_view(a@)))],
        None => Seq::empty(),
    }
}

/// A member `key` holding the document `v`, when there is one.
pub open spec fn opt_json_member(key: Seq<char>, v: Option<Json>) -> Seq<(Seq<char>, JsonView)> {
    match v {
        Some(j) => seq![(key, j@)],
        None => Seq::empty(),
    }
}

/// The JSON string array of `v`.
pub fn strings_json(v: Vec<String>) -> (j: Json)
    ensures
        j@ == JsonView::Array(strings_view(v@)),
{
    let mut out: Vec<Json> = Vec::new();
    let ghost orig = v@;
    for s in it: v.into_iter()
        invariant
            it.seq() == orig,
            out@.len() == it.index(),
            forall|i: int| 0 <= i < it.index() ==> json_view(#[trigger] out@[i]) == JsonView::Str(orig[i]@),
    {
        out.push(Json::Str(s));
    }
    let j = Json::Array(out);
    assert(out@.len() == orig.len());
    assert(json_view(j)->Array_0 =~= strings_view(orig));
    j
}

/// Adds member `key` holding `value` to an object's members.
pub fn push_member(m: &mut Vec<(String, Json)>, key: &str, value: Json)
    ensures
        members_view(final(m)@) == members_view(old(m)@).push((key@, value@)),
{
    m.push((key.to_owned(), value));
    assert(members_view(m@) =~= members_view(old(m)@).push((key@, value@)));
}

/// Adds member `key` holding the string `v`, when there is one.
pub fn push_opt_str(m: &mut Vec<(String, Json)>, key: &str, v: Option<String>)
    ensures
        members_view(final(m)@) == members_view(old(m)@) + opt_str_member(key@, v),
{
    match v {
        Some(s) => push_member(m, key, Json::Str(s)),
        None => {},
    }
    assert(members_view(m@) =~= members_view(old(m)@) + opt_str_member(key@, v));
}

/// Adds member `key` holding the number `v`, when there is one.
pub fn push_opt_u32(m: &mut Vec<(String, Json)>, key: &str, v: Option<u32>)
    ensures
        members_view(final(m)@) == members_view(old(m)@) + opt_u32_member(key@, v),
{
    match v {
        Some(n) => push_member(m, key, Json::Number(decimal_string(n as u64))),
        None => {},
    }
    assert(members_view(m@) =~= members_view(old(m)@) + opt_u32_member(key@, v));
}

/// Adds member `key` holding the boolean `v`, when there is one.
pub fn push_opt_bool(m: &mut Vec<(String, Json)>, key: &str, v: Option<bool>)
    ensures
        members_view(final(m)@) == members_view(old(m)@) + opt_bool_member(key@, v),
{
    match v {
        Some(b) => push_member(m, key, Json::Bool(b)),
        None => {},
    }
    assert(members_view(m@) =~= members_view(old(m)@) + opt_bool_member(key@, v));
}

/// Adds member `key` holding the array of strings `v`, when there is one.
pub fn push_opt_strs(m: &mut Vec<(String, Json)>, key: &str, v: Option<Vec<String>>)
    ensures
        members_view(final(m)@) == members_view(old(m)@) + opt_strs_member(key@, v),
{
    match v {
        Some(a) => push_member(m, key, strings_json(a)),
        None => {},
    }
    assert(members_view(m@) =~= members_view(old(m)@) + opt_strs_member(key@, v));
}

/// Adds member `key` holding the document `v`, when there is one.
pub fn push_opt_json(m: &mut Vec<(String, Json)>, key: &str, v: Option<Json>)
    ensures
        members_view(final(m)@) == members_view(old(m)@) + opt_json_member(key@, v),
{
    match v {
        Some(j) => push_member(m, key, j),
        None => {},
    }
    assert(members_view(m@) =~= members_view(old(m)@) + opt_json_member(key@, v));
}

/// The object with these members.
pub fn object(m: Vec<(String, Json)>) -> (j: Json)
    ensures
        j@ == JsonView::Object(members_view(m@)),
{
    let j = Json::Object(m);
    assert(json_view(j)->Object_0 =~= members_view(m@));
    j
}

} // verus!

verus! {

impl Json {
    /// A copy of this value.
    #[verifier::loop_isolation(false)]
    pub fn duplicate(&self) -> (r: Json)
        ensures
            r@ == self@,
        decreases self,
    {
        match self {
            Json::Null => Json::Null,
            Json::Bool(b) => Json::Bool(*b),
            Json::Number(n) => Json::Number(n.clone()),
            Json::Str(s) => Json::Str(s.clone()),
            Json::Array(a) => {
                let mut out: Vec<Json> = Vec::new();
                for i in 0..a.len()
                    invariant
                        out@.len() == i,
                        forall|k: int| 0 <= k < i ==> json_view(#[trigger] out@[k]) == json_view(a@[k]),
                {
                    proof {
                        vstd::std_specs::vec::axiom_vec_index_decreases(*a, i as int);
                        assert(decreases_to!(*self => self->Array_0));
                    }
                    out.push(a[i].duplicate());
                }
                let r = Json::Array(out);
                assert(json_view(r)->Array_0 =~= json_view(*self)->Array_0);
                r
            },
            Json::Object(m) => {
                let mut out: Vec<(String, Json)> = Vec::new();
                for i in 0..m.len()
                    invariant
                        out@.len() == i,
                        forall|k: int| 0 <= k < i ==> (#[trigger] out@[k]).0@ == m@[k].0@ && json_view(out@[k].1) == json_view(m@[k].1),
                {
                    proof {
                        vstd::std_specs::vec::axiom_vec_index_decreases(*m, i as int);
                        assert(decreases_to!(*self => self->Object_0));
                        assert(decreases_to!(m@[i as int] => m@[i as int].1));
                    }
                    out.push((m[i].0.clone(), m[i].1.duplicate()));
                }
                let r = Json::Object(out);
                assert(json_view(r)->Object_0 =~= json_view(*self)->Object_0);
                r
            },
        }
    }
}

impl Clone for Json {
    fn clone(&self) -> (r: Json)
        ensures
            r@ == self@,
    {
        self.duplicate()
    }
}

} // verus!

verus! {

/// The value of the first member of `members` named `key`.
pub open spec fn value_at(members: Seq<(Seq<char>, JsonView)>, key: Seq<char>) -> Option<JsonView>
    decreases members.len(),
{
    if members.len() == 0 {
        None
    } else if members[0].0 == key {
        Some(members[0].1)
    } else {
        value_at(members.drop_first(), key)
    }
}

/// The value under `key` in the JSON object `j`; none for any other value.
pub open spec fn field_of(j: JsonView, key: Seq<char>) -> Option<JsonView> {
    match j {
        JsonView::Object(m) => value_at(m, key),
        _ => None,
    }
}

/// The number of members of the JSON object `j` (zero for any other value).
pub open spec fn member_count(j: JsonView) -> nat {
    match j {
        JsonView::Object(m) => m.len(),
        _ => 0,
    }
}

/// One when `o` is set, else zero.
pub open spec fn present<T>(o: Option<T>) -> nat {
    if o is Some {
        1
    } else {
        0
    }
}

/// The JSON array of the strings `v`, in order.
pub open spec fn string_array(v: Seq<String>) -> JsonView {
    JsonView::Array(Seq::new(v.len(), |i: int| JsonView::Str(v[i]@)))
}

/// The JSON string of an optional text.
pub open spec fn str_field(o: Option<String>) -> Option<JsonView> {
    match o {
        Some(s) => Some(JsonView::Str(s@)),
        None => None,
    }
}

/// The JSON number, in decimal, of an optional count.
pub open spec fn number_field(o: Option<u32>) -> Option<JsonView> {
    match o {
        Some(n) => Some(JsonView::Number(decimal(n as nat))),
        None => None,
    }
}

/// The JSON boolean of an optional flag.
pub open spec fn bool_field(o: Option<bool>) -> Option<JsonView> {
    match o {
        Some(b) => Some(JsonView::Bool(b)),
        None => None,
    }
}

/// The JSON array of an optional list of strings.
pub open spec fn strings_field(o: Option<Vec<String>>) -> Option<JsonView> {
    match o {
        Some(v) => Some(string_array(v@)),
        None => None,
    }
}

/// An optional JSON document.
pub open spec fn document_field(o: Option<Json>) -> Option<JsonView> {
    match o {
        Some(j) => Some(j@),
        None => None,
    }
}

/// Looking `key` up in two runs of members one after the other finds it in
/// the first, else in the second.
pub broadcast proof fn lemma_value_at_concat(
    a: Seq<(Seq<char>, JsonView)>,
    b: Seq<(Seq<char>, JsonView)>,
    key: Seq<char>,
)
    ensures
        #[trigger] value_at(a + b, key) == if value_at(a, key) is Some {
            value_at(a, key)
        } else {
            value_at(b, key)
        },
    decreases a.len(),
{
    if a.len() == 0 {
        assert(a + b =~= b);
    } else {
        assert((a + b).drop_first() =~= a.drop_first() + b);
        assert((a + b)[0] == a[0]);
        lemma_value_at_concat(a.drop_first(), b, key);
    }
}

/// Looking `key` up in a single member.
pub broadcast proof fn lemma_value_at_single(k: Seq<char>, v: JsonView, key: Seq<char>)
    ensures
        #[trigger] value_at(seq![(k, v)], key) == if k == key {
            Some(v)
        } else {
            None
        },
{
    let s = seq![(k, v)];
    assert(s.drop_first() =~= Seq::<(Seq<char>, JsonView)>::empty());
    assert(s[0] == (k, v));
    assert(value_at(Seq::<(Seq<char>, JsonView)>::empty(), key) is None);
}

/// The member for an optional text: present only when it is set.
pub broadcast proof fn lemma_opt_str_member(k: Seq<char>, o: Option<String>)
    ensures
        (#[trigger] opt_str_member(k, o)).len() == present(o),
        forall|key: Seq<char>|
            #[trigger] value_at(opt_str_member(k, o), key) == if k == key {
                str_field(o)
            } else {
                None
            },
{
    broadcast use lemma_value_at_single;
}

/// The member for an optional count: present only when it is set.
pub broadcast proof fn lemma_opt_u32_member(k: Seq<char>, o: Option<u32>)
    ensures
        (#[trigger] opt_u32_member(k, o)).len() == present(o),
        forall|key: Seq<char>|
            #[trigger] value_at(opt_u32_member(k, o), key) == if k == key {
                number_field(o)
            } else {
                None
            },
{
    broadcast use lemma_value_at_single;
}

/// The member for an optional flag: present only when it is set.
pub broadcast proof fn lemma_opt_bool_member(k: Seq<char>, o: Option<bool>)
    ensures
        (#[trigger] opt_bool_member(k, o)).len() == present(o),
        forall|key: Seq<char>|
            #[trigger] value_at(opt_bool_member(k, o), key) == if k == key {
                bool_field(o)
            } else {
                None
            },
{
    broadcast use lemma_value_at_single;
}

/// The member for an optional list of strings: present only when it is set.
pub broadcast proof fn lemma_opt_strs_member(k: Seq<char>, o: Option<Vec<String>>)
    ensures
        (#[trigger] opt_strs_member(k, o)).len() == present(o),
        forall|key: Seq<char>|
            #[trigger] value_at(opt_strs_member(k, o), key) == if k == key {
                strings_field(o)
            } else {
                None
            },
{
    broadcast use lemma_value_at_single;

    if let Some(v) = o {
        assert(JsonView::Array(strings_view(v@)) =~= string_array(v@));
    }
}

/// The member for an optional document: present only when it is set.
pub broadcast proof fn lemma_opt_json_member(k: Seq<char>, o: Option<Json>)
    ensures
        (#[trigger] opt_json_member(k, o)).len() == present(o),
        forall|key: Seq<char>|
            #[trigger] value_at(opt_json_member(k, o), key) == if k == key {
                document_field(o)
            } else {
                None
            },
{
    broadcast use lemma_value_at_single;
}

/// A list of strings is sent as the array of those strings.
pub broadcast proof fn lemma_strings_view(v: Seq<String>)
    ensures
        JsonView::Array(#[trigger] strings_view(v)) == string_array(v),
{
    assert(JsonView::Array(strings_view(v)) =~= string_array(v));
}

/// What is needed to read fields back out of a body built from members.
pub broadcast group group_field_lookup {
    lemma_value_at_concat,
    lemma_value_at_single,
    lemma_opt_str_member,
    lemma_opt_u32_member,
    lemma_opt_bool_member,
    lemma_opt_strs_member,
    lemma_opt_json_member,
    lemma_strings_view,
}

} // verus!

//! A JSON value held as plain data, with its mathematical model.

use vstd::prelude::*;
use crate::text::str_eq;

verus! {

/// A JSON document.
///
/// A number is held as `Int` where it is an integer that fits `i64`, as
/// `UInt` where it is an integer above `i64::MAX`, and otherwise as `Float`,
/// by its decimal text. A `Float` whose text is no JSON number is written as
/// `null`.
///
/// An object keeps its members in order. Where a key occurs more than once
/// the last occurrence is the member's value.
#[derive(Debug)]
pub enum Json {
    Null,
    Bool(bool),
    Int(i64),
    UInt(u64),
    Float(String),
    Str(String),
    Array(Vec<Json>),
    Object(Vec<(String, Json)>),
}

/// The model of a [`Json`] document.
pub ghost enum JsonValue {
    Null,
    Bool(bool),
    Int(int),
    UInt(int),
    Float(Seq<char>),
    Str(Seq<char>),
    Array(Seq<JsonValue>),
    Object(Seq<(Seq<char>, JsonValue)>),
}

/// The models of a sequence of documents, in order.
pub open spec fn items_view(items: Seq<Json>) -> Seq<JsonValue>
    decreases items, 0int,
{
    if items.len() == 0 {
        Seq::empty()
    } else {
        items_view(items.drop_last()).push(json_view(items.last()))
    }
}

/// The models of a sequence of members, in order.
pub open spec fn members_view(members: Seq<(String, Json)>) -> Seq<(Seq<char>, JsonValue)>
    decreases members, 0int,
{
    if members.len() == 0 {
        Seq::empty()
    } else {
        members_view(members.drop_last()).push(
            (members.last().0@, json_view(members.last().1)),
        )
    }
}

/// The model of one document.
pub open spec fn json_view(j: Json) -> JsonValue
    decreases j, 1int,
{
    match j {
        Json::Null => JsonValue::Null,
        Json::Bool(b) => JsonValue::Bool(b),
        Json::Int(i) => JsonValue::Int(i as int),
        Json::UInt(u) => JsonValue::UInt(u as int),
        Json::Float(text) => JsonValue::Float(text@),
        Json::Str(s) => JsonValue::Str(s@),
        Json::Array(items) => JsonValue::Array(items_view(items@)),
        Json::Object(members) => JsonValue::Object(members_view(members@)),
    }
}

impl View for Json {
    type V = JsonValue;

    open spec fn view(&self) -> JsonValue {
        json_view(*self)
    }
}

impl DeepView for Json {
    type V = JsonValue;

    open spec fn deep_view(&self) -> JsonValue {
        json_view(*self)
    }
}

/// The value that an object's members give a key: that of the key's last
/// occurrence.
pub open spec fn lookup(members: Seq<(Seq<char>, JsonValue)>, key: Seq<char>) -> Option<JsonValue>
    decreases members.len(),
{
    if members.len() == 0 {
        None
    } else if members.last().0 == key {
        Some(members.last().1)
    } else {
        lookup(members.drop_last(), key)
    }
}

impl JsonValue {
    /// The member of an object under `key`; `None` for what is no object.
    pub open spec fn field(self, key: Seq<char>) -> Option<JsonValue> {
        match self {
            JsonValue::Object(members) => lookup(members, key),
            _ => None,
        }
    }

    /// The characters of a string; `None` for what is no string.
    pub open spec fn as_text(self) -> Option<Seq<char>> {
        match self {
            JsonValue::Str(s) => Some(s),
            _ => None,
        }
    }

    /// The number as a signed 64-bit integer, where it is one.
    pub open spec fn as_integer(self) -> Option<int> {
        match self {
            JsonValue::Int(i) => Some(i),
            JsonValue::UInt(u) => if u <= i64::MAX {
                Some(u)
            } else {
                None
            },
            _ => None,
        }
    }

    /// The truth value of a boolean; `None` for what is none.
    pub open spec fn as_flag(self) -> Option<bool> {
        match self {
            JsonValue::Bool(b) => Some(b),
            _ => None,
        }
    }
}

/// `members` with one more member at the end where `value` is present.
pub open spec fn push_optional(
    members: Seq<(Seq<char>, JsonValue)>,
    key: Seq<char>,
    value: Option<JsonValue>,
) -> Seq<(Seq<char>, JsonValue)> {
    match value {
        Some(v) => members.push((key, v)),
        None => members,
    }
}

/// The member under `key`, taking an absent member and `null` alike as
/// `None`.
pub open spec fn optional_field(doc: JsonValue, key: Seq<char>) -> Option<JsonValue> {
    match doc.field(key) {
        Some(v) => if v == JsonValue::Null {
            None
        } else {
            Some(v)
        },
        None => None,
    }
}

/// The characters of the string member under `key`; `None` where the member
/// is absent or no string.
pub open spec fn text_field(doc: JsonValue, key: Seq<char>) -> Option<Seq<char>> {
    match doc.field(key) {
        Some(v) => v.as_text(),
        None => None,
    }
}

/// The models of a sequence of members stand at the members' places.
pub proof fn lemma_members_view(members: Seq<(String, Json)>)
    ensures
        members_view(members).len() == members.len(),
        forall|i: int|
            0 <= i < members.len() ==> #[trigger] members_view(members)[i] == (
                members[i].0@,
                members[i].1@,
            ),
    decreases members.len(),
{
    if members.len() > 0 {
        lemma_members_view(members.drop_last());
    }
}

/// A key that none of the members from `from` on carries is looked up among
/// the members before `from`.
pub proof fn lemma_lookup_skips(members: Seq<(Seq<char>, JsonValue)>, key: Seq<char>, from: int)
    requires
        0 <= from <= members.len(),
        forall|i: int| from <= i < members.len() ==> members[i].0 != key,
    ensures
        lookup(members, key) == lookup(members.take(from), key),
    decreases members.len(),
{
    if from == members.len() {
        assert(members.take(from) == members);
    } else {
        lemma_lookup_skips(members.drop_last(), key, from);
        assert(members.drop_last().take(from) == members.take(from));
    }
}

/// Looking a key up after one more member was added: the new member where it
/// carries the key, else what the members before give.
pub proof fn lemma_lookup_push(
    members: Seq<(Seq<char>, JsonValue)>,
    key: Seq<char>,
    value: JsonValue,
    wanted: Seq<char>,
)
    ensures
        lookup(members.push((key, value)), wanted) == if key == wanted {
            Some(value)
        } else {
            lookup(members, wanted)
        },
{
    assert(members.push((key, value)).drop_last() == members);
}

/// Looking a key up after an optional member was added.
pub proof fn lemma_lookup_push_optional(
    members: Seq<(Seq<char>, JsonValue)>,
    key: Seq<char>,
    value: Option<JsonValue>,
    wanted: Seq<char>,
)
    ensures
        lookup(push_optional(members, key, value), wanted) == if value is Some && key == wanted {
            value
        } else {
            lookup(members, wanted)
        },
{
    if value is Some {
        lemma_lookup_push(members, key, value->0, wanted);
    }
}

/// Looking a key up among one member.
pub proof fn lemma_lookup_one(key: Seq<char>, value: JsonValue, wanted: Seq<char>)
    ensures
        lookup(seq![(key, value)], wanted) == if key == wanted {
            Some(value)
        } else {
            None::<JsonValue>
        },
{
    let none = Seq::<(Seq<char>, JsonValue)>::empty();
    assert(seq![(key, value)] =~= none.push((key, value)));
    lemma_lookup_push(none, key, value, wanted);
}

/// Looking a key up among two members.
pub proof fn lemma_lookup_two(
    k0: Seq<char>,
    v0: JsonValue,
    k1: Seq<char>,
    v1: JsonValue,
    wanted: Seq<char>,
)
    ensures
        lookup(seq![(k0, v0), (k1, v1)], wanted) == if k1 == wanted {
            Some(v1)
        } else if k0 == wanted {
            Some(v0)
        } else {
            None::<JsonValue>
        },
{
    assert(seq![(k0, v0), (k1, v1)] =~= seq![(k0, v0)].push((k1, v1)));
    lemma_lookup_push(seq![(k0, v0)], k1, v1, wanted);
    lemma_lookup_one(k0, v0, wanted);
}

/// The value that `members` give `key`: that of the key's last occurrence.
#[verifier::loop_isolation(false)]
pub fn find_member<'a>(members: &'a Vec<(String, Json)>, key: &str) -> (r: Option<&'a Json>)
    ensures
        r.deep_view() == lookup(members_view(members@), key@),
{
    proof {
        lemma_members_view(members@);
    }
    let mut i: usize = members.len();
    while i > 0
        invariant
            i <= members.len(),
            forall|k: int| i <= k < members.len() ==> members_view(members@)[k].0 != key@,
        decreases i,
    {
        i -= 1;
        if str_eq(members[i].0.as_str(), key) {
            proof {
                let view = members_view(members@);
                lemma_lookup_skips(view, key@, i as int + 1);
                assert(view.take(i as int + 1).last() == view[i as int]);
            }
            return Some(&members[i].1);
        }
    }
    proof {
        let view = members_view(members@);
        lemma_lookup_skips(view, key@, 0);
        assert(view.take(0).len() == 0);
    }
    None
}

impl Json {
    /// A string document holding the characters of `s`.
    pub fn text(s: &str) -> (r: Json)
        ensures
            r@ == JsonValue::Str(s@),
    {
        Json::Str(s.to_string())
    }

    /// The member of an object under `key`, if this is an object that has
    /// one.
    pub fn get(&self, key: &str) -> (r: Option<&Json>)
        ensures
            match r {
                Some(j) => self@.field(key@) == Some(j@),
                None => self@.field(key@) is None,
            },
    {
        match self {
            Json::Object(members) => find_member(members, key),
            _ => None,
        }
    }

    /// The characters of a string document.
    pub fn as_str(&self) -> (r: Option<&str>)
        ensures
            match r {
                Some(s) => self@.as_text() == Some(s@),
                None => self@.as_text() is None,
            },
    {
        match self {
            Json::Str(s) => Some(s.as_str()),
            _ => None,
        }
    }

    /// The number as a signed 64-bit integer, where it is one.
    pub fn as_i64(&self) -> (r: Option<i64>)
        ensures
            match r {
                Some(i) => self@.as_integer() == Some(i as int),
                None => self@.as_integer() is None,
            },
    {
        match self {
            Json::Int(i) => Some(*i),
            Json::UInt(u) => if *u <= 0x7fff_ffff_ffff_ffffu64 {
                Some(*u as i64)
            } else {
                None
            },
            _ => None,
        }
    }

    /// The truth value of a boolean document.
    pub fn as_bool(&self) -> (r: Option<bool>)
        ensures
            match r {
                Some(b) => self@.as_flag() == Some(b),
                None => self@.as_flag() is None,
            },
    {
        match self {
            Json::Bool(b) => Some(*b),
            _ => None,
        }
    }

    /// Whether the document is `null`.
    pub fn is_null(&self) -> (r: bool)
        ensures
            r == (self@ == JsonValue::Null),
    {
        match self {
            Json::Null => true,
            _ => false,
        }
    }

    /// Whether the document is an object.
    pub fn is_object(&self) -> (r: bool)
        ensures
            r == (self@ is Object),
    {
        match self {
            Json::Object(_) => true,
            _ => false,
        }
    }

    /// The member under `key`, taking an absent member and `null` alike as
    /// `None`.
    pub fn get_optional(&self, key: &str) -> (r: Option<&Json>)
        ensures
            r.deep_view() == optional_field(self@, key@),
    {
        match self.get(key) {
            Some(v) => if v.is_null() {
                None
            } else {
                Some(v)
            },
            None => None,
        }
    }

    /// The characters of the string member under `key`.
    pub fn get_str(&self, key: &str) -> (r: Option<&str>)
        ensures
            match r {
                Some(s) => text_field(self@, key@) == Some(s@),
                None => text_field(self@, key@) is None,
            },
    {
        match self.get(key) {
            Some(v) => v.as_str(),
            None => None,
        }
    }

    /// A copy of the document.
    #[verifier::loop_isolation(false)]
    pub fn duplicate(&self) -> (r: Json)
        ensures
            r@ == self@,
        decreases self,
    {
        match self {
            Json::Null => Json::Null,
            Json::Bool(b) => Json::Bool(*b),
            Json::Int(i) => Json::Int(*i),
            Json::UInt(u) => Json::UInt(*u),
            Json::Float(text) => Json::Float(text.clone()),
            Json::Str(s) => Json::Str(s.clone()),
            Json::Array(items) => {
                let mut out: Vec<Json> = Vec::new();
                let mut i: usize = 0;
                while i < items.len()
                    invariant
                        i <= items.len(),
                        items_view(out@) == items_view(items@.take(i as int)),
                    decreases items.len() - i,
                {
                    let copy = items[i].duplicate();
                    proof {
                        assert(items@.take(i as int + 1).drop_last() == items@.take(i as int));
                        assert(out@.push(copy).drop_last() == out@);
                    }
                    out.push(copy);
                    i += 1;
                }
                proof {
                    assert(items@.take(items.len() as int) == items@);
                }
                Json::Array(out)
            },
            Json::Object(members) => {
                let mut out: Vec<(String, Json)> = Vec::new();
                let mut i: usize = 0;
                while i < members.len()
                    invariant
                        i <= members.len(),
                        members_view(out@) == members_view(members@.take(i as int)),
                    decreases members.len() - i,
                {
                    let key = members[i].0.clone();
                    let value = members[i].1.duplicate();
                    proof {
                        assert(members@.take(i as int + 1).drop_last() == members@.take(i as int));
                        assert(out@.push((key, value)).drop_last() == out@);
                    }
                    out.push((key, value));
                    i += 1;
                }
                proof {
                    assert(members@.take(members.len() as int) == members@);
                }
                Json::Object(out)
            },
        }
    }
}

impl Clone for Json {
    fn clone(&self) -> (r: Json)
        ensures
            r@ == self@,
    {
        self.duplicate()
    }
}

/// A copy of an optional document.
pub fn cloned_part(part: &Option<Json>) -> (r: Option<Json>)
    ensures
        r.deep_view() == part.deep_view(),
{
    match part {
        Some(v) => Some(v.clone()),
        None => None,
    }
}

/// An optional document of its own, copied from a borrowed one.
pub fn owned_part(part: Option<&Json>) -> (r: Option<Json>)
    ensures
        r.deep_view() == part.deep_view(),
{
    match part {
        Some(v) => Some(v.clone()),
        None => None,
    }
}

/// The items of an array under construction.
pub struct ArrayBuilder {
    items: Vec<Json>,
}

impl View for ArrayBuilder {
    type V = Seq<JsonValue>;

    closed spec fn view(&self) -> Seq<JsonValue> {
        items_view(self.items@)
    }
}

impl ArrayBuilder {
    /// No items yet.
    pub fn new() -> (r: ArrayBuilder)
        ensures
            r@ == Seq::<JsonValue>::empty(),
    {
        ArrayBuilder { items: Vec::new() }
    }

    /// Adds an item at the end.
    pub fn push(&mut self, value: Json)
        ensures
            final(self)@ == old(self)@.push(value@),
    {
        proof {
            assert(self.items@.push(value).drop_last() == self.items@);
        }
        self.items.push(value);
    }

    /// The array of the items added so far.
    pub fn finish(self) -> (r: Json)
        ensures
            r@ == JsonValue::Array(self@),
    {
        Json::Array(self.items)
    }
}

/// The members of an object under construction.
pub struct ObjectBuilder {
    members: Vec<(String, Json)>,
}

impl View for ObjectBuilder {
    type V = Seq<(Seq<char>, JsonValue)>;

    closed spec fn view(&self) -> Seq<(Seq<char>, JsonValue)> {
        members_view(self.members@)
    }
}

impl ObjectBuilder {
    /// No members yet.
    pub fn new() -> (r: ObjectBuilder)
        ensures
            r@ == Seq::<(Seq<char>, JsonValue)>::empty(),
    {
        ObjectBuilder { members: Vec::new() }
    }

    /// Adds a member at the end.
    pub fn put(&mut self, key: &str, value: Json)
        ensures
            final(self)@ == old(self)@.push((key@, value@)),
    {
        let owned = key.to_string();
        proof {
            assert(self.members@.push((owned, value)).drop_last() == self.members@);
        }
        self.members.push((owned, value));
    }

    /// Adds a member at the end where `value` is present.
    pub fn put_optional(&mut self, key: &str, value: Option<Json>)
        ensures
            final(self)@ == push_optional(old(self)@, key@, value.deep_view()),
    {
        match value {
            Some(v) => self.put(key, v),
            None => {},
        }
    }

    /// The object of the members added so far.
    pub fn finish(self) -> (r: Json)
        ensures
            r@ == JsonValue::Object(self@),
    {
        Json::Object(self.members)
    }
}

} // verus!

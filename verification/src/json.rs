//! JSON values as plain data, and their mathematical model.

use vstd::prelude::*;

verus! {

/// A JSON number.
#[derive(Debug, PartialEq, Eq)]
pub enum Number {
    /// An integer that fits in `i64`.
    Int(i64),
    /// An integer that fits in `u64`.
    Uint(u64),
    /// Any other number, by its decimal text, such as `1.5` or `1e-7`. Text
    /// that spells no finite number is written as null.
    Real(String),
}

/// A JSON value.
#[derive(Debug, PartialEq, Eq)]
pub enum Json {
    Null,
    Bool(bool),
    Number(Number),
    String(String),
    Array(Vec<Json>),
    Object(Vec<Member>),
}

/// One `key: value` entry of a JSON object.
#[derive(Debug, PartialEq, Eq)]
pub struct Member {
    pub key: String,
    pub value: Json,
}

/// What a [`Number`] denotes.
pub ghost enum NumberValue {
    Int(int),
    Real(Seq<char>),
}

/// What a [`Json`] denotes: an object is a finite map from keys to values.
pub ghost enum JsonValue {
    Null,
    Bool(bool),
    Number(NumberValue),
    String(Seq<char>),
    Array(Seq<JsonValue>),
    Object(Map<Seq<char>, JsonValue>),
}

impl View for Number {
    type V = NumberValue;

    open spec fn view(&self) -> NumberValue {
        match self {
            Number::Int(i) => NumberValue::Int(*i as int),
            Number::Uint(u) => NumberValue::Int(*u as int),
            Number::Real(text) => NumberValue::Real(text@),
        }
    }
}

/// The values of `items`, in order.
pub open spec fn items_view(items: Seq<Json>) -> Seq<JsonValue>
    decreases items,
{
    if items.len() == 0 {
        Seq::empty()
    } else {
        items_view(items.drop_last()).push(items.last().view())
    }
}

/// The map that `members` spell out; of two entries with one key the later stands.
pub open spec fn members_view(members: Seq<Member>) -> Map<Seq<char>, JsonValue>
    decreases members,
{
    if members.len() == 0 {
        Map::empty()
    } else {
        members_view(members.drop_last()).insert(members.last().key@, members.last().value.view())
    }
}

impl View for Json {
    type V = JsonValue;

    open spec fn view(&self) -> JsonValue
        decreases self,
    {
        match self {
            Json::Null => JsonValue::Null,
            Json::Bool(b) => JsonValue::Bool(*b),
            Json::Number(n) => JsonValue::Number(n@),
            Json::String(s) => JsonValue::String(s@),
            Json::Array(items) => JsonValue::Array(items_view(items@)),
            Json::Object(members) => JsonValue::Object(members_view(members@)),
        }
    }
}

/// Appending one item appends its value.
pub proof fn lemma_items_view_push(items: Seq<Json>, item: Json)
    ensures
        items_view(items.push(item)) == items_view(items).push(item@),
{
    assert(items.push(item).drop_last() =~= items);
}

/// Appending one member writes its value under its key.
pub proof fn lemma_members_view_push(members: Seq<Member>, member: Member)
    ensures
        members_view(members.push(member)) == members_view(members).insert(
            member.key@,
            member.value@,
        ),
{
    assert(members.push(member).drop_last() =~= members);
}

/// The items keep their number and their places.
pub proof fn lemma_items_view_index(items: Seq<Json>)
    ensures
        items_view(items).len() == items.len(),
        forall|i: int| 0 <= i < items.len() ==> #[trigger] items_view(items)[i] == items[i]@,
    decreases items.len(),
{
    if items.len() > 0 {
        lemma_items_view_index(items.drop_last());
        assert(items_view(items) == items_view(items.drop_last()).push(items.last()@));
    } else {
        assert(items_view(items) == Seq::<JsonValue>::empty());
    }
}

/// A key that no member from `from` on carries stands as the members before
/// `from` left it.
pub proof fn lemma_members_view_skip(members: Seq<Member>, from: int, key: Seq<char>)
    requires
        0 <= from <= members.len(),
        forall|k: int| from <= k < members.len() ==> (#[trigger] members[k]).key@ != key,
    ensures
        members_view(members).contains_key(key) == members_view(
            members.take(from),
        ).contains_key(key),
        members_view(members).contains_key(key) ==> members_view(members)[key] == members_view(
            members.take(from),
        )[key],
    decreases members.len() - from,
{
    if from == members.len() {
        assert(members.take(from) =~= members);
    } else {
        let shorter = members.drop_last();
        assert(members[members.len() - 1].key@ != key);
        assert(members_view(members) == members_view(shorter).insert(
            members.last().key@,
            members.last().value@,
        ));
        assert(shorter.take(from) =~= members.take(from));
        assert forall|k: int| from <= k < shorter.len() implies (#[trigger] shorter[k]).key@
            != key by {
            assert(shorter[k] == members[k]);
        }
        lemma_members_view_skip(shorter, from, key);
    }
}

/// Appends the member `key: value`, which replaces what stood under `key`.
pub fn put(members: &mut Vec<Member>, key: &str, value: Json)
    ensures
        members_view(final(members)@) == members_view(old(members)@).insert(key@, value@),
{
    let member = Member { key: String::from_str(key), value };
    proof {
        lemma_members_view_push(members@, member);
    }
    members.push(member);
}

/// Whether `text` reads `word`.
pub fn reads(text: &String, word: &str) -> (r: bool)
    ensures
        r == (text@ == word@),
{
    *text == String::from_str(word)
}

impl Number {
    /// A copy that denotes the same number.
    pub fn duplicate(&self) -> (copy: Number)
        ensures
            copy@ == self@,
    {
        match self {
            Number::Int(i) => Number::Int(*i),
            Number::Uint(u) => Number::Uint(*u),
            Number::Real(text) => Number::Real(text.clone()),
        }
    }

    /// The number as an `i64`, where it is an integer in that range.
    pub fn as_i64(&self) -> (r: Option<i64>)
        ensures
            r == self@.as_i64(),
    {
        match self {
            Number::Int(i) => Some(*i),
            Number::Uint(u) => if *u <= 0x7fff_ffff_ffff_ffff {
                Some(*u as i64)
            } else {
                None
            },
            Number::Real(_) => None,
        }
    }
}

impl NumberValue {
    /// The number as an `i64`, where it is an integer in that range.
    pub open spec fn as_i64(self) -> Option<i64> {
        match self {
            NumberValue::Int(i) => if i64::MIN <= i <= i64::MAX {
                Some(i as i64)
            } else {
                None
            },
            NumberValue::Real(_) => None,
        }
    }
}

impl JsonValue {
    /// The member under `key`, where this is an object that has one.
    pub open spec fn get(self, key: Seq<char>) -> Option<JsonValue> {
        match self {
            JsonValue::Object(members) => if members.contains_key(key) {
                Some(members[key])
            } else {
                None
            },
            _ => None,
        }
    }
}

impl Json {
    /// The member under `key`, where this is an object that has one.
    pub fn get(&self, key: &str) -> (r: Option<&Json>)
        ensures
            r matches Some(found) ==> self@.get(key@) == Some(found@),
            r is None ==> self@.get(key@) is None,
    {
        match self {
            Json::Object(members) => {
                let wanted = String::from_str(key);
                let mut i: usize = members.len();
                while i > 0
                    invariant
                        i <= members.len(),
                        wanted@ == key@,
                        self is Object,
                        self->Object_0 == *members,
                        forall|k: int|
                            i <= k < members.len() ==> (#[trigger] members@[k]).key@ != key@,
                    decreases i,
                {
                    i = i - 1;
                    if members[i].key == wanted {
                        proof {
                            let upto = members@.take(i + 1);
                            lemma_members_view_skip(members@, i + 1, key@);
                            assert(members_view(upto) == members_view(upto.drop_last()).insert(
                                key@,
                                members@[i as int].value@,
                            ));
                        }
                        return Some(&members[i].value);
                    }
                }
                proof {
                    lemma_members_view_skip(members@, 0, key@);
                    assert(members@.take(0) =~= Seq::<Member>::empty());
                }
                None
            },
            _ => None,
        }
    }

    /// A copy that denotes the same value.
    pub fn duplicate(&self) -> (copy: Json)
        ensures
            copy@ == self@,
        decreases self,
    {
        match self {
            Json::Null => Json::Null,
            Json::Bool(b) => Json::Bool(*b),
            Json::Number(n) => Json::Number(n.duplicate()),
            Json::String(s) => Json::String(s.clone()),
            Json::Array(items) => {
                let mut copies: Vec<Json> = Vec::new();
                let mut i: usize = 0;
                while i < items.len()
                    invariant
                        i <= items.len(),
                        self is Array,
                        self->Array_0 == *items,
                        items_view(copies@) == items_view(items@.take(i as int)),
                    decreases items.len() - i,
                {
                    assert(decreases_to!(*items => items[i as int]));
                    let copy = items[i].duplicate();
                    proof {
                        lemma_items_view_push(copies@, copy);
                        lemma_items_view_push(items@.take(i as int), items@[i as int]);
                        assert(items@.take(i as int).push(items@[i as int]) =~= items@.take(
                            i + 1,
                        ));
                    }
                    copies.push(copy);
                    i = i + 1;
                }
                proof {
                    assert(items@.take(i as int) =~= items@);
                }
                Json::Array(copies)
            },
            Json::Object(members) => {
                let mut copies: Vec<Member> = Vec::new();
                let mut i: usize = 0;
                while i < members.len()
                    invariant
                        i <= members.len(),
                        self is Object,
                        self->Object_0 == *members,
                        members_view(copies@) == members_view(members@.take(i as int)),
                    decreases members.len() - i,
                {
                    assert(decreases_to!(*members => members[i as int]));
                    let copy = Member {
                        key: members[i].key.clone(),
                        value: members[i].value.duplicate(),
                    };
                    proof {
                        lemma_members_view_push(copies@, copy);
                        lemma_members_view_push(members@.take(i as int), members@[i as int]);
                        assert(members@.take(i as int).push(members@[i as int])
                            =~= members@.take(i + 1));
                    }
                    copies.push(copy);
                    i = i + 1;
                }
                proof {
                    assert(members@.take(i as int) =~= members@);
                }
                Json::Object(copies)
            },
        }
    }
}

} // verus!

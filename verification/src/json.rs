//! JSON documents as plain data.
//!
//! An object is kept as the list of its members in the order in which they
//! were given. Looking a key up takes the last member of that name, which is
//! what inserting the members one by one into a map would leave.

use vstd::prelude::*;
use crate::keyed::{arranged, arranging_ignores_order, distinct_names, named_view, place};
use crate::text::same_text;

verus! {

/// A whole JSON number: unsigned, or below zero.
#[derive(Debug, Clone, Copy, PartialEq, Eq, Structural)]
pub enum Number {
    Unsigned(u64),
    Negative(i64),
}

/// A JSON document. A number with a fraction or an exponent is kept as
/// the text that writes it.
#[derive(Debug)]
pub enum Json {
    Null,
    Bool(bool),
    Number(Number),
    Real(String),
    Text(String),
    Array(Vec<Json>),
    Object(Vec<(String, Json)>),
}

/// The mathematical value of a [`Json`] document.
pub enum JsonV {
    Null,
    Bool(bool),
    Number(Number),
    Real(Seq<char>),
    Text(Seq<char>),
    Array(Seq<JsonV>),
    Object(Seq<(Seq<char>, JsonV)>),
}

pub type Members = Seq<(Seq<char>, JsonV)>;

impl View for Json {
    type V = JsonV;

    open spec fn view(&self) -> JsonV {
        self.model()
    }
}

impl Json {
    /// The value of the document, member by member.
    pub open spec fn model(&self) -> JsonV
        decreases self,
    {
        match self {
            Json::Null => JsonV::Null,
            Json::Bool(b) => JsonV::Bool(*b),
            Json::Number(n) => JsonV::Number(*n),
            Json::Real(s) => JsonV::Real(s@),
            Json::Text(s) => JsonV::Text(s@),
            Json::Array(items) => JsonV::Array(
                Seq::new(
                    items@.len(),
                    |i: int|
                        if 0 <= i < items@.len() {
                            items@[i].model()
                        } else {
                            JsonV::Null
                        },
                ),
            ),
            Json::Object(members) => JsonV::Object(
                Seq::new(
                    members@.len(),
                    |i: int|
                        if 0 <= i < members@.len() {
                            (members@[i].0@, members@[i].1.model())
                        } else {
                            (Seq::empty(), JsonV::Null)
                        },
                ),
            ),
        }
    }
}

/// The values of a list of documents.
pub open spec fn items_view(items: Seq<Json>) -> Seq<JsonV> {
    Seq::new(items.len(), |i: int| items[i]@)
}

/// The values of a list of members.
pub open spec fn members_view(members: Seq<(String, Json)>) -> Members {
    Seq::new(members.len(), |i: int| (members[i].0@, members[i].1@))
}

pub proof fn array_view(items: Vec<Json>)
    ensures
        Json::Array(items)@ == JsonV::Array(items_view(items@)),
{
    let shown = Json::Array(items)@;
    assert(shown is Array);
    assert forall|i: int| 0 <= i < items@.len() implies shown->Array_0[i] == items_view(items@)[i] by {}
    assert(shown->Array_0 =~= items_view(items@));
}

pub proof fn object_view(members: Vec<(String, Json)>)
    ensures
        Json::Object(members)@ == JsonV::Object(members_view(members@)),
{
    let shown = Json::Object(members)@;
    assert(shown is Object);
    assert forall|i: int| 0 <= i < members@.len() implies shown->Object_0[i] == members_view(
        members@,
    )[i] by {}
    assert(shown->Object_0 =~= members_view(members@));
}

/// The value under `key` in a member list: that of the last member so named.
pub open spec fn lookup(members: Members, key: Seq<char>) -> Option<JsonV>
    decreases members.len(),
{
    if members.len() == 0 {
        None
    } else if members.last().0 == key {
        Some(members.last().1)
    } else {
        lookup(members.drop_last(), key)
    }
}

impl JsonV {
    /// The member `key` of an object; `None` for anything else.
    pub open spec fn member(self, key: Seq<char>) -> Option<JsonV> {
        match self {
            JsonV::Object(members) => lookup(members, key),
            _ => None,
        }
    }

    pub open spec fn text(self) -> Option<Seq<char>> {
        match self {
            JsonV::Text(s) => Some(s),
            _ => None,
        }
    }

    pub open spec fn items(self) -> Option<Seq<JsonV>> {
        match self {
            JsonV::Array(items) => Some(items),
            _ => None,
        }
    }

    /// The number as an unsigned integer, where it is one.
    pub open spec fn unsigned(self) -> Option<u64> {
        match self {
            JsonV::Number(Number::Unsigned(n)) => Some(n),
            _ => None,
        }
    }

    /// The number as a signed integer, where it is one that fits.
    pub open spec fn signed(self) -> Option<i64> {
        match self {
            JsonV::Number(Number::Unsigned(n)) => if n <= i64::MAX {
                Some(n as i64)
            } else {
                None
            },
            JsonV::Number(Number::Negative(n)) => Some(n),
            _ => None,
        }
    }
}

impl Json {
    pub fn is_null(&self) -> (r: bool)
        ensures
            r == (self@ is Null),
    {
        match self {
            Json::Null => true,
            _ => false,
        }
    }

    pub fn as_str(&self) -> (r: Option<&String>)
        ensures
            r is Some == self@.text() is Some,
            r is Some ==> r->0@ == self@.text()->0,
    {
        match self {
            Json::Text(s) => Some(s),
            _ => None,
        }
    }

    pub fn as_array(&self) -> (r: Option<&Vec<Json>>)
        ensures
            r is Some == self@.items() is Some,
            r is Some ==> items_view(r->0@) == self@.items()->0,
    {
        match self {
            Json::Array(items) => {
                proof {
                    array_view(*items);
                }
                Some(items)
            },
            _ => None,
        }
    }

    pub fn as_object(&self) -> (r: Option<&Vec<(String, Json)>>)
        ensures
            r is Some == self@ is Object,
            r is Some ==> members_view(r->0@) == self@->Object_0,
    {
        match self {
            Json::Object(members) => {
                proof {
                    object_view(*members);
                }
                Some(members)
            },
            _ => None,
        }
    }

    pub fn as_u64(&self) -> (r: Option<u64>)
        ensures
            r == self@.unsigned(),
    {
        match self {
            Json::Number(Number::Unsigned(n)) => Some(*n),
            _ => None,
        }
    }

    pub fn as_i64(&self) -> (r: Option<i64>)
        ensures
            r == self@.signed(),
    {
        match self {
            Json::Number(Number::Unsigned(n)) => if *n <= 0x7FFF_FFFF_FFFF_FFFF {
                Some(*n as i64)
            } else {
                None
            },
            Json::Number(Number::Negative(n)) => Some(*n),
            _ => None,
        }
    }

    /// The member `key` of an object.
    pub fn get(&self, key: &str) -> (r: Option<&Json>)
        ensures
            r is Some == self@.member(key@) is Some,
            r is Some ==> r->0@ == self@.member(key@)->0,
    {
        match self {
            Json::Object(members) => {
                proof {
                    object_view(*members);
                }
                find_member(members, key)
            },
            _ => None,
        }
    }

    /// A copy of the document.
    pub fn duplicate(&self) -> (r: Json)
        ensures
            r@ == self@,
        decreases self,
    {
        match self {
            Json::Null => Json::Null,
            Json::Bool(b) => Json::Bool(*b),
            Json::Number(n) => Json::Number(*n),
            Json::Real(s) => Json::Real(s.clone()),
            Json::Text(s) => Json::Text(s.clone()),
            Json::Array(items) => {
                let mut out: Vec<Json> = Vec::new();
                let mut i: usize = 0;
                while i < items.len()
                    invariant
                        *self == Json::Array(*items),
                        i <= items.len(),
                        out@.len() == i,
                        forall|k: int| 0 <= k < i ==> out@[k]@ == items@[k]@,
                    decreases items.len() - i,
                {
                    proof {
                        assert(decreases_to!(*self => self->Array_0));
                        assert(decreases_to!(*items => items@));
                        assert(decreases_to!(*self => items@[i as int]));
                    }
                    out.push(items[i].duplicate());
                    i = i + 1;
                }
                proof {
                    array_view(*items);
                    array_view(out);
                    assert(items_view(out@) =~= items_view(items@));
                }
                Json::Array(out)
            },
            Json::Object(members) => {
                let mut out: Vec<(String, Json)> = Vec::new();
                let mut i: usize = 0;
                while i < members.len()
                    invariant
                        *self == Json::Object(*members),
                        i <= members.len(),
                        out@.len() == i,
                        forall|k: int|
                            0 <= k < i ==> out@[k].0@ == members@[k].0@ && out@[k].1@
                                == members@[k].1@,
                    decreases members.len() - i,
                {
                    proof {
                        assert(decreases_to!(*self => self->Object_0));
                        assert(decreases_to!(*members => members@));
                        assert(decreases_to!(*self => members@[i as int].1));
                    }
                    out.push((members[i].0.clone(), members[i].1.duplicate()));
                    i = i + 1;
                }
                proof {
                    object_view(*members);
                    object_view(out);
                    assert(members_view(out@) =~= members_view(members@));
                }
                Json::Object(out)
            },
        }
    }
}

impl Clone for Json {
    fn clone(&self) -> (r: Self)
        ensures
            r@ == self@,
    {
        self.duplicate()
    }
}

/// The last member named `key`, if there is one.
pub fn find_member<'a>(members: &'a Vec<(String, Json)>, key: &str) -> (r: Option<&'a Json>)
    ensures
        r is Some == lookup(members_view(members@), key@) is Some,
        r is Some ==> r->0@ == lookup(members_view(members@), key@)->0,
{
    let ghost all = members_view(members@);
    let mut i: usize = members.len();
    assert(all.take(i as int) == all);
    while i > 0
        invariant
            i <= members.len(),
            all == members_view(members@),
            lookup(all, key@) == lookup(all.take(i as int), key@),
        decreases i,
    {
        proof {
            assert(all.take(i as int).drop_last() == all.take(i - 1));
            assert(all.take(i as int).last() == all[i - 1]);
        }
        if same_text(members[i - 1].0.as_str(), key) {
            return Some(&members[i - 1].1);
        }
        i = i - 1;
    }
    None
}

/// A text document.
pub fn text_json(s: &str) -> (r: Json)
    ensures
        r@ == JsonV::Text(s@),
{
    Json::Text(s.to_owned())
}

/// A document for an optional text: `null` where there is none.
pub open spec fn optional_text(s: Option<Seq<char>>) -> JsonV {
    match s {
        Some(t) => JsonV::Text(t),
        None => JsonV::Null,
    }
}

pub fn unsigned_json(n: u64) -> (r: Json)
    ensures
        r@ == JsonV::Number(Number::Unsigned(n)),
{
    Json::Number(Number::Unsigned(n))
}

/// The document of a signed integer, as a JSON reader would hold it.
pub open spec fn integer(n: i64) -> JsonV {
    if n < 0 {
        JsonV::Number(Number::Negative(n))
    } else {
        JsonV::Number(Number::Unsigned(n as u64))
    }
}

pub fn integer_json(n: i64) -> (r: Json)
    ensures
        r@ == integer(n),
{
    if n < 0 {
        Json::Number(Number::Negative(n))
    } else {
        Json::Number(Number::Unsigned(n as u64))
    }
}

// ---------------------------------------------------------------------------
// Canonical form
// ---------------------------------------------------------------------------
impl JsonV {
    /// The members of an object, each value in canonical form.
    pub open spec fn canonical_members(members: Members) -> Members
        decreases members,
    {
        Seq::new(
            members.len(),
            |i: int|
                if 0 <= i < members.len() {
                    (members[i].0, members[i].1.canonical())
                } else {
                    (Seq::empty(), JsonV::Null)
                },
        )
    }

    /// The document with the members of every object in the order of their
    /// names, each name once.
    pub open spec fn canonical(self) -> JsonV
        decreases self,
    {
        match self {
            JsonV::Array(items) => JsonV::Array(
                Seq::new(
                    items.len(),
                    |i: int|
                        if 0 <= i < items.len() {
                            items[i].canonical()
                        } else {
                            JsonV::Null
                        },
                ),
            ),
            JsonV::Object(members) => JsonV::Object(arranged(Self::canonical_members(members))),
            other => other,
        }
    }
}

impl Json {
    /// The canonical form of the document.
    pub fn canonicalize(&self) -> (r: Json)
        ensures
            r@ == self@.canonical(),
        decreases self,
    {
        match self {
            Json::Null => Json::Null,
            Json::Bool(b) => Json::Bool(*b),
            Json::Number(n) => Json::Number(*n),
            Json::Real(s) => Json::Real(s.clone()),
            Json::Text(s) => Json::Text(s.clone()),
            Json::Array(items) => {
                let mut out: Vec<Json> = Vec::new();
                let mut i: usize = 0;
                while i < items.len()
                    invariant
                        *self == Json::Array(*items),
                        i <= items.len(),
                        out@.len() == i,
                        forall|k: int| 0 <= k < i ==> out@[k]@ == items@[k]@.canonical(),
                    decreases items.len() - i,
                {
                    proof {
                        assert(decreases_to!(*self => self->Array_0));
                        assert(decreases_to!(*items => items@));
                        assert(decreases_to!(*self => items@[i as int]));
                    }
                    out.push(items[i].canonicalize());
                    i = i + 1;
                }
                proof {
                    array_view(*items);
                    array_view(out);
                    assert(items_view(out@) =~= self@.canonical()->Array_0);
                }
                Json::Array(out)
            },
            Json::Object(members) => {
                let mut out: Vec<(String, Json)> = Vec::new();
                let mut i: usize = 0;
                let ghost given = JsonV::canonical_members(members_view(members@));
                proof {
                    object_view(*members);
                    assert(named_view(out@) =~= arranged(given.take(0)));
                }
                while i < members.len()
                    invariant
                        *self == Json::Object(*members),
                        i <= members.len(),
                        given == JsonV::canonical_members(members_view(members@)),
                        named_view(out@) == arranged(given.take(i as int)),
                    decreases members.len() - i,
                {
                    proof {
                        assert(decreases_to!(*self => self->Object_0));
                        assert(decreases_to!(*members => members@));
                        assert(decreases_to!(*self => members@[i as int].1));
                    }
                    let value = members[i].1.canonicalize();
                    place(&mut out, members[i].0.clone(), value);
                    proof {
                        assert(given.take(i + 1).drop_last() == given.take(i as int));
                        assert(given.take(i + 1).last() == given[i as int]);
                    }
                    i = i + 1;
                }
                proof {
                    object_view(out);
                    assert(given.take(members@.len() as int) == given);
                    assert(members_view(out@) =~= named_view(out@));
                }
                Json::Object(out)
            },
        }
    }
}

// ---------------------------------------------------------------------------
// Building
// ---------------------------------------------------------------------------
/// Adds the member `name` to a list of members.
pub fn push_member(members: &mut Vec<(String, Json)>, name: &str, value: Json)
    ensures
        members_view(final(members)@) == members_view(old(members)@).push((name@, value@)),
{
    members.push((name.to_owned(), value));
    assert(members_view(members@) =~= members_view(old(members)@).push((name@, value@)));
}

/// The object with those members.
pub fn object_of(members: Vec<(String, Json)>) -> (r: Json)
    ensures
        r@ == JsonV::Object(members_view(members@)),
{
    proof {
        object_view(members);
    }
    Json::Object(members)
}

/// The array with those items.
pub fn array_of(items: Vec<Json>) -> (r: Json)
    ensures
        r@ == JsonV::Array(items_view(items@)),
{
    proof {
        array_view(items);
    }
    Json::Array(items)
}

/// The empty list of members.
pub open spec fn none() -> Members {
    Seq::empty()
}

/// No members yet.
pub fn no_members() -> (r: Vec<(String, Json)>)
    ensures
        members_view(r@) == none(),
{
    let r: Vec<(String, Json)> = Vec::new();
    assert(members_view(r@) =~= none());
    r
}

/// The document of an optional text.
pub fn optional_text_json(text: Option<&String>) -> (r: Json)
    ensures
        r@ == optional_text(
            match text {
                Some(s) => Some(s@),
                None => None,
            },
        ),
{
    match text {
        Some(s) => Json::Text(s.clone()),
        None => Json::Null,
    }
}

// ---------------------------------------------------------------------------
// The order of members does not matter
// ---------------------------------------------------------------------------
impl JsonV {
    /// `other` is this document with the members of its objects, at every
    /// depth, in another order. The names within an object are distinct.
    pub open spec fn reordered(self, other: JsonV) -> bool
        decreases self,
    {
        match self {
            JsonV::Array(items) => other is Array && items.len() == other->Array_0.len()
                && forall|i: int|
                0 <= i < items.len() ==> (#[trigger] items[i]).reordered(other->Array_0[i]),
            JsonV::Object(members) => other is Object && distinct_names(members)
                && distinct_names(other->Object_0) && (forall|i: int|
                0 <= i < members.len() ==> exists|j: int|
                    0 <= j < other->Object_0.len() && other->Object_0[j].0 == (
                    #[trigger] members[i]).0 && members[i].1.reordered(other->Object_0[j].1))
                && (forall|j: int|
                0 <= j < other->Object_0.len() ==> exists|i: int|
                    0 <= i < members.len() && members[i].0 == (#[trigger] other->Object_0[j]).0),
            _ => self == other,
        }
    }
}

/// The canonical form does not depend on the order of members: two
/// documents that differ only in the order of the members of their
/// objects, at any depth, have the same canonical form.
pub proof fn canonical_ignores_order(a: JsonV, b: JsonV)
    requires
        a.reordered(b),
    ensures
        a.canonical() == b.canonical(),
    decreases a,
{
    match a {
        JsonV::Array(items) => {
            let others = b->Array_0;
            assert forall|i: int| 0 <= i < items.len() implies items[i].canonical()
                == others[i].canonical() by {
                assert(items[i].reordered(others[i]));
                canonical_ignores_order(items[i], others[i]);
            }
            assert(a.canonical()->Array_0 =~= b.canonical()->Array_0);
        },
        JsonV::Object(members) => {
            let others = b->Object_0;
            let x = JsonV::canonical_members(members);
            let y = JsonV::canonical_members(others);
            assert forall|i: int, j: int| 0 <= i < j < x.len() implies x[i].0 != x[j].0 by {
                assert(x[i].0 == members[i].0 && x[j].0 == members[j].0);
            }
            assert forall|i: int, j: int| 0 <= i < j < y.len() implies y[i].0 != y[j].0 by {
                assert(y[i].0 == others[i].0 && y[j].0 == others[j].0);
            }
            assert forall|i: int| 0 <= i < x.len() implies y.contains(#[trigger] x[i]) by {
                let j = choose|j: int|
                    0 <= j < others.len() && others[j].0 == members[i].0
                        && members[i].1.reordered(others[j].1);
                canonical_ignores_order(members[i].1, others[j].1);
                assert(y[j] == x[i]);
            }
            assert forall|j: int| 0 <= j < y.len() implies x.contains(#[trigger] y[j]) by {
                let i = choose|i: int| 0 <= i < members.len() && members[i].0 == others[j].0;
                let k = choose|k: int|
                    0 <= k < others.len() && others[k].0 == members[i].0
                        && members[i].1.reordered(others[k].1);
                if k != j {
                    if k < j {
                        assert(others[k].0 != others[j].0);
                    } else {
                        assert(others[j].0 != others[k].0);
                    }
                }
                canonical_ignores_order(members[i].1, others[j].1);
                assert(x[i] == y[j]);
            }
            arranging_ignores_order(x, y);
        },
        _ => {},
    }
}

} // verus!

//! Reading the arguments of a tool out of a JSON object.
//!
//! A member that is absent or `null` is a value left out. A member of the
//! wrong kind, or one that the tool does not know, makes the arguments
//! unfit as a whole.

use vstd::prelude::*;
use crate::json::{find_member, lookup, members_view, Json, JsonV, Members, Number};
use crate::keyed::{arranged, named_view, place, Named};
use crate::response::ResponseMode;
use crate::text::same_text;

verus! {

/// The members that the arguments give: those of an object, none for
/// `null`.
pub open spec fn given(params: JsonV) -> Option<Members> {
    match params {
        JsonV::Null => Some(Seq::empty()),
        JsonV::Object(members) => Some(members),
        _ => None,
    }
}

/// The texts of a list of names.
pub open spec fn names(list: Seq<&'static str>) -> Seq<Seq<char>> {
    Seq::new(list.len(), |i: int| list[i]@)
}

/// Every member bears one of the names.
pub open spec fn only_known(members: Members, known: Seq<Seq<char>>) -> bool {
    forall|i: int| 0 <= i < members.len() ==> known.contains(#[trigger] members[i].0)
}

pub fn know(list: &mut Vec<&'static str>, name: &'static str)
    ensures
        names(final(list)@) == names(old(list)@).push(name@),
{
    list.push(name);
    assert(names(list@) =~= names(old(list)@).push(name@));
}

pub fn nothing_known() -> (r: Vec<&'static str>)
    ensures
        names(r@) == Seq::<Seq<char>>::empty(),
{
    let r: Vec<&'static str> = Vec::new();
    assert(names(r@) =~= Seq::<Seq<char>>::empty());
    r
}

fn is_known(name: &str, known: &Vec<&'static str>) -> (r: bool)
    ensures
        r == names(known@).contains(name@),
{
    let mut i: usize = 0;
    while i < known.len()
        invariant
            i <= known.len(),
            forall|k: int| 0 <= k < i ==> names(known@)[k] != name@,
        decreases known.len() - i,
    {
        if same_text(known[i], name) {
            assert(names(known@)[i as int] == name@);
            return true;
        }
        i = i + 1;
    }
    false
}

pub fn check_known(members: &Vec<(String, Json)>, known: &Vec<&'static str>) -> (r: bool)
    ensures
        r == only_known(members_view(members@), names(known@)),
{
    let mut i: usize = 0;
    while i < members.len()
        invariant
            i <= members.len(),
            forall|k: int|
                0 <= k < i ==> names(known@).contains(#[trigger] members_view(members@)[k].0),
        decreases members.len() - i,
    {
        if !is_known(members[i].0.as_str(), known) {
            assert(members_view(members@)[i as int].0 == members@[i as int].0@);
            return false;
        }
        assert(members_view(members@)[i as int].0 == members@[i as int].0@);
        i = i + 1;
    }
    true
}

/// What a member says where a value may be left out: `None` where it is of
/// the wrong kind, else the value or its absence.
pub open spec fn optional_text(members: Members, key: Seq<char>) -> Option<Option<Seq<char>>> {
    match lookup(members, key) {
        None => Some(None),
        Some(JsonV::Null) => Some(None),
        Some(JsonV::Text(s)) => Some(Some(s)),
        Some(_) => None,
    }
}

pub open spec fn required_text(members: Members, key: Seq<char>) -> Option<Seq<char>> {
    match lookup(members, key) {
        Some(JsonV::Text(s)) => Some(s),
        _ => None,
    }
}

pub open spec fn optional_u32(members: Members, key: Seq<char>) -> Option<Option<u32>> {
    match lookup(members, key) {
        None => Some(None),
        Some(JsonV::Null) => Some(None),
        Some(JsonV::Number(Number::Unsigned(n))) => if n <= u32::MAX {
            Some(Some(n as u32))
        } else {
            None
        },
        Some(_) => None,
    }
}

/// A number of any kind.
pub open spec fn optional_number(members: Members, key: Seq<char>) -> Option<Option<JsonV>> {
    match lookup(members, key) {
        None => Some(None),
        Some(JsonV::Null) => Some(None),
        Some(JsonV::Number(n)) => Some(Some(JsonV::Number(n))),
        Some(JsonV::Real(t)) => Some(Some(JsonV::Real(t))),
        Some(_) => None,
    }
}

pub open spec fn json_of(value: Option<Json>) -> Option<JsonV> {
    match value {
        Some(v) => Some(v@),
        None => None,
    }
}

pub open spec fn optional_mode(members: Members, key: Seq<char>) -> Option<Option<ResponseMode>> {
    match lookup(members, key) {
        None => Some(None),
        Some(JsonV::Null) => Some(None),
        Some(JsonV::Text(s)) => match ResponseMode::named(s) {
            Some(mode) => Some(Some(mode)),
            None => None,
        },
        Some(_) => None,
    }
}

/// Every value is a text.
pub open spec fn all_texts(members: Members) -> bool {
    forall|i: int| 0 <= i < members.len() ==> (#[trigger] members[i]).1 is Text
}

/// The names with the texts under them.
pub open spec fn text_pairs(members: Members) -> Named<Seq<char>> {
    Seq::new(members.len(), |i: int| (members[i].0, members[i].1->Text_0))
}

/// The label set that an object of texts states, in the order of the names.
pub open spec fn label_set(value: JsonV) -> Option<Named<Seq<char>>> {
    match value {
        JsonV::Object(members) => if all_texts(members) {
            Some(arranged(text_pairs(members)))
        } else {
            None
        },
        _ => None,
    }
}

pub open spec fn optional_labels(members: Members, key: Seq<char>) -> Option<
    Option<Named<Seq<char>>>,
> {
    match lookup(members, key) {
        None => Some(None),
        Some(JsonV::Null) => Some(None),
        Some(value) => match label_set(value) {
            Some(labels) => Some(Some(labels)),
            None => None,
        },
    }
}

pub open spec fn required_labels(members: Members, key: Seq<char>) -> Option<Named<Seq<char>>> {
    match lookup(members, key) {
        Some(value) => label_set(value),
        None => None,
    }
}

/// The texts that an array of texts states.
pub open spec fn text_list(value: JsonV) -> Option<Seq<Seq<char>>> {
    match value {
        JsonV::Array(items) => if forall|i: int| 0 <= i < items.len() ==> (#[trigger] items[i]) is Text {
            Some(Seq::new(items.len(), |i: int| items[i]->Text_0))
        } else {
            None
        },
        _ => None,
    }
}

pub open spec fn required_texts(members: Members, key: Seq<char>) -> Option<Seq<Seq<char>>> {
    match lookup(members, key) {
        Some(value) => text_list(value),
        None => None,
    }
}

pub open spec fn text_of(s: Option<String>) -> Option<Seq<char>> {
    match s {
        Some(t) => Some(t@),
        None => None,
    }
}

pub open spec fn labels_of(s: Option<Vec<(String, String)>>) -> Option<Named<Seq<char>>> {
    match s {
        Some(t) => Some(named_view(t@)),
        None => None,
    }
}

pub fn read_optional_text(members: &Vec<(String, Json)>, key: &str) -> (r: Option<Option<String>>)
    ensures
        r is Some == optional_text(members_view(members@), key@) is Some,
        r is Some ==> text_of(r->0) == optional_text(members_view(members@), key@)->0,
{
    match find_member(members, key) {
        None => Some(None),
        Some(Json::Null) => Some(None),
        Some(Json::Text(s)) => Some(Some(s.clone())),
        Some(_) => None,
    }
}

pub fn read_required_text(members: &Vec<(String, Json)>, key: &str) -> (r: Option<String>)
    ensures
        text_of(r) == required_text(members_view(members@), key@),
{
    match find_member(members, key) {
        Some(Json::Text(s)) => Some(s.clone()),
        _ => None,
    }
}

pub fn read_optional_u32(members: &Vec<(String, Json)>, key: &str) -> (r: Option<Option<u32>>)
    ensures
        r == optional_u32(members_view(members@), key@),
{
    match find_member(members, key) {
        None => Some(None),
        Some(Json::Null) => Some(None),
        Some(Json::Number(Number::Unsigned(n))) => if *n <= 0xFFFF_FFFF {
            Some(Some(*n as u32))
        } else {
            None
        },
        Some(_) => None,
    }
}

pub fn read_optional_number(members: &Vec<(String, Json)>, key: &str) -> (r: Option<Option<Json>>)
    ensures
        r is Some == optional_number(members_view(members@), key@) is Some,
        r is Some ==> json_of(r->0) == optional_number(members_view(members@), key@)->0,
{
    match find_member(members, key) {
        None => Some(None),
        Some(Json::Null) => Some(None),
        Some(Json::Number(n)) => Some(Some(Json::Number(*n))),
        Some(Json::Real(t)) => Some(Some(Json::Real(t.clone()))),
        Some(_) => None,
    }
}

pub fn read_optional_mode(members: &Vec<(String, Json)>, key: &str) -> (r: Option<
    Option<ResponseMode>,
>)
    ensures
        r == optional_mode(members_view(members@), key@),
{
    match find_member(members, key) {
        None => Some(None),
        Some(Json::Null) => Some(None),
        Some(Json::Text(s)) => match ResponseMode::parse(s.as_str()) {
            Some(mode) => Some(Some(mode)),
            None => None,
        },
        Some(_) => None,
    }
}

pub fn read_label_set(value: &Json) -> (r: Option<Vec<(String, String)>>)
    ensures
        labels_of(r) == label_set(value@),
{
    let members = match value.as_object() {
        Some(members) => members,
        None => {
            return None;
        },
    };
    let ghost all = members_view(members@);
    let ghost pairs = text_pairs(all);
    let mut out: Vec<(String, String)> = Vec::new();
    let mut i: usize = 0;
    assert(named_view(out@) =~= arranged(pairs.take(0)));
    assert(value@ == JsonV::Object(all));
    while i < members.len()
        invariant
            i <= members.len(),
            value@ == JsonV::Object(all),
            all == members_view(members@),
            pairs == text_pairs(all),
            forall|k: int| 0 <= k < i ==> (#[trigger] all[k]).1 is Text,
            named_view(out@) == arranged(pairs.take(i as int)),
        decreases members.len() - i,
    {
        assert(all[i as int] == (members@[i as int].0@, members@[i as int].1@));
        match &members[i].1 {
            Json::Text(s) => {
                place(&mut out, members[i].0.clone(), s.clone());
            },
            _ => {
                assert(!(all[i as int].1 is Text));
                assert(!all_texts(all));
                assert(value@ == JsonV::Object(all));
                return None;
            },
        }
        proof {
            assert(pairs.take(i + 1).drop_last() == pairs.take(i as int));
            assert(pairs.take(i + 1).last() == pairs[i as int]);
        }
        i = i + 1;
    }
    assert(pairs.take(members@.len() as int) == pairs);
    Some(out)
}

pub fn read_optional_labels(members: &Vec<(String, Json)>, key: &str) -> (r: Option<
    Option<Vec<(String, String)>>,
>)
    ensures
        r is Some == optional_labels(members_view(members@), key@) is Some,
        r is Some ==> labels_of(r->0) == optional_labels(members_view(members@), key@)->0,
{
    match find_member(members, key) {
        None => Some(None),
        Some(Json::Null) => Some(None),
        Some(value) => match read_label_set(value) {
            Some(labels) => Some(Some(labels)),
            None => None,
        },
    }
}

pub fn read_required_labels(members: &Vec<(String, Json)>, key: &str) -> (r: Option<
    Vec<(String, String)>,
>)
    ensures
        labels_of(r) == required_labels(members_view(members@), key@),
{
    match find_member(members, key) {
        Some(value) => read_label_set(value),
        None => None,
    }
}

pub open spec fn texts_of(list: Option<Vec<String>>) -> Option<Seq<Seq<char>>> {
    match list {
        Some(v) => Some(crate::text::texts(v@)),
        None => None,
    }
}

pub fn read_required_texts(members: &Vec<(String, Json)>, key: &str) -> (r: Option<Vec<String>>)
    ensures
        texts_of(r) == required_texts(members_view(members@), key@),
{
    let value = match find_member(members, key) {
        Some(value) => value,
        None => {
            return None;
        },
    };
    let items = match value.as_array() {
        Some(items) => items,
        None => {
            return None;
        },
    };
    let ghost all = crate::json::items_view(items@);
    let mut out: Vec<String> = Vec::new();
    let mut i: usize = 0;
    assert(value@ == JsonV::Array(all));
    while i < items.len()
        invariant
            i <= items.len(),
            value@ == JsonV::Array(all),
            lookup(members_view(members@), key@) == Some(value@),
            all == crate::json::items_view(items@),
            out@.len() == i,
            forall|k: int| 0 <= k < i ==> (#[trigger] all[k]) is Text && out@[k]@ == all[k]->Text_0,
        decreases items.len() - i,
    {
        assert(all[i as int] == items@[i as int]@);
        match &items[i] {
            Json::Text(s) => {
                out.push(s.clone());
            },
            _ => {
                assert(!(all[i as int] is Text));
                assert(value@ == JsonV::Array(all));
                assert(text_list(value@) is None);
                return None;
            },
        }
        i = i + 1;
    }
    assert(crate::text::texts(out@) =~= text_list(value@)->0);
    Some(out)
}

/// The members that the arguments give.
pub fn members_of<'a>(params: &'a Json, empty: &'a Vec<(String, Json)>) -> (r: Option<
    &'a Vec<(String, Json)>,
>)
    requires
        empty@.len() == 0,
    ensures
        r is Some == given(params@) is Some,
        r is Some ==> members_view(r->0@) == given(params@)->0,
{
    match params {
        Json::Null => {
            assert(members_view(empty@) =~= Seq::empty());
            Some(empty)
        },
        Json::Object(_) => params.as_object(),
        _ => None,
    }
}

} // verus!

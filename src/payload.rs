use vstd::prelude::*;
use serde_json::Value as V;

verus! {

/// The value of one member of a JSON object, as far as this client reads it.
#[derive(Debug, Clone)]
pub enum Field {
    Text(String),
    /// A number that is an integer within `i64`.
    Int(i64),
    /// An array: each item's string, `None` for an item that is no string.
    List(Vec<Option<String>>),
    /// Anything else: another number, a boolean, `null` or an object.
    Other,
}

/// The abstract value of a member.
pub enum FieldView {
    Text(Seq<char>),
    Int(i64),
    List(Seq<Option<Seq<char>>>),
    Other,
}

pub open spec fn opt_text(o: Option<String>) -> Option<Seq<char>> {
    match o {
        Some(s) => Some(s@),
        None => None,
    }
}

pub open spec fn field_view(f: Field) -> FieldView {
    match f {
        Field::Text(s) => FieldView::Text(s@),
        Field::Int(i) => FieldView::Int(i),
        Field::List(items) => FieldView::List(items@.map_values(|o: Option<String>| opt_text(o))),
        Field::Other => FieldView::Other,
    }
}

/// The members of an object, as key and value.
pub open spec fn members_view(ms: Seq<(String, Field)>) -> Seq<(Seq<char>, FieldView)> {
    ms.map_values(|m: (String, Field)| (m.0@, field_view(m.1)))
}

/// What serde_json reads from `text`: `None` when it is no JSON document,
/// else the members of the object it holds (none for a JSON value that is
/// no object).
pub uninterp spec fn members_of(text: Seq<char>) -> Option<Seq<(Seq<char>, FieldView)>>;

/// Relies on `serde_json::from_str::<Value>` to parse the payload, and on
/// `Value`'s variants, `Number::as_i64` and `Value::as_str` to hand each
/// member of an object over as a `Field`. The result depends on the text
/// alone.
#[verifier::external_body]
pub(crate) fn parse_members(text: &str) -> (r: Option<Vec<(String, Field)>>)
    ensures
        match r {
            Some(ms) => members_of(text@) == Some(members_view(ms@)),
            None => members_of(text@) is None,
        },
{
    let m = match serde_json::from_str::<V>(text).ok()? {
        V::Object(m) => m,
        _ => serde_json::Map::new(),
    };
    Some(m.into_iter().map(|(k, v)| (k, match v {
        V::String(s) => Field::Text(s),
        V::Number(n) => n.as_i64().map_or(Field::Other, Field::Int),
        V::Array(a) => Field::List(a.iter().map(|i| i.as_str().map(String::from)).collect()),
        _ => Field::Other,
    })).collect())
}

/// The value of the first member named `key`.
pub open spec fn member_of(ms: Seq<(Seq<char>, FieldView)>, key: Seq<char>) -> Option<FieldView>
    decreases ms.len(),
{
    if ms.len() == 0 {
        None
    } else if ms[0].0 == key {
        Some(ms[0].1)
    } else {
        member_of(ms.drop_first(), key)
    }
}

/// The string under `key`, if there is one.
pub open spec fn text_member_of(ms: Seq<(Seq<char>, FieldView)>, key: Seq<char>) -> Option<Seq<char>> {
    match member_of(ms, key) {
        Some(FieldView::Text(s)) => Some(s),
        _ => None,
    }
}

/// The integer under `key`, if there is one.
pub open spec fn int_member_of(ms: Seq<(Seq<char>, FieldView)>, key: Seq<char>) -> Option<i64> {
    match member_of(ms, key) {
        Some(FieldView::Int(i)) => Some(i),
        _ => None,
    }
}

/// The array under `key`, if there is one.
pub open spec fn list_member_of(ms: Seq<(Seq<char>, FieldView)>, key: Seq<char>) -> Option<
    Seq<Option<Seq<char>>>,
> {
    match member_of(ms, key) {
        Some(FieldView::List(items)) => Some(items),
        _ => None,
    }
}

/// The strings among `items`, in their order.
pub open spec fn strings_in(items: Seq<Option<Seq<char>>>) -> Seq<Seq<char>>
    decreases items.len(),
{
    if items.len() == 0 {
        Seq::empty()
    } else {
        let rest = strings_in(items.drop_last());
        match items.last() {
            Some(s) => rest.push(s),
            None => rest,
        }
    }
}

/// Every item is a string.
pub open spec fn only_strings(items: Seq<Option<Seq<char>>>) -> bool {
    forall|i: int| 0 <= i < items.len() ==> (#[trigger] items[i]) is Some
}

/// The value of the first member named `key`.
pub fn find_member<'a>(ms: &'a Vec<(String, Field)>, key: &str) -> (r: Option<&'a Field>)
    ensures
        match r {
            Some(f) => member_of(members_view(ms@), key@) == Some(field_view(*f)),
            None => member_of(members_view(ms@), key@) is None,
        },
{
    let mut i: usize = 0;
    assert(members_view(ms@).subrange(0, ms@.len() as int) =~= members_view(ms@));
    while i < ms.len()
        invariant
            0 <= i <= ms@.len(),
            member_of(members_view(ms@), key@) == member_of(
                members_view(ms@).subrange(i as int, ms@.len() as int),
                key@,
            ),
        decreases ms@.len() - i,
    {
        let ghost rest = members_view(ms@).subrange(i as int, ms@.len() as int);
        assert(rest.drop_first() =~= members_view(ms@).subrange(i + 1, ms@.len() as int));
        assert(rest[0] == (ms@[i as int].0@, field_view(ms@[i as int].1)));
        if crate::input::same_text(ms[i].0.as_str(), key) {
            return Some(&ms[i].1);
        }
        i = i + 1;
    }
    None
}

/// The string under `key`, if there is one.
pub fn text_member(ms: &Vec<(String, Field)>, key: &str) -> (r: Option<String>)
    ensures
        opt_text(r) == text_member_of(members_view(ms@), key@),
{
    match find_member(ms, key) {
        Some(Field::Text(s)) => Some(s.clone()),
        _ => None,
    }
}

/// The integer under `key`, if there is one.
pub fn int_member(ms: &Vec<(String, Field)>, key: &str) -> (r: Option<i64>)
    ensures
        r == int_member_of(members_view(ms@), key@),
{
    match find_member(ms, key) {
        Some(Field::Int(i)) => Some(*i),
        _ => None,
    }
}

/// The strings of the array under `key`, skipping other items; `None` when
/// there is no array there.
pub fn strings_member(ms: &Vec<(String, Field)>, key: &str) -> (r: Option<(Vec<String>, bool)>)
    ensures
        match (r, list_member_of(members_view(ms@), key@)) {
            (Some((v, all)), Some(items)) => crate::roster::names_of(v@) == strings_in(items)
                && all == only_strings(items),
            (None, None) => true,
            _ => false,
        },
{
    match find_member(ms, key) {
        Some(Field::List(items)) => {
            let ghost iv = items@.map_values(|o: Option<String>| opt_text(o));
            let mut out: Vec<String> = Vec::new();
            let mut all = true;
            let mut i: usize = 0;
            while i < items.len()
                invariant
                    0 <= i <= items@.len(),
                    iv == items@.map_values(|o: Option<String>| opt_text(o)),
                    crate::roster::names_of(out@) == strings_in(iv.take(i as int)),
                    all == only_strings(iv.take(i as int)),
                decreases items@.len() - i,
            {
                assert(iv.take(i + 1).drop_last() =~= iv.take(i as int));
                assert(iv.take(i + 1).last() == opt_text(items@[i as int]));
                match &items[i] {
                    Some(s) => {
                        out.push(s.clone());
                        assert(crate::roster::names_of(out@) =~= strings_in(iv.take(i as int)).push(
                            s@,
                        ));
                    },
                    None => {
                        all = false;
                    },
                }
                if all {
                    assert(only_strings(iv.take(i + 1))) by {
                        assert forall|j: int| 0 <= j < i + 1 implies (#[trigger] iv.take(
                            i + 1,
                        )[j]) is Some by {
                            if j < i {
                                assert(iv.take(i + 1)[j] == iv.take(i as int)[j]);
                            }
                        }
                    }
                } else {
                    assert(!only_strings(iv.take(i + 1))) by {
                        if items@[i as int] is None {
                            assert(iv.take(i + 1)[i as int] is None);
                        } else {
                            let j = choose|j: int|
                                0 <= j < i && !(#[trigger] iv.take(i as int)[j] is Some);
                            assert(iv.take(i + 1)[j] == iv.take(i as int)[j]);
                        }
                    }
                }
                i = i + 1;
            }
            assert(iv.take(items@.len() as int) =~= iv);
            Some((out, all))
        },
        _ => None,
    }
}

} // verus!

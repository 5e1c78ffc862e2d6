//! JSON texts: reading members of objects, writing objects.

use vstd::prelude::*;

use crate::outside;

verus! {

/// Value of a member of an object to write.
#[derive(Debug, PartialEq)]
pub enum Field {
    Text(String),
    Flag(bool),
    Number(u64),
    Null,
}

/// What a field holds.
pub ghost enum FieldView {
    Text(Seq<char>),
    Flag(bool),
    Number(u64),
    Null,
}

impl View for Field {
    type V = FieldView;

    open spec fn view(&self) -> FieldView {
        match self {
            Field::Text(s) => FieldView::Text(s@),
            Field::Flag(b) => FieldView::Flag(*b),
            Field::Number(n) => FieldView::Number(*n),
            Field::Null => FieldView::Null,
        }
    }
}

/// What a list of members holds.
pub open spec fn members_view(members: Seq<(String, Field)>) -> Seq<(Seq<char>, FieldView)> {
    members.map_values(|m: (String, Field)| (m.0@, m.1@))
}

/// Whether no key occurs twice.
pub open spec fn distinct_keys(members: Seq<(String, Field)>) -> bool {
    forall|i: int, j: int|
        0 <= i < j < members.len() ==> (#[trigger] members[i]).0@ != (#[trigger] members[j]).0@
}

/// Whether a text is an object from which every one of the members comes back
/// under its key.
pub open spec fn reads_back(text: Seq<char>, members: Seq<(Seq<char>, FieldView)>) -> bool {
    forall|i: int|
        0 <= i < members.len() ==> {
            let (key, value) = #[trigger] members[i];
            match value {
                FieldView::Text(s) => outside::json_text_member(text, key) == Some(s),
                FieldView::Number(n) => outside::json_u64_member(text, key) == Some(n),
                FieldView::Flag(b) => outside::json_member(text, key) == Some(
                    if b {
                        "true"@
                    } else {
                        "false"@
                    },
                ),
                FieldView::Null => outside::json_member(text, key) == Some("null"@),
            }
        }
}

/// Whether no key is one that JSON texts are read specially for.
pub open spec fn plain_keys(members: Seq<(String, Field)>) -> bool {
    forall|i: int|
        0 <= i < members.len() ==> (#[trigger] members[i]).0@ != outside::json_reserved_key()
}

/// The reserved key is long: a short key is not it.
pub proof fn lemma_reserved_key()
    ensures
        outside::json_reserved_key().len() == 30,
{
    reveal_strlit("$serde_json::private::RawValue");
}

/// Five keys or fewer are distinct once each pair of them is.
pub proof fn lemma_distinct_keys(members: Seq<(String, Field)>)
    requires
        members.len() <= 5,
        members.len() > 1 ==> members[0].0@ != members[1].0@,
        members.len() > 2 ==> members[0].0@ != members[2].0@ && members[1].0@ != members[2].0@,
        members.len() > 3 ==> members[0].0@ != members[3].0@ && members[1].0@ != members[3].0@
            && members[2].0@ != members[3].0@,
        members.len() > 4 ==> members[0].0@ != members[4].0@ && members[1].0@ != members[4].0@
            && members[2].0@ != members[4].0@ && members[3].0@ != members[4].0@,
    ensures
        distinct_keys(members),
{
    assert forall|i: int, j: int| 0 <= i < j < members.len() implies (#[trigger] members[i]).0@ != (
    #[trigger] members[j]).0@ by {
        assert(j == 1 || j == 2 || j == 3 || j == 4);
        assert(i == 0 || i == 1 || i == 2 || i == 3);
    }
}

/// The string under a key of an object.
pub fn get_text(text: &str, key: &str) -> (r: Option<String>)
    ensures
        r is Some <==> outside::json_text_member(text@, key@) is Some,
        r matches Some(s) ==> outside::json_text_member(text@, key@) == Some(s@),
{
    outside::json_get_text(text, key)
}

/// The number under a key of an object.
pub fn get_u64(text: &str, key: &str) -> (r: Option<u64>)
    ensures
        r == outside::json_u64_member(text@, key@),
{
    outside::json_get_u64(text, key)
}

/// The text in compact form; none if it is no JSON.
pub fn compact(text: &str) -> (r: Option<String>)
    ensures
        r is Some <==> outside::json_compact(text@) is Some,
        r matches Some(s) ==> outside::json_compact(text@) == Some(s@),
{
    outside::json_rewrite(text)
}

/// A member that holds a string.
pub fn text_member(key: &str, value: &str) -> (r: (String, Field))
    ensures
        r.0@ == key@,
        r.1@ == FieldView::Text(value@),
{
    (key.to_owned(), Field::Text(value.to_owned()))
}

/// A member that holds a truth value.
pub fn flag_member(key: &str, value: bool) -> (r: (String, Field))
    ensures
        r.0@ == key@,
        r.1@ == FieldView::Flag(value),
{
    (key.to_owned(), Field::Flag(value))
}

/// A member that holds a number.
pub fn number_member(key: &str, value: u64) -> (r: (String, Field))
    ensures
        r.0@ == key@,
        r.1@ == FieldView::Number(value),
{
    (key.to_owned(), Field::Number(value))
}

/// A member that holds a string, or nothing.
pub fn option_member(key: &str, value: &Option<String>) -> (r: (String, Field))
    ensures
        r.0@ == key@,
        r.1@ == (match *value {
            Some(s) => FieldView::Text(s@),
            None => FieldView::Null,
        }),
{
    match value {
        Some(s) => (key.to_owned(), Field::Text(s.clone())),
        None => (key.to_owned(), Field::Null),
    }
}

/// What is under a key of an object, as JSON text.
pub fn get_member(text: &str, key: &str) -> (r: Option<String>)
    ensures
        r is Some <==> outside::json_member(text@, key@) is Some,
        r matches Some(s) ==> outside::json_member(text@, key@) == Some(s@),
{
    outside::json_get_member(text, key)
}

/// The object with the given members, as text.
pub fn object(members: &Vec<(String, Field)>) -> (r: String)
    requires
        plain_keys(members@),
    ensures
        r@ == outside::json_object_text(members_view(members@)),
        outside::json_compact(r@) == Some(r@),
        distinct_keys(members@) ==> forall|i: int|
            #![trigger members@[i]]
            0 <= i < members@.len() ==> match members@[i].1 {
                Field::Text(s) => outside::json_text_member(r@, members@[i].0@) == Some(s@),
                Field::Number(n) => outside::json_u64_member(r@, members@[i].0@) == Some(n),
                _ => outside::json_text_member(r@, members@[i].0@) is None,
            },
        distinct_keys(members@) ==> reads_back(r@, members_view(members@)),
{
    let r = outside::json_write_object(members);
    proof {
        if distinct_keys(members@) {
            let views = members_view(members@);
            assert forall|i: int| 0 <= i < views.len() implies {
                let (key, value) = #[trigger] views[i];
                match value {
                    FieldView::Text(s) => outside::json_text_member(r@, key) == Some(s),
                    FieldView::Number(n) => outside::json_u64_member(r@, key) == Some(n),
                    FieldView::Flag(b) => outside::json_member(r@, key) == Some(
                        if b {
                            "true"@
                        } else {
                            "false"@
                        },
                    ),
                    FieldView::Null => outside::json_member(r@, key) == Some("null"@),
                }
            } by {
                let m = members@[i];
                assert(views[i] == (m.0@, m.1@));
            }
        }
    }
    r
}

} // verus!

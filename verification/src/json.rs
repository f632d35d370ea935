//! A JSON document as a tree.

use crate::text::same_text;
use vstd::prelude::*;

verus! {

broadcast use crate::model::group_model;

/// A JSON value. A number that is not a whole one from zero on is only known
/// to be a number: nothing that is saved uses its value.
#[derive(Debug, PartialEq, Eq)]
pub enum Json {
    Null,
    Bool(bool),
    Number(u64),
    OtherNumber,
    Text(String),
    Array(Vec<Json>),
    Object(Vec<Field>),
}

/// A member of an object.
#[derive(Debug, PartialEq, Eq)]
pub struct Field {
    pub name: String,
    pub value: Json,
}

#[verifier::ext_equal]
pub enum JsonView {
    Null,
    Bool(bool),
    Number(u64),
    OtherNumber,
    Text(Seq<char>),
    Array(Seq<JsonView>),
    Object(Seq<FieldView>),
}

#[verifier::ext_equal]
pub struct FieldView {
    pub name: Seq<char>,
    pub value: JsonView,
}

impl Json {
    /// The value over plain texts and sequences.
    pub open spec fn tree(self) -> JsonView
        decreases self,
    {
        match self {
            Json::Null => JsonView::Null,
            Json::Bool(value) => JsonView::Bool(value),
            Json::Number(value) => JsonView::Number(value),
            Json::OtherNumber => JsonView::OtherNumber,
            Json::Text(text) => JsonView::Text(text@),
            Json::Array(items) => JsonView::Array(
                Seq::new(
                    items@.len(),
                    |i: int|
                        if 0 <= i < items@.len() {
                            items@[i].tree()
                        } else {
                            JsonView::Null
                        },
                ),
            ),
            Json::Object(fields) => JsonView::Object(
                Seq::new(
                    fields@.len(),
                    |i: int|
                        if 0 <= i < fields@.len() {
                            FieldView { name: fields@[i].name@, value: fields@[i].value.tree() }
                        } else {
                            FieldView { name: Seq::empty(), value: JsonView::Null }
                        },
                ),
            ),
        }
    }
}

impl View for Json {
    type V = JsonView;

    open spec fn view(&self) -> JsonView {
        self.tree()
    }
}

impl View for Field {
    type V = FieldView;

    open spec fn view(&self) -> FieldView {
        FieldView { name: self.name@, value: self.value@ }
    }
}

proof fn array_view(items: Vec<Json>)
    ensures
        Json::Array(items)@ == JsonView::Array(crate::model::seq(items@)),
{
    let value = Json::Array(items);
    assert(value@->Array_0 =~= crate::model::seq(items@));
}

proof fn object_view(fields: Vec<Field>)
    ensures
        Json::Object(fields)@ == JsonView::Object(crate::model::seq(fields@)),
{
    let value = Json::Object(fields);
    assert(value@->Object_0 =~= crate::model::seq(fields@));
}

/// Having the name `name`.
pub open spec fn named(name: Seq<char>) -> spec_fn(FieldView) -> bool {
    |field: FieldView| field.name == name
}

impl JsonView {
    /// The member `name` of an object.
    pub open spec fn field(self, name: Seq<char>) -> Option<JsonView> {
        match self {
            JsonView::Object(fields) => match crate::model::position(fields, named(name), 0) {
                Some(at) => Some(fields[at].value),
                None => None,
            },
            _ => None,
        }
    }

    pub open spec fn number(self) -> Option<u64> {
        match self {
            JsonView::Number(value) => Some(value),
            _ => None,
        }
    }

    pub open spec fn text(self) -> Option<Seq<char>> {
        match self {
            JsonView::Text(text) => Some(text),
            _ => None,
        }
    }

    /// Whether a record of `count` parts can be read here: from an object, by
    /// name, or from an array of no more parts, by place.
    pub open spec fn is_record(self, count: nat) -> bool {
        match self {
            JsonView::Object(_) => true,
            JsonView::Array(items) => items.len() <= count,
            _ => false,
        }
    }

    /// The part of a record that has this name, or this place.
    pub open spec fn part(self, name: Seq<char>, place: nat) -> Option<JsonView> {
        match self {
            JsonView::Array(items) => if place < items.len() {
                Some(items[place as int])
            } else {
                None
            },
            _ => self.field(name),
        }
    }
}

/// The number that a value is, where there is one.
pub open spec fn number_in(value: Option<JsonView>) -> Option<u64> {
    match value {
        Some(value) => value.number(),
        None => None,
    }
}

/// Whether nothing is said: the member is absent, or null.
pub open spec fn is_unsaid(value: Option<JsonView>) -> bool {
    value matches Some(value) ==> value is Null
}

impl Json {
    pub fn array(items: Vec<Json>) -> (value: Json)
        ensures
            value@ == JsonView::Array(crate::model::seq(items@)),
    {
        proof {
            array_view(items);
        }
        Json::Array(items)
    }

    pub fn object(fields: Vec<Field>) -> (value: Json)
        ensures
            value@ == JsonView::Object(crate::model::seq(fields@)),
    {
        proof {
            object_view(fields);
        }
        Json::Object(fields)
    }

    pub fn field(&self, name: &str) -> (found: Option<&Json>)
        ensures
            crate::model::opt(found) == self@.field(name@),
    {
        match self {
            Json::Object(fields) => {
                proof {
                    object_view(*fields);
                }
                let ghost members = crate::model::seq(fields@);
                let mut at: usize = 0;
                while at < fields.len()
                    invariant
                        at <= fields@.len(),
                        members == crate::model::seq(fields@),
                        self@ == JsonView::Object(members),
                        crate::model::position(members, named(name@), 0)
                            == crate::model::position(members, named(name@), at as int),
                    decreases fields@.len() - at,
                {
                    assert(members[at as int] == fields@[at as int]@);
                    if same_text(fields[at].name.as_str(), name) {
                        return Some(&fields[at].value);
                    }
                    at += 1;
                }
                None
            },
            _ => None,
        }
    }

    pub fn number(&self) -> (value: Option<u64>)
        ensures
            value == self@.number(),
    {
        match self {
            Json::Number(value) => Some(*value),
            _ => None,
        }
    }

    pub fn text(&self) -> (text: Option<&str>)
        ensures
            crate::model::opt(text) == self@.text(),
    {
        match self {
            Json::Text(text) => Some(text.as_str()),
            _ => None,
        }
    }

    pub fn is_null(&self) -> (null: bool)
        ensures
            null == (self@ is Null),
    {
        match self {
            Json::Null => true,
            _ => false,
        }
    }

    pub fn items(&self) -> (items: Option<&Vec<Json>>)
        ensures
            match items {
                Some(items) => self@ == JsonView::Array(crate::model::seq(items@)),
                None => !(self@ is Array),
            },
    {
        match self {
            Json::Array(items) => {
                proof {
                    array_view(*items);
                }
                Some(items)
            },
            _ => None,
        }
    }

    pub fn is_record(&self, count: usize) -> (record: bool)
        ensures
            record == self@.is_record(count as nat),
    {
        match self {
            Json::Object(_) => true,
            Json::Array(items) => items.len() <= count,
            _ => false,
        }
    }

    pub fn part(&self, name: &str, place: usize) -> (found: Option<&Json>)
        ensures
            crate::model::opt(found) == self@.part(name@, place as nat),
    {
        match self {
            Json::Array(items) => {
                proof {
                    array_view(*items);
                }
                if place < items.len() {
                    Some(&items[place])
                } else {
                    None
                }
            },
            _ => self.field(name),
        }
    }
}

/// The number that a member is, where there is one.
pub fn number_of(value: Option<&Json>) -> (number: Option<u64>)
    ensures
        number == number_in(crate::model::opt(value)),
{
    match value {
        Some(value) => value.number(),
        None => None,
    }
}

/// Whether a member is absent, or null.
pub fn unsaid(value: Option<&Json>) -> (nothing: bool)
    ensures
        nothing == is_unsaid(crate::model::opt(value)),
{
    match value {
        Some(value) => value.is_null(),
        None => true,
    }
}

} // verus!

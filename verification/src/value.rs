//! JSON values.
use vstd::prelude::*;

use crate::double::finite;
use crate::double::is_finite;
use crate::fields::Fields;
use crate::fields::distinct_keys;
use crate::fields::lemma_position;
use crate::fields::lemma_position_by_keys;
use crate::fields::lemma_position_is;
use crate::fields::lemma_value_is_part;
use crate::fields::lookup;

verus! {

/// The kinds of JSON number: a whole number from zero up, a whole number below zero, a double
/// given by its bits.
#[derive(Clone, Copy, Debug, PartialEq, Eq, Structural)]
pub enum NumberKind {
    PosInt(u64),
    NegInt(i64),
    Float(u64),
}

/// What every JSON number keeps to: a number of the second kind is below zero, and a double is
/// finite.
pub open spec fn valid_number(kind: NumberKind) -> bool {
    match kind {
        NumberKind::PosInt(_) => true,
        NumberKind::NegInt(n) => n < 0,
        NumberKind::Float(bits) => finite(bits),
    }
}

/// The number as a signed 64-bit integer, where it is whole and fits.
pub open spec fn signed(kind: NumberKind) -> Option<i64> {
    match kind {
        NumberKind::PosInt(n) => if n <= i64::MAX {
            Some(n as i64)
        } else {
            None
        },
        NumberKind::NegInt(n) => Some(n),
        NumberKind::Float(_) => None,
    }
}

/// The number as an unsigned 64-bit integer, where it is whole and not below zero.
pub open spec fn unsigned(kind: NumberKind) -> Option<u64> {
    match kind {
        NumberKind::PosInt(n) => Some(n),
        _ => None,
    }
}

/// The kind that a signed integer has.
pub open spec fn of_signed(n: i64) -> NumberKind {
    if n < 0 {
        NumberKind::NegInt(n)
    } else {
        NumberKind::PosInt(n as u64)
    }
}

/// A JSON number.
#[derive(Debug, PartialEq)]
pub struct Number {
    kind: NumberKind,
}

impl View for Number {
    type V = NumberKind;

    closed spec fn view(&self) -> NumberKind {
        self.kind
    }
}

impl Number {
    #[verifier::type_invariant]
    spec fn is_valid(self) -> bool {
        valid_number(self@)
    }

    /// The number of this kind, where it keeps to what JSON numbers keep to.
    pub fn new(kind: NumberKind) -> (r: Option<Number>)
        ensures
            r is Some <==> valid_number(kind),
            r matches Some(number) ==> number@ == kind,
    {
        let valid: bool = match kind {
            NumberKind::PosInt(_) => true,
            NumberKind::NegInt(n) => n < 0,
            NumberKind::Float(bits) => is_finite(bits),
        };
        if valid {
            Some(Number { kind })
        } else {
            None
        }
    }

    /// The number of an unsigned integer.
    pub fn from_unsigned(n: u64) -> (r: Number)
        ensures
            r@ == NumberKind::PosInt(n),
    {
        Number { kind: NumberKind::PosInt(n) }
    }

    /// The number of a signed integer.
    pub fn from_signed(n: i64) -> (r: Number)
        ensures
            r@ == of_signed(n),
    {
        if n < 0 {
            Number { kind: NumberKind::NegInt(n) }
        } else {
            Number { kind: NumberKind::PosInt(n as u64) }
        }
    }

    /// The kind of the number, which is valid.
    pub fn kind(&self) -> (kind: NumberKind)
        ensures
            kind == self@,
            valid_number(kind),
    {
        proof {
            use_type_invariant(self);
        }
        self.kind
    }

    /// The number as a signed 64-bit integer, where it is whole and fits.
    pub fn as_i64(&self) -> (r: Option<i64>)
        ensures
            r == signed(self@),
    {
        match self.kind {
            NumberKind::PosInt(n) => if n <= 9223372036854775807 {
                Some(n as i64)
            } else {
                None
            },
            NumberKind::NegInt(n) => Some(n),
            NumberKind::Float(_) => None,
        }
    }

    /// The number as an unsigned 64-bit integer, where it is whole and not below zero.
    pub fn as_u64(&self) -> (r: Option<u64>)
        ensures
            r == unsigned(self@),
    {
        match self.kind {
            NumberKind::PosInt(n) => Some(n),
            _ => None,
        }
    }
}

/// What a JSON value holds.
pub enum JsonView {
    Null,
    Bool(bool),
    Number(NumberKind),
    String(Seq<char>),
    Array(Seq<JsonView>),
    Object(Seq<(Seq<char>, JsonView)>),
}

/// A JSON value.
#[derive(Debug, PartialEq)]
pub enum Json {
    Null,
    Bool(bool),
    Number(Number),
    String(String),
    Array(Vec<Json>),
    Object(Fields<Json>),
}

impl Json {
    /// What the value holds.
    pub open spec fn tree(self) -> JsonView
        decreases self,
    {
        match self {
            Json::Null => JsonView::Null,
            Json::Bool(b) => JsonView::Bool(b),
            Json::Number(n) => JsonView::Number(n@),
            Json::String(s) => JsonView::String(s@),
            Json::Array(items) => JsonView::Array(
                Seq::new(
                    items@.len(),
                    |i: int|
                        if 0 <= i < items@.len() {
                            items@[i].tree()
                        } else {
                            JsonView::Null
                        },
                ),
            ),
            Json::Object(fields) => {
                proof {
                    lemma_value_is_part(fields);
                }
                JsonView::Object(
                    Seq::new(
                        fields@.len(),
                        |i: int|
                            if 0 <= i < fields@.len() {
                                (fields@[i].0, fields@[i].1.tree())
                            } else {
                                (fields@[i].0, JsonView::Null)
                            },
                    ),
                )
            },
        }
    }
}

impl View for Json {
    type V = JsonView;

    open spec fn view(&self) -> JsonView {
        self.tree()
    }
}

/// The value under `key` of an object; nothing of any other value.
pub open spec fn member(value: JsonView, key: Seq<char>) -> Option<JsonView> {
    match value {
        JsonView::Object(fields) => lookup(fields, key),
        _ => None,
    }
}

/// The text under `key`.
pub open spec fn member_text(value: JsonView, key: Seq<char>) -> Option<Seq<char>> {
    match member(value, key) {
        Some(JsonView::String(text)) => Some(text),
        _ => None,
    }
}

/// The truth value under `key`.
pub open spec fn member_bool(value: JsonView, key: Seq<char>) -> Option<bool> {
    match member(value, key) {
        Some(JsonView::Bool(b)) => Some(b),
        _ => None,
    }
}

/// The signed integer under `key`.
pub open spec fn member_i64(value: JsonView, key: Seq<char>) -> Option<i64> {
    match member(value, key) {
        Some(JsonView::Number(n)) => signed(n),
        _ => None,
    }
}

/// The unsigned integer under `key`.
pub open spec fn member_u64(value: JsonView, key: Seq<char>) -> Option<u64> {
    match member(value, key) {
        Some(JsonView::Number(n)) => unsigned(n),
        _ => None,
    }
}

impl Json {
    /// The value under `key`, where this value is an object that has the key.
    pub fn get(&self, key: &str) -> (r: Option<&Json>)
        ensures
            match r {
                Some(value) => member(self@, key@) == Some(value@),
                None => member(self@, key@) is None,
            },
    {
        match self {
            Json::Object(fields) => {
                proof {
                    lemma_position_by_keys(fields@, self@->Object_0, key@);
                    lemma_position(fields@, key@);
                }
                fields.get(key)
            },
            _ => None,
        }
    }

    /// The text under `key`.
    pub fn text_at(&self, key: &str) -> (r: Option<&String>)
        ensures
            match r {
                Some(text) => member_text(self@, key@) == Some(text@),
                None => member_text(self@, key@) is None,
            },
    {
        match self.get(key) {
            Some(Json::String(text)) => Some(text),
            _ => None,
        }
    }

    /// The truth value under `key`.
    pub fn bool_at(&self, key: &str) -> (r: Option<bool>)
        ensures
            r == member_bool(self@, key@),
    {
        match self.get(key) {
            Some(Json::Bool(b)) => Some(*b),
            _ => None,
        }
    }

    /// The signed integer under `key`.
    pub fn i64_at(&self, key: &str) -> (r: Option<i64>)
        ensures
            r == member_i64(self@, key@),
    {
        match self.get(key) {
            Some(Json::Number(n)) => n.as_i64(),
            _ => None,
        }
    }

    /// The unsigned integer under `key`.
    pub fn u64_at(&self, key: &str) -> (r: Option<u64>)
        ensures
            r == member_u64(self@, key@),
    {
        match self.get(key) {
            Some(Json::Number(n)) => n.as_u64(),
            _ => None,
        }
    }
}

/// What some pairs of a key and a value hold.
pub open spec fn pair_views(pairs: Seq<(&'static str, Json)>) -> Seq<(Seq<char>, JsonView)> {
    Seq::new(pairs.len(), |i: int| (pairs[i].0@, pairs[i].1@))
}

/// A JSON text.
pub fn json_string(text: &str) -> (r: Json)
    ensures
        r@ == JsonView::String(text@),
{
    Json::String(text.to_owned())
}

/// An object of some pairs, in their order.
pub fn json_object(pairs: Vec<(&'static str, Json)>) -> (r: Json)
    requires
        distinct_keys(pair_views(pairs@)),
    ensures
        r@ == JsonView::Object(pair_views(pairs@)),
{
    let ghost views = pair_views(pairs@);
    let mut fields: Fields<Json> = Fields::new();
    for pair in it: pairs
        invariant
            it.seq() == pairs@,
            views == pair_views(pairs@),
            distinct_keys(views),
            fields@.len() == it.index(),
            forall|j: int|
                0 <= j < fields@.len() ==> (#[trigger] fields@[j]).0 == views[j].0
                    && fields@[j].1@ == views[j].1,
    {
        let (key, value) = pair;
        proof {
            assert(views[it.index() as int] == (key@, value@));
            assert forall|j: int| 0 <= j < fields@.len() implies (#[trigger] fields@[j]).0
                != key@ by {
                assert(views[j].0 != views[it.index() as int].0);
            }
            lemma_position_is(fields@, key@, fields@.len() as int);
        }
        fields.insert(key.to_owned(), value);
    }
    let r = Json::Object(fields);
    assert(r@->Object_0 =~= views);
    r
}

} // verus!

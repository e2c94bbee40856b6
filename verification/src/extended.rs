//! Extended JSON: how BSON values are written in JSON.
use vstd::prelude::*;

use crate::bson::BsonView;
use crate::double::finite;
use crate::text::signed_decimal;
use crate::value::JsonView;
use crate::value::NumberKind;
use crate::value::of_signed;

verus! {

/// The number that a hexadecimal digit of either case writes.
pub open spec fn hex_digit(c: char) -> Option<int> {
    if '0' <= c <= '9' {
        Some(c as int - 48)
    } else if 'a' <= c <= 'f' {
        Some(c as int - 87)
    } else if 'A' <= c <= 'F' {
        Some(c as int - 55)
    } else {
        None
    }
}

/// The hexadecimal digit of a number, in lower case.
pub open spec fn hex_char(n: int) -> char {
    if n < 10 {
        (48 + n) as char
    } else {
        (87 + n) as char
    }
}

/// The bytes of the object id that a text of 24 hexadecimal digits writes.
pub open spec fn object_id_bytes(text: Seq<char>) -> Option<Seq<u8>> {
    if text.len() == 24 && forall|i: int|
        0 <= i < 24 ==> hex_digit(#[trigger] text[i]) is Some {
        Some(
            Seq::new(
                12,
                |i: int|
                    (16 * hex_digit(text[2 * i])->0 + hex_digit(text[2 * i + 1])->0) as u8,
            ),
        )
    } else {
        None
    }
}

/// Bytes in hexadecimal.
pub open spec fn hex_text(bytes: Seq<u8>) -> Seq<char> {
    Seq::new(
        2 * bytes.len(),
        |i: int|
            hex_char(
                if i % 2 == 0 {
                    bytes[i / 2] as int / 16
                } else {
                    bytes[i / 2] as int % 16
                },
            ),
    )
}

/// An object with one field.
pub open spec fn single(key: Seq<char>, value: JsonView) -> JsonView {
    JsonView::Object(seq![(key, value)])
}

/// A value of the types that the library looks into, with finite doubles.
pub open spec fn readable(value: BsonView) -> bool
    decreases value,
{
    match value {
        BsonView::Double(bits) => finite(bits),
        BsonView::Array(items) => forall|i: int| 0 <= i < items.len() ==> readable(#[trigger] items[i]),
        BsonView::Document(fields) => forall|i: int|
            0 <= i < fields.len() ==> readable((#[trigger] fields[i]).1),
        BsonView::CodeWithScope(_, scope) => forall|i: int|
            0 <= i < scope.len() ==> readable((#[trigger] scope[i]).1),
        BsonView::Other(_) => false,
        _ => true,
    }
}

/// The extended-JSON form of a readable value: an object id as `{"$oid": hex}`, a date as
/// `{"$date": {"$numberLong": millis}}`, bytes as an array of numbers,
/// code with its scope as `{"$code": code, "$scope": scope}`, all else as plain JSON.
pub open spec fn extended_json(value: BsonView) -> JsonView
    decreases value,
{
    match value {
        BsonView::Double(bits) => JsonView::Number(NumberKind::Float(bits)),
        BsonView::String(text) => JsonView::String(text),
        BsonView::Array(items) => JsonView::Array(
            Seq::new(
                items.len(),
                |i: int|
                    if 0 <= i < items.len() {
                        extended_json(items[i])
                    } else {
                        JsonView::Null
                    },
            ),
        ),
        BsonView::Document(fields) => JsonView::Object(
            Seq::new(
                fields.len(),
                |i: int|
                    if 0 <= i < fields.len() {
                        (fields[i].0, extended_json(fields[i].1))
                    } else {
                        (fields[i].0, JsonView::Null)
                    },
            ),
        ),
        BsonView::Boolean(b) => JsonView::Bool(b),
        BsonView::Null => JsonView::Null,
        BsonView::Int32(n) => JsonView::Number(of_signed(n as i64)),
        BsonView::Int64(n) => JsonView::Number(of_signed(n)),
        BsonView::ObjectId(bytes) => single("$oid"@, JsonView::String(hex_text(bytes))),
        BsonView::DateTime(millis) => single(
            "$date"@,
            single("$numberLong"@, JsonView::String(signed_decimal(millis as int))),
        ),
        BsonView::Bytes(bytes) => JsonView::Array(
            Seq::new(
                bytes.len(),
                |i: int| JsonView::Number(NumberKind::PosInt(bytes[i] as u64)),
            ),
        ),
        BsonView::CodeWithScope(code, scope) => JsonView::Object(
            seq![
                ("$code"@, JsonView::String(code)),
                (
                    "$scope"@,
                    JsonView::Object(
                        Seq::new(
                            scope.len(),
                            |i: int|
                                if 0 <= i < scope.len() {
                                    (scope[i].0, extended_json(scope[i].1))
                                } else {
                                    (scope[i].0, JsonView::Null)
                                },
                        ),
                    ),
                ),
            ],
        ),
        BsonView::Other(_) => JsonView::Null,
    }
}

/// Keys that mark an extended-JSON type whose value is a text.
pub open spec fn marks_text(key: Seq<char>) -> bool {
    ||| key == "$oid"@
    ||| key == "$symbol"@
    ||| key == "$numberInt"@
    ||| key == "$numberLong"@
    ||| key == "$numberDouble"@
    ||| key == "$numberDecimal"@
    ||| key == "$code"@
    ||| key == "$date"@
}

/// Keys that mark an extended-JSON type whose value is a document.
pub open spec fn marks_document(key: Seq<char>) -> bool {
    ||| key == "$binary"@
    ||| key == "$timestamp"@
    ||| key == "$regularExpression"@
    ||| key == "$dbPointer"@
}

/// A key and a value that, as the one field of a document, are written like an extended-JSON
/// type.
pub open spec fn marks_type(key: Seq<char>, value: BsonView) -> bool {
    match value {
        BsonView::String(_) => marks_text(key),
        BsonView::Document(_) => marks_document(key),
        BsonView::Int32(n) => n == 1 && (key == "$minKey"@ || key == "$maxKey"@),
        BsonView::Int64(n) => key == "$date"@ || n == 1 && (key == "$minKey"@ || key
            == "$maxKey"@),
        BsonView::Boolean(b) => b && key == "$undefined"@,
        BsonView::Bytes(_) => key == "$numberDecimalBytes"@,
        _ => false,
    }
}

/// Fields that are written like an extended-JSON type: one field that marks a type, or code and
/// its scope.
pub open spec fn written_like_type(fields: Seq<(Seq<char>, BsonView)>) -> bool {
    ||| fields.len() == 1 && marks_type(fields[0].0, fields[0].1)
    ||| fields.len() == 2 && fields[0].0 == "$code"@ && fields[0].1 is String && fields[1].0
        == "$scope"@ && fields[1].1 is Document
    ||| fields.len() == 2 && fields[0].0 == "$scope"@ && fields[0].1 is Document && fields[1].0
        == "$code"@ && fields[1].1 is String
}

/// A value of the types that the library looks into, in which no document is written like an
/// extended-JSON type.
pub open spec fn stable(value: BsonView) -> bool
    decreases value,
{
    match value {
        BsonView::Array(items) => forall|i: int| 0 <= i < items.len() ==> stable(#[trigger] items[i]),
        BsonView::Document(fields) => {
            &&& !written_like_type(fields)
            &&& forall|i: int| 0 <= i < fields.len() ==> stable((#[trigger] fields[i]).1)
        },
        BsonView::CodeWithScope(_, scope) => {
            &&& !written_like_type(scope)
            &&& forall|i: int| 0 <= i < scope.len() ==> stable((#[trigger] scope[i]).1)
        },
        BsonView::Other(_) => false,
        _ => true,
    }
}

/// A value that is, or holds at any depth, a double that is not finite.
pub open spec fn non_finite(value: BsonView) -> bool
    decreases value,
{
    match value {
        BsonView::Double(bits) => !finite(bits),
        BsonView::Array(items) => exists|i: int|
            0 <= i < items.len() && non_finite(#[trigger] items[i]),
        BsonView::Document(fields) => exists|i: int|
            0 <= i < fields.len() && non_finite((#[trigger] fields[i]).1),
        BsonView::CodeWithScope(_, scope) => exists|i: int|
            0 <= i < scope.len() && non_finite((#[trigger] scope[i]).1),
        _ => false,
    }
}

/// A value in which no document is written like an extended-JSON type, whatever else it holds.
pub open spec fn tame(value: BsonView) -> bool
    decreases value,
{
    match value {
        BsonView::Array(items) => forall|i: int| 0 <= i < items.len() ==> tame(#[trigger] items[i]),
        BsonView::Document(fields) => {
            &&& !written_like_type(fields)
            &&& forall|i: int| 0 <= i < fields.len() ==> tame((#[trigger] fields[i]).1)
        },
        BsonView::CodeWithScope(_, scope) => {
            &&& !written_like_type(scope)
            &&& forall|i: int| 0 <= i < scope.len() ==> tame((#[trigger] scope[i]).1)
        },
        _ => true,
    }
}

} // verus!

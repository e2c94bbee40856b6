//! What the JSON crate, the driver and the standard library compute for this library: reading
//! JSON texts, object ids, dates and numbers, and writing BSON and JSON.
use vstd::prelude::*;

use std::num::ParseFloatError;

use mongodb::bson::Bson as DriverBson;
use mongodb::bson::DateTime;
use mongodb::bson::oid::ObjectId;
use serde_json::Value as OutsideJson;

use crate::bson::BsonView;
use crate::bson::bson_tree;
use crate::extended::extended_json;
use crate::extended::non_finite;
use crate::extended::object_id_bytes;
use crate::extended::readable;
use crate::extended::stable;
use crate::extended::tame;
use crate::outside::json_tree;
use crate::text::blank;
use crate::text::decimal;
use crate::text::signed_decimal;
use crate::text::whole_number;
use crate::value::JsonView;
use crate::value::NumberKind;

verus! {

/// What `serde_json::from_str` makes of a text: the value that it writes, or the text of the
/// error.
pub uninterp spec fn json_text(text: Seq<char>) -> Result<JsonView, Seq<char>>;

/// Reads a JSON text with `serde_json::from_str`. What comes of it is named by `json_text`. A text
/// that is empty or holds white space alone is refused: the parser skips spaces, tabs and line ends,
/// and then misses a value at the end of the text or at a character that starts none.
#[verifier::external_body]
pub(crate) fn read_json(text: &str) -> (r: Result<OutsideJson, String>)
    ensures
        json_text(text@) == match r {
            Ok(value) => Ok(json_tree(value)),
            Err(err) => Err(err@),
        },
        blank(text@) ==> r is Err,
{
    serde_json::from_str(text).map_err(|err| err.to_string())
}

/// What `serde_json::to_vec` makes of a value: the bytes of its JSON text, or the text of the
/// error.
pub uninterp spec fn json_bytes(value: JsonView) -> Result<Seq<u8>, Seq<char>>;

/// Writes a JSON value as text with `serde_json::to_vec`. What comes of it is named by
/// `json_bytes`.
#[verifier::external_body]
pub(crate) fn write_json(value: &OutsideJson) -> (r: Result<Vec<u8>, String>)
    ensures
        json_bytes(json_tree(*value)) == match r {
            Ok(bytes) => Ok(bytes@),
            Err(err) => Err(err@),
        },
{
    serde_json::to_vec(value).map_err(|err| err.to_string())
}

/// How `serde_json::Number` writes a double.
pub uninterp spec fn fraction_text(bits: u64) -> Seq<char>;

/// How `serde_json::Number` writes a number: a whole number in decimal.
pub open spec fn number_text(kind: NumberKind) -> Seq<char> {
    match kind {
        NumberKind::PosInt(n) => decimal(n as nat),
        NumberKind::NegInt(n) => signed_decimal(n as int),
        NumberKind::Float(bits) => fraction_text(bits),
    }
}

/// Writes a number with the `to_string` of `serde_json::Value`, which for a number is that of
/// `serde_json::Number`: a whole number in decimal, a double as `fraction_text` names it.
#[verifier::external_body]
pub(crate) fn write_number(value: &OutsideJson) -> (r: String)
    requires
        json_tree(*value) is Number,
    ensures
        r@ == match json_tree(*value)->Number_0 {
            NumberKind::PosInt(n) => decimal(n as nat),
            NumberKind::NegInt(n) => signed_decimal(n as int),
            NumberKind::Float(bits) => fraction_text(bits),
        },
{
    value.to_string()
}

/// What `mongodb::bson::to_bson` makes of a value: a value again, or the text of the error.
pub uninterp spec fn settled(value: BsonView) -> Result<BsonView, Seq<char>>;

/// Serialises a value into BSON with `mongodb::bson::to_bson`. What comes of it is named by
/// `settled`. A value of the types that the library looks into, in which no document is written
/// like an extended-JSON type, comes out as it went in. With values of other types in it, a value
/// still comes out, and it holds a double that is not finite exactly where the first did.
#[verifier::external_body]
pub(crate) fn settle(value: &DriverBson) -> (r: Result<DriverBson, String>)
    ensures
        settled(bson_tree(*value)) == match r {
            Ok(bson) => Ok(bson_tree(bson)),
            Err(err) => Err(err@),
        },
        stable(bson_tree(*value)) ==> r is Ok && bson_tree(r->Ok_0) == bson_tree(*value),
        tame(bson_tree(*value)) ==> r is Ok && non_finite(bson_tree(r->Ok_0)) == non_finite(
            bson_tree(*value),
        ),
{
    mongodb::bson::to_bson(value).map_err(|err| err.to_string())
}

/// What `serde_json::to_value` makes of a BSON value: a JSON value, or the text of the error.
pub uninterp spec fn json_value(value: BsonView) -> Result<JsonView, Seq<char>>;

/// Serialises a BSON value into JSON with `serde_json::to_value`. What comes of it is named by
/// `json_value`: always a JSON value, and of a value of the types that the library looks into,
/// with finite doubles, its extended-JSON form.
#[verifier::external_body]
pub(crate) fn bson_to_json(value: &DriverBson) -> (r: Result<OutsideJson, String>)
    ensures
        json_value(bson_tree(*value)) == match r {
            Ok(json) => Ok(json_tree(json)),
            Err(err) => Err(err@),
        },
        r is Ok,
        readable(bson_tree(*value)) ==> r is Ok && json_tree(r->Ok_0) == extended_json(
            bson_tree(*value),
        ),
{
    serde_json::to_value(value).map_err(|err| err.to_string())
}

/// The text of the error that `ObjectId::parse_str` has for a text that is no object id.
pub uninterp spec fn object_id_complaint(text: Seq<char>) -> Seq<char>;

/// Reads an object id with `mongodb::bson::oid::ObjectId::parse_str`: a text of 24 hexadecimal
/// digits gives the twelve bytes that they write, and no other text does. The text of the error
/// is named by `object_id_complaint`.
#[verifier::external_body]
pub(crate) fn read_object_id(text: &str) -> (r: Result<[u8; 12], String>)
    ensures
        match r {
            Ok(bytes) => object_id_bytes(text@) == Some(bytes@),
            Err(err) => object_id_bytes(text@) is None && err@ == object_id_complaint(text@),
        },
{
    ObjectId::parse_str(text).map(|id| id.bytes()).map_err(|err| err.to_string())
}

/// What `DateTime::parse_rfc3339_str` makes of a text: the milliseconds since the epoch, or the
/// text of the error.
pub uninterp spec fn date_text(text: Seq<char>) -> Result<i64, Seq<char>>;

/// Reads a date with `mongodb::bson::DateTime::parse_rfc3339_str`. What comes of it is named by
/// `date_text`.
#[verifier::external_body]
pub(crate) fn read_date(text: &str) -> (r: Result<i64, String>)
    ensures
        date_text(text@) == match r {
            Ok(millis) => Ok(millis),
            Err(err) => Err(err@),
        },
{
    DateTime::parse_rfc3339_str(text).map(|date| date.timestamp_millis()).map_err(
        |err| err.to_string(),
    )
}

/// The text of the error that `i64::from_str` has for a text that is no such integer.
pub uninterp spec fn int64_complaint(text: Seq<char>) -> Seq<char>;

/// The signed 64-bit integer that a text writes.
pub open spec fn int64(text: Seq<char>) -> Result<i64, Seq<char>> {
    match whole_number(text) {
        Some(n) => if i64::MIN <= n <= i64::MAX {
            Ok(n as i64)
        } else {
            Err(int64_complaint(text))
        },
        None => Err(int64_complaint(text)),
    }
}

/// Reads an integer with `str::parse` into `i64`: decimal digits, after a sign or none, that
/// write a number in range give it, and no other text does. The text of the error is named by
/// `int64_complaint`.
#[verifier::external_body]
pub(crate) fn read_int64(text: &str) -> (r: Result<i64, String>)
    ensures
        match r {
            Ok(n) => whole_number(text@) == Some(n as int),
            Err(err) => err@ == int64_complaint(text@) && !(whole_number(text@) matches Some(n)
                && i64::MIN <= n <= i64::MAX),
        },
{
    text.parse::<i64>().map_err(|err| err.to_string())
}

/// The text of the error that `i32::from_str` has for a text that is no such integer.
pub uninterp spec fn int32_complaint(text: Seq<char>) -> Seq<char>;

/// The signed 32-bit integer that a text writes.
pub open spec fn int32(text: Seq<char>) -> Result<i32, Seq<char>> {
    match whole_number(text) {
        Some(n) => if i32::MIN <= n <= i32::MAX {
            Ok(n as i32)
        } else {
            Err(int32_complaint(text))
        },
        None => Err(int32_complaint(text)),
    }
}

/// Reads an integer with `str::parse` into `i32`: decimal digits, after a sign or none, that
/// write a number in range give it, and no other text does. The text of the error is named by
/// `int32_complaint`.
#[verifier::external_body]
pub(crate) fn read_int32(text: &str) -> (r: Result<i32, String>)
    ensures
        match r {
            Ok(n) => whole_number(text@) == Some(n as int),
            Err(err) => err@ == int32_complaint(text@) && !(whole_number(text@) matches Some(n)
                && i32::MIN <= n <= i32::MAX),
        },
{
    text.parse::<i32>().map_err(|err| err.to_string())
}

/// What `str::parse` into a double makes of a text: the double's bits, or the text of the error.
pub uninterp spec fn double_text(text: Seq<char>) -> Result<u64, Seq<char>>;

/// Reads a double with `str::parse`, and hands it out as a value of the driver. What comes of it
/// is named by `double_text`.
#[verifier::external_body]
pub(crate) fn read_double(text: &str) -> (r: Result<DriverBson, String>)
    ensures
        match r {
            Ok(value) => bson_tree(value) is Double && double_text(text@) == Ok::<u64, Seq<char>>(
                bson_tree(value)->Double_0,
            ),
            Err(err) => double_text(text@) == Err::<u64, Seq<char>>(err@),
        },
{
    match text.parse() {
        Ok(double) => Ok(DriverBson::Double(double)),
        Err(err) => Err(ParseFloatError::to_string(&err)),
    }
}

} // verus!

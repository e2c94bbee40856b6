//! From JSON to BSON and back.
//!
//! The host gives configurations as plain JSON, in which a document may stand as JSON text. Here
//! such a field becomes a BSON document, and documents become plain JSON again.
//!
//! An object whose one key is `$oid`, `$date`, `$numberLong`, `$numberInt` or `$numberDouble` is
//! taken for the value of that type, at any depth. Every other object, one with a query operator
//! such as `$gt` among them, is converted field by field.
use vstd::prelude::*;

use crate::bson::BsonValue;
use crate::bson::BsonView;
use crate::bson::Document;
use crate::bson::document_tree;
use crate::calls::bson_to_json;
use crate::calls::date_text;
use crate::calls::double_text;
use crate::calls::int32;
use crate::calls::int64;
use crate::calls::json_text;
use crate::calls::json_value;
use crate::calls::number_text;
use crate::calls::object_id_complaint;
use crate::calls::read_date;
use crate::calls::read_double;
use crate::calls::read_int32;
use crate::calls::read_int64;
use crate::calls::read_json;
use crate::calls::read_object_id;
use crate::calls::settle;
use crate::calls::settled;
use crate::calls::write_number;
use crate::collect::collected;
use crate::collect::lemma_collected_error;
use crate::collect::lemma_collected_next;
use crate::double::finite;
use crate::double::is_finite;
use crate::double::lemma_told;
use crate::double::told;
use crate::extended::extended_json;
use crate::extended::non_finite;
use crate::extended::object_id_bytes;
use crate::extended::readable;
use crate::extended::stable;
use crate::extended::tame;
use crate::fields::Fields;
use crate::fields::distinct_keys;
use crate::fields::lemma_position_is;
use crate::i18n::Locale;
use crate::i18n::caused;
use crate::i18n::message;
use crate::i18n::message_naming;
use crate::i18n::message_naming_cause;
use crate::i18n::message_of;
use crate::i18n::naming;
use crate::i18n::naming_cause;
use crate::i18n::said;
use crate::outside::bson_from_driver;
use crate::outside::bson_to_driver;
use crate::outside::document_to_driver;
use crate::outside::double_bits;
use crate::outside::json_from_outside;
use crate::outside::number_to_outside;
use crate::text::blank;
use crate::text::is_blank;
use crate::text::same;
use crate::value::Json;
use crate::value::JsonView;
use crate::value::NumberKind;
use crate::value::member;
use crate::value::member_text;
use crate::value::signed;

verus! {

/// A key that marks a type which the library reads.
pub open spec fn is_wrapper(key: Seq<char>) -> bool {
    ||| key == "$oid"@
    ||| key == "$date"@
    ||| key == "$numberLong"@
    ||| key == "$numberInt"@
    ||| key == "$numberDouble"@
}

/// The text of the number in a numeric wrapper: a text as it stands, or a number as it is written.
pub open spec fn wrapped_number(value: JsonView, key: Seq<char>, chinese: bool) -> Result<
    Seq<char>,
    Seq<char>,
> {
    match value {
        JsonView::String(text) => Ok(text),
        JsonView::Number(kind) => Ok(number_text(kind)),
        _ => Err(
            naming(
                said(
                    "字段 {key} 必须是 JSON 字符串或数字"@,
                    "field {key} must be a JSON string or number"@,
                    chinese,
                ),
                key,
            ),
        ),
    }
}

/// The object id that the text of an `$oid` was read as.
pub open spec fn object_id_of_text(read: Result<Seq<u8>, Seq<char>>, chinese: bool) -> Result<
    BsonView,
    Seq<char>,
> {
    match read {
        Ok(bytes) => Ok(BsonView::ObjectId(bytes)),
        Err(err) => Err(
            caused(
                said(
                    "字段 $oid 不是合法 ObjectId"@,
                    "field $oid is not a valid ObjectId"@,
                    chinese,
                ),
                err,
            ),
        ),
    }
}

/// The date that the text of a `$date` was read as.
pub open spec fn date_of_text(read: Result<i64, Seq<char>>, chinese: bool) -> Result<
    BsonView,
    Seq<char>,
> {
    match read {
        Ok(millis) => Ok(BsonView::DateTime(millis)),
        Err(err) => Err(
            caused(
                said(
                    "字段 $date 不是合法 ISO-8601"@,
                    "field $date is not valid ISO-8601"@,
                    chinese,
                ),
                err,
            ),
        ),
    }
}

/// The date that the milliseconds of a `$date` were read as.
pub open spec fn millis_of_text(read: Result<i64, Seq<char>>, chinese: bool) -> Result<
    BsonView,
    Seq<char>,
> {
    match read {
        Ok(millis) => Ok(BsonView::DateTime(millis)),
        Err(err) => Err(
            caused(
                said(
                    "字段 $date.$numberLong 不是合法整数"@,
                    "field $date.$numberLong is not a valid integer"@,
                    chinese,
                ),
                err,
            ),
        ),
    }
}

/// The integer that the text of a `$numberLong` was read as.
pub open spec fn int64_of_text(read: Result<i64, Seq<char>>, chinese: bool) -> Result<
    BsonView,
    Seq<char>,
> {
    match read {
        Ok(n) => Ok(BsonView::Int64(n)),
        Err(err) => Err(
            caused(
                said(
                    "字段 $numberLong 不是合法 Int64"@,
                    "field $numberLong is not a valid Int64"@,
                    chinese,
                ),
                err,
            ),
        ),
    }
}

/// The integer that the text of a `$numberInt` was read as.
pub open spec fn int32_of_text(read: Result<i32, Seq<char>>, chinese: bool) -> Result<
    BsonView,
    Seq<char>,
> {
    match read {
        Ok(n) => Ok(BsonView::Int32(n)),
        Err(err) => Err(
            caused(
                said(
                    "字段 $numberInt 不是合法 Int32"@,
                    "field $numberInt is not a valid Int32"@,
                    chinese,
                ),
                err,
            ),
        ),
    }
}

/// The double, given by its bits, that the text of a `$numberDouble` was read as.
pub open spec fn double_of_text(read: Result<u64, Seq<char>>, chinese: bool) -> Result<
    BsonView,
    Seq<char>,
> {
    match read {
        Ok(bits) => Ok(BsonView::Double(told(bits))),
        Err(err) => Err(
            caused(
                said(
                    "字段 $numberDouble 不是合法 Double"@,
                    "field $numberDouble is not a valid Double"@,
                    chinese,
                ),
                err,
            ),
        ),
    }
}

/// The object id in `{"$oid": value}`.
pub open spec fn wrapped_object_id(value: JsonView, chinese: bool) -> Result<BsonView, Seq<char>> {
    match value {
        JsonView::String(text) => object_id_of_text(
            match object_id_bytes(text) {
                Some(bytes) => Ok(bytes),
                None => Err(object_id_complaint(text)),
            },
            chinese,
        ),
        _ => Err(
            said(
                "字段 $oid 必须是 24 位 hex 字符串"@,
                "field $oid must be a 24-char hex string"@,
                chinese,
            ),
        ),
    }
}

/// The date in `{"$date": value}`.
pub open spec fn wrapped_date(value: JsonView, chinese: bool) -> Result<BsonView, Seq<char>> {
    match value {
        JsonView::String(text) => date_of_text(date_text(text), chinese),
        JsonView::Object(_) => match member_text(value, "$numberLong"@) {
            Some(text) => millis_of_text(int64(text), chinese),
            None => Err(
                said(
                    "字段 $date 对象形式必须是 {\"$numberLong\": \"<ms>\"}"@,
                    "field $date object form must be {\"$numberLong\": \"<ms>\"}"@,
                    chinese,
                ),
            ),
        },
        _ => Err(
            said(
                "字段 $date 必须是 ISO-8601 字符串或 {\"$numberLong\": \"<ms>\"}"@,
                "field $date must be an ISO-8601 string or {\"$numberLong\": \"<ms>\"}"@,
                chinese,
            ),
        ),
    }
}

/// The integer in `{"$numberLong": value}`.
pub open spec fn wrapped_int64(value: JsonView, chinese: bool) -> Result<BsonView, Seq<char>> {
    match wrapped_number(value, "$numberLong"@, chinese) {
        Ok(text) => int64_of_text(int64(text), chinese),
        Err(err) => Err(err),
    }
}

/// The integer in `{"$numberInt": value}`.
pub open spec fn wrapped_int32(value: JsonView, chinese: bool) -> Result<BsonView, Seq<char>> {
    match wrapped_number(value, "$numberInt"@, chinese) {
        Ok(text) => int32_of_text(int32(text), chinese),
        Err(err) => Err(err),
    }
}

/// The double in `{"$numberDouble": value}`.
pub open spec fn wrapped_double(value: JsonView, chinese: bool) -> Result<BsonView, Seq<char>> {
    match wrapped_number(value, "$numberDouble"@, chinese) {
        Ok(text) => double_of_text(double_text(text), chinese),
        Err(err) => Err(err),
    }
}

/// The value of the type that `key` marks.
pub open spec fn wrapped(key: Seq<char>, value: JsonView, chinese: bool) -> Result<
    BsonView,
    Seq<char>,
> {
    if key == "$oid"@ {
        wrapped_object_id(value, chinese)
    } else if key == "$date"@ {
        wrapped_date(value, chinese)
    } else if key == "$numberLong"@ {
        wrapped_int64(value, chinese)
    } else if key == "$numberInt"@ {
        wrapped_int32(value, chinese)
    } else {
        wrapped_double(value, chinese)
    }
}

/// What a JSON number is in BSON: a whole number an `Int64`, where it fits.
pub open spec fn number_bson(kind: NumberKind, chinese: bool) -> Result<BsonView, Seq<char>> {
    match signed(kind) {
        Some(n) => Ok(BsonView::Int64(n)),
        None => match kind {
            NumberKind::Float(bits) => Ok(BsonView::Double(told(bits))),
            _ => Err(
                said("u64 超出 BSON Int64 范围"@, "u64 exceeds BSON Int64 range"@, chinese),
            ),
        },
    }
}

/// What a JSON value is in BSON, or what is wrong with it.
pub open spec fn bson_of(value: JsonView, chinese: bool) -> Result<BsonView, Seq<char>>
    decreases value,
{
    match value {
        JsonView::Null => Ok(BsonView::Null),
        JsonView::Bool(b) => Ok(BsonView::Boolean(b)),
        JsonView::Number(kind) => number_bson(kind, chinese),
        JsonView::String(text) => Ok(BsonView::String(text)),
        JsonView::Array(items) => match collected(bson_of_items(items, chinese)) {
            Ok(all) => Ok(BsonView::Array(all)),
            Err(err) => Err(err),
        },
        JsonView::Object(fields) => if fields.len() == 1 && is_wrapper(fields[0].0) {
            wrapped(fields[0].0, fields[0].1, chinese)
        } else {
            match collected(bson_of_fields(fields, chinese)) {
                Ok(all) => Ok(BsonView::Document(keyed(fields, all))),
                Err(err) => Err(err),
            }
        },
    }
}

/// What the values of an array are in BSON, one by one.
pub open spec fn bson_of_items(items: Seq<JsonView>, chinese: bool) -> Seq<
    Result<BsonView, Seq<char>>,
>
    decreases items,
{
    Seq::new(
        items.len(),
        |i: int|
            if 0 <= i < items.len() {
                bson_of(items[i], chinese)
            } else {
                Ok(BsonView::Null)
            },
    )
}

/// What the values of an object are in BSON, one by one.
pub open spec fn bson_of_fields(fields: Seq<(Seq<char>, JsonView)>, chinese: bool) -> Seq<
    Result<BsonView, Seq<char>>,
>
    decreases fields,
{
    Seq::new(
        fields.len(),
        |i: int|
            if 0 <= i < fields.len() {
                bson_of(fields[i].1, chinese)
            } else {
                Ok(BsonView::Null)
            },
    )
}

/// Values under the keys of some fields.
pub open spec fn keyed<A, B>(fields: Seq<(Seq<char>, A)>, values: Seq<B>) -> Seq<(Seq<char>, B)> {
    Seq::new(fields.len(), |i: int| (fields[i].0, values[i]))
}

/// What each of some values holds.
pub open spec fn trees(values: Seq<BsonValue>) -> Seq<BsonView> {
    Seq::new(values.len(), |i: int| values[i]@)
}

/// What the value of each of some fields holds.
pub open spec fn value_trees(fields: Seq<(Seq<char>, BsonValue)>) -> Seq<BsonView> {
    Seq::new(fields.len(), |i: int| fields[i].1@)
}

/// A result by the views of its two sides.
pub open spec fn viewed(r: Result<BsonValue, String>) -> Result<BsonView, Seq<char>> {
    match r {
        Ok(value) => Ok(value@),
        Err(err) => Err(err@),
    }
}

/// The text of the number in a numeric wrapper: it should be a text, and a plain number is taken
/// too.
pub fn number_wrapper_text(value: &Json, key: &str, locale: &Locale) -> (r: Result<String, String>)
    ensures
        wrapped_number(value@, key@, locale.chinese()) == match r {
            Ok(text) => Ok(text@),
            Err(err) => Err(err@),
        },
{
    match value {
        Json::String(text) => Ok(text.clone()),
        Json::Number(number) => {
            let outside = number_to_outside(number);
            Ok(write_number(&outside))
        },
        _ => Err(
            message_naming(
                "字段 {key} 必须是 JSON 字符串或数字",
                "field {key} must be a JSON string or number",
                key,
                locale,
            ),
        ),
    }
}

/// The object id that the text of an `$oid` was read as.
pub fn object_id_from_text(read: Result<[u8; 12], String>, locale: &Locale) -> (r: Result<
    BsonValue,
    String,
>)
    ensures
        viewed(r) == object_id_of_text(
            match read {
                Ok(bytes) => Ok(bytes@),
                Err(err) => Err(err@),
            },
            locale.chinese(),
        ),
{
    match read {
        Ok(bytes) => Ok(BsonValue::ObjectId(bytes)),
        Err(err) => Err(
            message_of(
                "字段 $oid 不是合法 ObjectId",
                "field $oid is not a valid ObjectId",
                err.as_str(),
                locale,
            ),
        ),
    }
}

/// The date that the text of a `$date` was read as.
pub fn date_from_text(read: Result<i64, String>, locale: &Locale) -> (r: Result<
    BsonValue,
    String,
>)
    ensures
        viewed(r) == date_of_text(
            match read {
                Ok(millis) => Ok(millis),
                Err(err) => Err(err@),
            },
            locale.chinese(),
        ),
{
    match read {
        Ok(millis) => Ok(BsonValue::DateTime(millis)),
        Err(err) => Err(
            message_of(
                "字段 $date 不是合法 ISO-8601",
                "field $date is not valid ISO-8601",
                err.as_str(),
                locale,
            ),
        ),
    }
}

/// The date that the milliseconds of a `$date` were read as.
pub fn millis_from_text(read: Result<i64, String>, locale: &Locale) -> (r: Result<
    BsonValue,
    String,
>)
    ensures
        viewed(r) == millis_of_text(
            match read {
                Ok(millis) => Ok(millis),
                Err(err) => Err(err@),
            },
            locale.chinese(),
        ),
{
    match read {
        Ok(millis) => Ok(BsonValue::DateTime(millis)),
        Err(err) => Err(
            message_of(
                "字段 $date.$numberLong 不是合法整数",
                "field $date.$numberLong is not a valid integer",
                err.as_str(),
                locale,
            ),
        ),
    }
}

/// The integer that the text of a `$numberLong` was read as.
pub fn int64_from_text(read: Result<i64, String>, locale: &Locale) -> (r: Result<
    BsonValue,
    String,
>)
    ensures
        viewed(r) == int64_of_text(
            match read {
                Ok(n) => Ok(n),
                Err(err) => Err(err@),
            },
            locale.chinese(),
        ),
{
    match read {
        Ok(n) => Ok(BsonValue::Int64(n)),
        Err(err) => Err(
            message_of(
                "字段 $numberLong 不是合法 Int64",
                "field $numberLong is not a valid Int64",
                err.as_str(),
                locale,
            ),
        ),
    }
}

/// The integer that the text of a `$numberInt` was read as.
pub fn int32_from_text(read: Result<i32, String>, locale: &Locale) -> (r: Result<
    BsonValue,
    String,
>)
    ensures
        viewed(r) == int32_of_text(
            match read {
                Ok(n) => Ok(n),
                Err(err) => Err(err@),
            },
            locale.chinese(),
        ),
{
    match read {
        Ok(n) => Ok(BsonValue::Int32(n)),
        Err(err) => Err(
            message_of(
                "字段 $numberInt 不是合法 Int32",
                "field $numberInt is not a valid Int32",
                err.as_str(),
                locale,
            ),
        ),
    }
}

/// The double, given by its bits, that the text of a `$numberDouble` was read as.
pub fn double_from_text(read: Result<u64, String>, locale: &Locale) -> (r: Result<
    BsonValue,
    String,
>)
    ensures
        viewed(r) == double_of_text(
            match read {
                Ok(bits) => Ok(bits),
                Err(err) => Err(err@),
            },
            locale.chinese(),
        ),
{
    match read {
        Ok(bits) => Ok(BsonValue::Double(bits)),
        Err(err) => Err(
            message_of(
                "字段 $numberDouble 不是合法 Double",
                "field $numberDouble is not a valid Double",
                err.as_str(),
                locale,
            ),
        ),
    }
}

/// Reads the object id in `{"$oid": value}`.
fn read_wrapped_object_id(value: &Json, locale: &Locale) -> (r: Result<BsonValue, String>)
    ensures
        viewed(r) == wrapped_object_id(value@, locale.chinese()),
{
    match value {
        Json::String(text) => object_id_from_text(read_object_id(text.as_str()), locale),
        _ => Err(
            message(
                "字段 $oid 必须是 24 位 hex 字符串",
                "field $oid must be a 24-char hex string",
                locale,
            ),
        ),
    }
}

/// Reads the date in `{"$date": value}`.
fn read_wrapped_date(value: &Json, locale: &Locale) -> (r: Result<BsonValue, String>)
    ensures
        viewed(r) == wrapped_date(value@, locale.chinese()),
{
    match value {
        Json::String(text) => date_from_text(read_date(text.as_str()), locale),
        Json::Object(_) => match value.text_at("$numberLong") {
            Some(text) => millis_from_text(read_int64(text.as_str()), locale),
            None => Err(
                message(
                    "字段 $date 对象形式必须是 {\"$numberLong\": \"<ms>\"}",
                    "field $date object form must be {\"$numberLong\": \"<ms>\"}",
                    locale,
                ),
            ),
        },
        _ => Err(
            message(
                "字段 $date 必须是 ISO-8601 字符串或 {\"$numberLong\": \"<ms>\"}",
                "field $date must be an ISO-8601 string or {\"$numberLong\": \"<ms>\"}",
                locale,
            ),
        ),
    }
}

/// Reads the integer in `{"$numberLong": value}`.
fn read_wrapped_int64(value: &Json, locale: &Locale) -> (r: Result<BsonValue, String>)
    ensures
        viewed(r) == wrapped_int64(value@, locale.chinese()),
{
    match number_wrapper_text(value, "$numberLong", locale) {
        Ok(text) => int64_from_text(read_int64(text.as_str()), locale),
        Err(err) => Err(err),
    }
}

/// Reads the integer in `{"$numberInt": value}`.
fn read_wrapped_int32(value: &Json, locale: &Locale) -> (r: Result<BsonValue, String>)
    ensures
        viewed(r) == wrapped_int32(value@, locale.chinese()),
{
    match number_wrapper_text(value, "$numberInt", locale) {
        Ok(text) => int32_from_text(read_int32(text.as_str()), locale),
        Err(err) => Err(err),
    }
}

/// Reads a double, and gives its bits.
fn read_double_bits(text: &str) -> (r: Result<u64, String>)
    ensures
        double_text(text@) == match r {
            Ok(bits) => Ok(told(bits)),
            Err(err) => Err(err@),
        },
{
    match read_double(text) {
        Ok(double) => match double_bits(&double) {
            Some(bits) => Ok(bits),
            None => Ok(0),
        },
        Err(err) => Err(err),
    }
}

/// Reads the double in `{"$numberDouble": value}`.
fn read_wrapped_double(value: &Json, locale: &Locale) -> (r: Result<BsonValue, String>)
    ensures
        viewed(r) == wrapped_double(value@, locale.chinese()),
{
    match number_wrapper_text(value, "$numberDouble", locale) {
        Ok(text) => {
            let read: Result<u64, String> = read_double_bits(text.as_str());
            proof {
                if let Ok(bits) = read {
                    lemma_told(bits);
                }
            }
            double_from_text(read, locale)
        },
        Err(err) => Err(err),
    }
}

/// Reads the one field of an object as an extended-JSON type. Where its key marks none of the
/// types that the library reads, there is nothing, and the object is to be converted field by
/// field: query operators such as `$gt` stay as they are.
pub fn try_extended_wrapper(key: &str, value: &Json, locale: &Locale) -> (r: Result<
    Option<BsonValue>,
    String,
>)
    ensures
        match r {
            Ok(Some(bson)) => is_wrapper(key@) && wrapped(key@, value@, locale.chinese()) == Ok::<
                BsonView,
                Seq<char>,
            >(bson@),
            Ok(None) => !is_wrapper(key@),
            Err(err) => is_wrapper(key@) && wrapped(key@, value@, locale.chinese()) == Err::<
                BsonView,
                Seq<char>,
            >(err@),
        },
{
    let read: Result<BsonValue, String> = if same(key, "$oid") {
        read_wrapped_object_id(value, locale)
    } else if same(key, "$date") {
        read_wrapped_date(value, locale)
    } else if same(key, "$numberLong") {
        read_wrapped_int64(value, locale)
    } else if same(key, "$numberInt") {
        read_wrapped_int32(value, locale)
    } else if same(key, "$numberDouble") {
        read_wrapped_double(value, locale)
    } else {
        return Ok(None);
    };
    match read {
        Ok(bson) => Ok(Some(bson)),
        Err(err) => Err(err),
    }
}

/// Converts a plain or extended JSON value into BSON.
///
/// An object whose one key is `$oid`, `$date`, `$numberLong`, `$numberInt` or `$numberDouble`
/// becomes the value of that type, at any depth. Every other object is converted field by field.
/// Whole numbers keep their width: what does not fit an `Int64` is refused.
pub fn value_to_bson(value: &Json, locale: &Locale) -> (r: Result<BsonValue, String>)
    ensures
        viewed(r) == bson_of(value@, locale.chinese()),
    decreases value@,
{
    match value {
        Json::Null => Ok(BsonValue::Null),
        Json::Bool(b) => Ok(BsonValue::Boolean(*b)),
        Json::Number(number) => match number.as_i64() {
            Some(n) => Ok(BsonValue::Int64(n)),
            None => match number.kind() {
                NumberKind::Float(bits) => Ok(BsonValue::Double(bits)),
                _ => Err(
                    message("u64 超出 BSON Int64 范围", "u64 exceeds BSON Int64 range", locale),
                ),
            },
        },
        Json::String(text) => Ok(BsonValue::String(text.clone())),
        Json::Array(items) => {
            let ghost results = bson_of_items(value@->Array_0, locale.chinese());
            let mut out: Vec<BsonValue> = Vec::new();
            let mut i: usize = 0;
            assert(results.take(0) =~= Seq::empty());
            assert(trees(out@) =~= Seq::empty());
            while i < items.len()
                invariant
                    value == Json::Array(*items),
                    results == bson_of_items(value@->Array_0, locale.chinese()),
                    i <= items@.len(),
                    results.len() == items@.len(),
                    out@.len() == i,
                    collected(results.take(i as int)) == Ok::<Seq<BsonView>, Seq<char>>(trees(out@)),
                decreases items.len() - i,
            {
                assert(value@->Array_0[i as int] == items@[i as int]@);
                proof {
                    lemma_collected_next(results, i as int);
                }
                let ghost before = out@;
                match value_to_bson(&items[i], locale) {
                    Ok(one) => {
                        out.push(one);
                    },
                    Err(err) => {
                        proof {
                            lemma_collected_error(results, i + 1);
                        }
                        return Err(err);
                    },
                }
                assert(trees(out@) =~= trees(before).push(out@[i as int]@));
                i = i + 1;
            }
            assert(results.take(i as int) =~= results);
            let bson = BsonValue::Array(out);
            assert(bson@->Array_0 =~= trees(out@));
            Ok(bson)
        },
        Json::Object(fields) => {
            let count: usize = fields.len();
            if count == 1 {
                assert(value@->Object_0[0] == (fields@[0].0, fields@[0].1@));
                match try_extended_wrapper(fields.key_at(0).as_str(), fields.value_at(0), locale) {
                    Ok(Some(bson)) => {
                        return Ok(bson);
                    },
                    Ok(None) => {},
                    Err(err) => {
                        return Err(err);
                    },
                }
            }
            let ghost results = bson_of_fields(value@->Object_0, locale.chinese());
            let mut out: Document = Fields::new();
            let mut i: usize = 0;
            assert(results.take(0) =~= Seq::empty());
            assert(value_trees(out@) =~= Seq::empty());
            while i < count
                invariant
                    value == Json::Object(*fields),
                    !(fields@.len() == 1 && is_wrapper(fields@[0].0)),
                    distinct_keys(fields@),
                    results == bson_of_fields(value@->Object_0, locale.chinese()),
                    i <= count,
                    count == fields@.len(),
                    results.len() == fields@.len(),
                    out@.len() == i,
                    forall|j: int| 0 <= j < i ==> (#[trigger] out@[j]).0 == fields@[j].0,
                    collected(results.take(i as int)) == Ok::<Seq<BsonView>, Seq<char>>(
                        value_trees(out@),
                    ),
                decreases count - i,
            {
                assert(value@->Object_0[i as int] == (fields@[i as int].0, fields@[i as int].1@));
                assert(decreases_to!(value@ => value@->Object_0[i as int].1));
                proof {
                    lemma_collected_next(results, i as int);
                }
                let ghost before = out@;
                let key: String = fields.key_at(i).clone();
                match value_to_bson(fields.value_at(i), locale) {
                    Ok(one) => {
                        proof {
                            assert forall|j: int| 0 <= j < out@.len() implies (#[trigger] out@[j]).0
                                != key@ by {
                                assert(fields@[j].0 != fields@[i as int].0);
                            }
                            lemma_position_is(out@, key@, out@.len() as int);
                        }
                        out.insert(key, one);
                    },
                    Err(err) => {
                        proof {
                            lemma_collected_error(results, i + 1);
                            if fields@.len() == 1 {
                                assert(value@->Object_0[0].0 == fields@[0].0);
                            }
                        }
                        return Err(err);
                    },
                }
                assert(value_trees(out@) =~= value_trees(before).push(out@[i as int].1@));
                i = i + 1;
            }
            assert(results.take(i as int) =~= results);
            let bson = BsonValue::Document(out);
            assert(bson@->Document_0 =~= keyed(value@->Object_0, value_trees(out@)));
            Ok(bson)
        },
    }
}

/// Fields with what their values hold.
pub type FieldViews = Seq<(Seq<char>, BsonView)>;

/// What each of some documents holds.
pub open spec fn document_trees(docs: Seq<Document>) -> Seq<FieldViews> {
    Seq::new(docs.len(), |i: int| document_tree(docs[i]))
}

/// A document or a message, by what they hold.
pub open spec fn viewed_document(r: Result<Document, String>) -> Result<FieldViews, Seq<char>> {
    match r {
        Ok(doc) => Ok(document_tree(doc)),
        Err(err) => Err(err@),
    }
}

/// A list of documents or a message, by what they hold.
pub open spec fn viewed_documents(r: Result<Vec<Document>, String>) -> Result<
    Seq<FieldViews>,
    Seq<char>,
> {
    match r {
        Ok(docs) => Ok(document_trees(docs@)),
        Err(err) => Err(err@),
    }
}

/// The message for a field that holds neither JSON text nor an object.
pub open spec fn not_an_object(key: Seq<char>, chinese: bool) -> Seq<char> {
    naming(
        said(
            "字段 {key} 必须是 JSON 文本或对象"@,
            "field {key} must be a JSON text or object"@,
            chinese,
        ),
        key,
    )
}

/// The message for a field whose text is no JSON.
pub open spec fn not_json(key: Seq<char>, err: Seq<char>, chinese: bool) -> Seq<char> {
    naming_cause(
        said(
            "字段 {key} 不是合法 JSON: {err}"@,
            "field {key} is not valid JSON: {err}"@,
            chinese,
        ),
        key,
        err,
    )
}

/// The document that a value of the field `key` is in BSON. An array is refused as it stands, and
/// any other value once it turns out to be a value of another type.
pub open spec fn document_of(value: JsonView, key: Seq<char>, chinese: bool) -> Result<
    FieldViews,
    Seq<char>,
> {
    if value is Array {
        Err(not_an_object(key, chinese))
    } else {
        match bson_of(value, chinese) {
            Ok(BsonView::Document(fields)) => Ok(fields),
            Ok(_) => Err(not_an_object(key, chinese)),
            Err(err) => Err(err),
        }
    }
}

/// The document that the text of the field `key` writes, given what the text was read as.
pub open spec fn document_of_text(
    read: Result<JsonView, Seq<char>>,
    key: Seq<char>,
    chinese: bool,
) -> Result<FieldViews, Seq<char>> {
    match read {
        Ok(value) => document_of(value, key, chinese),
        Err(err) => Err(not_json(key, err, chinese)),
    }
}

/// What a field gives that holds something.
pub open spec fn given<A>(read: Result<A, Seq<char>>) -> Result<Option<A>, Seq<char>> {
    match read {
        Ok(value) => Ok(Some(value)),
        Err(err) => Err(err),
    }
}

/// The document in the field `key` of a configuration: given as an object or as JSON text;
/// nothing where the field is missing, null or blank.
pub open spec fn json_field(config: JsonView, key: Seq<char>, chinese: bool) -> Result<
    Option<FieldViews>,
    Seq<char>,
> {
    match member(config, key) {
        None => Ok(None),
        Some(JsonView::Null) => Ok(None),
        Some(JsonView::String(text)) => if blank(text) {
            Ok(None)
        } else {
            given(document_of_text(json_text(text), key, chinese))
        },
        Some(value) => if value is Object {
            given(document_of(value, key, chinese))
        } else {
            Err(not_an_object(key, chinese))
        },
    }
}

/// The message for a field that holds neither JSON text nor an object.
fn not_an_object_message(key: &str, locale: &Locale) -> (r: String)
    ensures
        r@ == not_an_object(key@, locale.chinese()),
{
    message_naming(
        "字段 {key} 必须是 JSON 文本或对象",
        "field {key} must be a JSON text or object",
        key,
        locale,
    )
}

/// Converts a value of the field `key` into a document. An array is refused before anything is
/// converted.
pub fn document_from(value: &Json, key: &str, locale: &Locale) -> (r: Result<Document, String>)
    ensures
        viewed_document(r) == document_of(value@, key@, locale.chinese()),
{
    match value {
        Json::Array(_) => Err(not_an_object_message(key, locale)),
        _ => match value_to_bson(value, locale) {
            Ok(BsonValue::Document(doc)) => {
                assert(BsonValue::Document(doc)@->Document_0 =~= document_tree(doc));
                Ok(doc)
            },
            Ok(_) => Err(not_an_object_message(key, locale)),
            Err(err) => Err(err),
        },
    }
}

/// The message for a field whose text is no JSON.
fn not_json_message(key: &str, err: &str, locale: &Locale) -> (r: String)
    ensures
        r@ == not_json(key@, err@, locale.chinese()),
{
    message_naming_cause(
        "字段 {key} 不是合法 JSON: {err}",
        "field {key} is not valid JSON: {err}",
        key,
        err,
        locale,
    )
}

/// Converts what the text of the field `key` was read as into a document.
pub fn document_from_text(read: Result<Json, String>, key: &str, locale: &Locale) -> (r: Result<
    Document,
    String,
>)
    ensures
        viewed_document(r) == document_of_text(viewed_json(read), key@, locale.chinese()),
{
    match read {
        Ok(value) => document_from(&value, key, locale),
        Err(err) => Err(not_json_message(key, err.as_str(), locale)),
    }
}

/// A JSON value or a message, by what they hold.
pub open spec fn viewed_json(r: Result<Json, String>) -> Result<JsonView, Seq<char>> {
    match r {
        Ok(value) => Ok(value@),
        Err(err) => Err(err@),
    }
}

/// Reads a JSON text. A text of white space alone is none.
pub fn json_from_text(text: &str) -> (r: Result<Json, String>)
    ensures
        viewed_json(r) == json_text(text@),
        blank(text@) ==> r is Err,
{
    match read_json(text) {
        Ok(value) => Ok(json_from_outside(value)),
        Err(err) => Err(err),
    }
}

/// Reads one field of a node's configuration as a document: a filter, a projection or an update.
///
/// The field holds an object or a JSON text that writes one. A field that is missing, null, or a
/// text of white space alone gives nothing. An array, a number and a truth value are refused. A
/// text that writes an object gives what the object itself gives.
pub fn parse_json_field(config: &Json, key: &str, locale: &Locale) -> (r: Result<
    Option<Document>,
    String,
>)
    ensures
        json_field(config@, key@, locale.chinese()) == match r {
            Ok(Some(doc)) => Ok(Some(document_tree(doc))),
            Ok(None) => Ok(None),
            Err(err) => Err(err@),
        },
        member(config@, key@) matches Some(JsonView::String(text)) ==> json_text(text) matches Ok(
            object,
        ) ==> object is Object ==> json_field(config@, key@, locale.chinese()) == given(
            document_of(object, key@, locale.chinese()),
        ),
{
    let value: &Json = match config.get(key) {
        Some(value) => value,
        None => {
            return Ok(None);
        },
    };
    let converted: Result<Document, String> = match value {
        Json::Null => {
            return Ok(None);
        },
        Json::String(text) => {
            let read: Result<Json, String> = json_from_text(text.as_str());
            if is_blank(text.as_str()) {
                return Ok(None);
            }
            document_from_text(read, key, locale)
        },
        Json::Object(_) => document_from(value, key, locale),
        _ => Err(not_an_object_message(key, locale)),
    };
    match converted {
        Ok(doc) => Ok(Some(doc)),
        Err(err) => Err(err),
    }
}

/// The message for an element that is no object.
pub open spec fn element_not_an_object(key: Seq<char>, chinese: bool) -> Seq<char> {
    naming(
        said(
            "字段 {key} 的数组元素必须是 JSON 对象"@,
            "field {key} array elements must be JSON objects"@,
            chinese,
        ),
        key,
    )
}

/// The document that an element of the array in the field `key` is in BSON: only an object is one,
/// and not an object that is a value of another type.
pub open spec fn element_of(value: JsonView, key: Seq<char>, chinese: bool) -> Result<
    FieldViews,
    Seq<char>,
> {
    if value !is Object {
        Err(element_not_an_object(key, chinese))
    } else {
        match bson_of(value, chinese) {
            Ok(BsonView::Document(fields)) => Ok(fields),
            Ok(_) => Err(element_not_an_object(key, chinese)),
            Err(err) => Err(
                naming_cause(
                    said(
                        "字段 {key} 数组元素无法转换为 BSON: {err}"@,
                        "field {key} array element could not be converted to BSON: {err}"@,
                        chinese,
                    ),
                    key,
                    err,
                ),
            ),
        }
    }
}

/// The documents that the elements of the array in the field `key` are, one by one.
pub open spec fn elements_of(items: Seq<JsonView>, key: Seq<char>, chinese: bool) -> Seq<
    Result<FieldViews, Seq<char>>,
> {
    Seq::new(items.len(), |i: int| element_of(items[i], key, chinese))
}

/// The documents that the text of the field `key` writes, given what the text was read as.
pub open spec fn documents_of_text(
    read: Result<JsonView, Seq<char>>,
    key: Seq<char>,
    chinese: bool,
) -> Result<Seq<FieldViews>, Seq<char>> {
    match read {
        Ok(JsonView::Array(items)) => collected(elements_of(items, key, chinese)),
        Ok(_) => Err(
            naming(
                said("字段 {key} 必须是 JSON 数组"@, "field {key} must be a JSON array"@, chinese),
                key,
            ),
        ),
        Err(err) => Err(not_json(key, err, chinese)),
    }
}

/// The documents in the field `key` of a configuration: given as an array or as JSON text;
/// nothing where the field is missing, null or blank.
pub open spec fn json_array_field(config: JsonView, key: Seq<char>, chinese: bool) -> Result<
    Option<Seq<FieldViews>>,
    Seq<char>,
> {
    match member(config, key) {
        None => Ok(None),
        Some(JsonView::Null) => Ok(None),
        Some(JsonView::String(text)) => if blank(text) {
            Ok(None)
        } else {
            given(documents_of_text(json_text(text), key, chinese))
        },
        Some(JsonView::Array(items)) => given(collected(elements_of(items, key, chinese))),
        Some(_) => Err(
            naming(
                said(
                    "字段 {key} 必须是 JSON 数组或文本"@,
                    "field {key} must be a JSON array or text"@,
                    chinese,
                ),
                key,
            ),
        ),
    }
}

/// The message for an element that is no object.
fn element_not_an_object_message(key: &str, locale: &Locale) -> (r: String)
    ensures
        r@ == element_not_an_object(key@, locale.chinese()),
{
    message_naming(
        "字段 {key} 的数组元素必须是 JSON 对象",
        "field {key} array elements must be JSON objects",
        key,
        locale,
    )
}

/// Converts an element of the array in the field `key` into a document. What is no object is
/// refused before anything is converted.
fn element_from(value: &Json, key: &str, locale: &Locale) -> (r: Result<Document, String>)
    ensures
        viewed_document(r) == element_of(value@, key@, locale.chinese()),
{
    match value {
        Json::Object(_) => match value_to_bson(value, locale) {
            Ok(BsonValue::Document(doc)) => {
                assert(BsonValue::Document(doc)@->Document_0 =~= document_tree(doc));
                Ok(doc)
            },
            Ok(_) => Err(element_not_an_object_message(key, locale)),
            Err(err) => Err(
                message_naming_cause(
                    "字段 {key} 数组元素无法转换为 BSON: {err}",
                    "field {key} array element could not be converted to BSON: {err}",
                    key,
                    err.as_str(),
                    locale,
                ),
            ),
        },
        _ => Err(element_not_an_object_message(key, locale)),
    }
}

/// Converts the elements of the array in the field `key` into documents, up to the first that is
/// none.
pub fn documents_from(items: &Vec<Json>, key: &str, locale: &Locale) -> (r: Result<
    Vec<Document>,
    String,
>)
    ensures
        viewed_documents(r) == collected(
            elements_of(json_trees(items@), key@, locale.chinese()),
        ),
{
    let ghost views = json_trees(items@);
    let ghost results = elements_of(views, key@, locale.chinese());
    let mut out: Vec<Document> = Vec::new();
    let mut i: usize = 0;
    assert(results.take(0) =~= Seq::empty());
    assert(document_trees(out@) =~= Seq::empty());
    while i < items.len()
        invariant
            views == json_trees(items@),
            results == elements_of(views, key@, locale.chinese()),
            i <= items@.len(),
            out@.len() == i,
            collected(results.take(i as int)) == Ok::<Seq<FieldViews>, Seq<char>>(
                document_trees(out@),
            ),
        decreases items.len() - i,
    {
        proof {
            lemma_collected_next(results, i as int);
        }
        let ghost before = out@;
        match element_from(&items[i], key, locale) {
            Ok(doc) => {
                out.push(doc);
            },
            Err(err) => {
                proof {
                    lemma_collected_error(results, i + 1);
                }
                return Err(err);
            },
        }
        assert(document_trees(out@) =~= document_trees(before).push(
            document_tree(out@[i as int]),
        ));
        i = i + 1;
    }
    assert(results.take(i as int) =~= results);
    Ok(out)
}

/// Converts what the text of the field `key` was read as into documents.
pub fn documents_from_text(read: Result<Json, String>, key: &str, locale: &Locale) -> (r: Result<
    Vec<Document>,
    String,
>)
    ensures
        viewed_documents(r) == documents_of_text(viewed_json(read), key@, locale.chinese()),
{
    match read {
        Ok(Json::Array(items)) => {
            assert(Json::Array(items)@->Array_0 =~= json_trees(items@));
            documents_from(&items, key, locale)
        },
        Ok(_) => Err(
            message_naming(
                "字段 {key} 必须是 JSON 数组",
                "field {key} must be a JSON array",
                key,
                locale,
            ),
        ),
        Err(err) => Err(not_json_message(key, err.as_str(), locale)),
    }
}

/// Reads one field of a node's configuration as a list of documents: the documents of an insert
/// or the stages of a pipeline.
///
/// The field holds an array or a JSON text that writes one, and every element is an object. A
/// field that is missing, null, or a text of white space alone gives nothing. A text that writes
/// an array gives what the array itself gives.
pub fn parse_json_array_field(config: &Json, key: &str, locale: &Locale) -> (r: Result<
    Option<Vec<Document>>,
    String,
>)
    ensures
        json_array_field(config@, key@, locale.chinese()) == match r {
            Ok(Some(docs)) => Ok(Some(document_trees(docs@))),
            Ok(None) => Ok(None),
            Err(err) => Err(err@),
        },
        member(config@, key@) matches Some(JsonView::String(text)) ==> json_text(text) matches Ok(
            JsonView::Array(items),
        ) ==> json_array_field(config@, key@, locale.chinese()) == given(
            collected(elements_of(items, key@, locale.chinese())),
        ),
{
    let value: &Json = match config.get(key) {
        Some(value) => value,
        None => {
            return Ok(None);
        },
    };
    let converted: Result<Vec<Document>, String> = match value {
        Json::Null => {
            return Ok(None);
        },
        Json::String(text) => {
            let read: Result<Json, String> = json_from_text(text.as_str());
            if is_blank(text.as_str()) {
                return Ok(None);
            }
            documents_from_text(read, key, locale)
        },
        Json::Array(items) => {
            assert(value@->Array_0 =~= json_trees(items@));
            documents_from(items, key, locale)
        },
        _ => Err(
            message_naming(
                "字段 {key} 必须是 JSON 数组或文本",
                "field {key} must be a JSON array or text",
                key,
                locale,
            ),
        ),
    };
    match converted {
        Ok(docs) => Ok(Some(docs)),
        Err(err) => Err(err),
    }
}

/// Tells whether a value is, or holds at any depth of arrays, documents and scopes of code, a
/// double that is not finite: an infinity or what is not a number.
pub fn contains_non_finite(value: &BsonValue) -> (r: bool)
    ensures
        r == non_finite(value@),
    decreases value@,
{
    match value {
        BsonValue::Double(bits) => {
            proof {
                lemma_told(*bits);
            }
            !is_finite(*bits)
        },
        BsonValue::Array(items) => {
            let mut i: usize = 0;
            while i < items.len()
                invariant
                    value == BsonValue::Array(*items),
                    i <= items@.len(),
                    forall|j: int| 0 <= j < i ==> !non_finite(#[trigger] value@->Array_0[j]),
                decreases items.len() - i,
            {
                assert(value@->Array_0[i as int] == items@[i as int]@);
                if contains_non_finite(&items[i]) {
                    return true;
                }
                i = i + 1;
            }
            false
        },
        BsonValue::Document(doc) => {
            assert(value@->Document_0 =~= document_tree(*doc));
            holds_non_finite(doc)
        },
        BsonValue::CodeWithScope(_, scope) => {
            assert(value@->CodeWithScope_1 =~= document_tree(*scope));
            holds_non_finite(scope)
        },
        _ => false,
    }
}

/// Tells whether a value of a document is, or holds at any depth, a double that is not finite.
fn holds_non_finite(doc: &Document) -> (r: bool)
    ensures
        r == exists|i: int|
            0 <= i < document_tree(*doc).len() && non_finite(
                (#[trigger] document_tree(*doc)[i]).1,
            ),
    decreases document_tree(*doc),
{
    let ghost trees = document_tree(*doc);
    let count: usize = doc.len();
    let mut i: usize = 0;
    while i < count
        invariant
            i <= count,
            count == doc@.len(),
            trees == document_tree(*doc),
            forall|j: int| 0 <= j < i ==> !non_finite((#[trigger] trees[j]).1),
        decreases count - i,
    {
        proof {
            assert(decreases_to!(trees => trees[i as int]));
            assert(decreases_to!(trees[i as int] => trees[i as int].1));
        }
        if contains_non_finite(doc.value_at(i)) {
            assert(non_finite(trees[i as int].1));
            return true;
        }
        i = i + 1;
    }
    false
}

/// The message for a result that JSON cannot write.
pub open spec fn non_finite_message(chinese: bool) -> Seq<char> {
    said("结果含非有限浮点值"@, "result contains a non-finite floating-point value"@, chinese)
}

/// What is handed on to be written as JSON, given what a document became as a value: the value,
/// unless there is none or it holds a double that is not finite.
pub open spec fn writable(settled: Result<BsonView, Seq<char>>, chinese: bool) -> Result<
    BsonView,
    Seq<char>,
> {
    match settled {
        Ok(value) => if non_finite(value) {
            Err(non_finite_message(chinese))
        } else {
            Ok(value)
        },
        Err(err) => Err(
            caused(
                said(
                    "文档无法转换为 BSON 值"@,
                    "document could not be converted to a BSON value"@,
                    chinese,
                ),
                err,
            ),
        ),
    }
}

/// The JSON of a result, given what writing it came to.
pub open spec fn written_json(written: Result<JsonView, Seq<char>>, chinese: bool) -> Result<
    JsonView,
    Seq<char>,
> {
    match written {
        Ok(json) => Ok(json),
        Err(err) => Err(
            caused(
                said(
                    "文档无法转换为 JSON"@,
                    "document could not be converted to JSON"@,
                    chinese,
                ),
                err,
            ),
        ),
    }
}

/// The JSON of a document, or what stands in its way.
pub open spec fn doc_json(doc: FieldViews, chinese: bool) -> Result<JsonView, Seq<char>> {
    match writable(settled(BsonView::Document(doc)), chinese) {
        Ok(value) => written_json(json_value(value), chinese),
        Err(err) => Err(err),
    }
}

/// Hands on what a document became as a value, unless it is no value or holds a double that is
/// not finite: JSON has no form for such a double, and would take it for null.
pub fn check_writable(settled: Result<BsonValue, String>, locale: &Locale) -> (r: Result<
    BsonValue,
    String,
>)
    ensures
        viewed(r) == writable(viewed(settled), locale.chinese()),
{
    match settled {
        Ok(value) => {
            if contains_non_finite(&value) {
                return Err(
                    message(
                        "结果含非有限浮点值",
                        "result contains a non-finite floating-point value",
                        locale,
                    ),
                );
            }
            Ok(value)
        },
        Err(err) => Err(
            message_of(
                "文档无法转换为 BSON 值",
                "document could not be converted to a BSON value",
                err.as_str(),
                locale,
            ),
        ),
    }
}

/// The JSON of a result, where writing it came to one.
pub fn json_from_written(written: Result<Json, String>, locale: &Locale) -> (r: Result<
    Json,
    String,
>)
    ensures
        viewed_json(r) == written_json(viewed_json(written), locale.chinese()),
{
    match written {
        Ok(json) => Ok(json),
        Err(err) => Err(
            message_of(
                "文档无法转换为 JSON",
                "document could not be converted to JSON",
                err.as_str(),
                locale,
            ),
        ),
    }
}

/// A value of the types that the library looks into is readable as JSON, unless it holds a double
/// that is not finite.
pub proof fn lemma_readable(value: BsonView)
    requires
        stable(value),
    ensures
        readable(value) == !non_finite(value),
    decreases value,
{
    match value {
        BsonView::Array(items) => {
            assert forall|i: int| 0 <= i < items.len() implies readable(#[trigger] items[i])
                == !non_finite(items[i]) by {
                lemma_readable(items[i]);
            }
        },
        BsonView::Document(fields) => {
            assert forall|i: int| 0 <= i < fields.len() implies readable((#[trigger] fields[i]).1)
                == !non_finite(fields[i].1) by {
                lemma_readable(fields[i].1);
            }
        },
        BsonView::CodeWithScope(_, scope) => {
            assert forall|i: int| 0 <= i < scope.len() implies readable((#[trigger] scope[i]).1)
                == !non_finite(scope[i].1) by {
                lemma_readable(scope[i].1);
            }
        },
        _ => {},
    }
}

/// The JSON of a document of the types that the library looks into, in which no document is
/// written like an extended-JSON type: its extended-JSON form, unless it holds a double that is
/// not finite.
pub open spec fn stable_doc_json(doc: FieldViews, chinese: bool) -> Result<JsonView, Seq<char>> {
    if non_finite(BsonView::Document(doc)) {
        Err(non_finite_message(chinese))
    } else {
        Ok(extended_json(BsonView::Document(doc)))
    }
}

/// Writes a document as plain JSON for the host.
///
/// A document with a double that is not finite, at any depth, is refused. An object id is written
/// as `{"$oid": hex}`, a date as `{"$date": {"$numberLong": millis}}`, bytes as an array of
/// numbers and code with its scope as `{"$code": code, "$scope": scope}`.
pub fn doc_to_json(doc: &Document, locale: &Locale) -> (r: Result<Json, String>)
    ensures
        viewed_json(r) == doc_json(document_tree(*doc), locale.chinese()),
        stable(BsonView::Document(document_tree(*doc))) ==> viewed_json(r) == stable_doc_json(
            document_tree(*doc),
            locale.chinese(),
        ),
        tame(BsonView::Document(document_tree(*doc))) ==> refused_when_held(
            viewed_json(r),
            non_finite(BsonView::Document(document_tree(*doc))),
            locale.chinese(),
        ),
{
    proof {
        if stable(BsonView::Document(document_tree(*doc))) {
            lemma_readable(BsonView::Document(document_tree(*doc)));
        }
    }
    let settled: Result<BsonValue, String> = match settle(&document_to_driver(doc)) {
        Ok(value) => Ok(bson_from_driver(value)),
        Err(err) => Err(err),
    };
    let value: BsonValue = match check_writable(settled, locale) {
        Ok(value) => value,
        Err(err) => {
            return Err(err);
        },
    };
    let written: Result<Json, String> = match bson_to_json(&bson_to_driver(&value)) {
        Ok(json) => Ok(json_from_outside(json)),
        Err(err) => Err(err),
    };
    json_from_written(written, locale)
}

/// A result that is refused exactly where a double that is not finite is held, and with the
/// message for that.
pub open spec fn refused_when_held(
    r: Result<JsonView, Seq<char>>,
    held: bool,
    chinese: bool,
) -> bool {
    match r {
        Ok(_) => !held,
        Err(err) => held && err == non_finite_message(chinese),
    }
}

/// Documents of the types that the library looks into, none of which has a document in it that is
/// written like an extended-JSON type.
pub open spec fn all_stable(docs: Seq<FieldViews>) -> bool {
    forall|i: int| 0 <= i < docs.len() ==> stable(BsonView::Document(#[trigger] docs[i]))
}

/// Documents none of which has a document in it that is written like an extended-JSON type.
pub open spec fn all_tame(docs: Seq<FieldViews>) -> bool {
    forall|i: int| 0 <= i < docs.len() ==> tame(BsonView::Document(#[trigger] docs[i]))
}

/// Whether one of some documents holds a double that is not finite.
pub open spec fn any_non_finite(docs: Seq<FieldViews>) -> bool {
    exists|i: int| 0 <= i < docs.len() && non_finite(BsonView::Document(#[trigger] docs[i]))
}

/// The JSON of each of some documents.
pub open spec fn docs_json(docs: Seq<FieldViews>, chinese: bool) -> Seq<
    Result<JsonView, Seq<char>>,
> {
    Seq::new(docs.len(), |i: int| doc_json(docs[i], chinese))
}

/// The JSON of each of some documents, of the types that the library looks into.
pub open spec fn stable_docs_json(docs: Seq<FieldViews>, chinese: bool) -> Seq<
    Result<JsonView, Seq<char>>,
> {
    Seq::new(docs.len(), |i: int| stable_doc_json(docs[i], chinese))
}

/// A list of JSON values as an array.
pub open spec fn as_array(values: Result<Seq<JsonView>, Seq<char>>) -> Result<
    JsonView,
    Seq<char>,
> {
    match values {
        Ok(items) => Ok(JsonView::Array(items)),
        Err(err) => Err(err),
    }
}

/// What each of some JSON values holds.
pub open spec fn json_trees(values: Seq<Json>) -> Seq<JsonView> {
    Seq::new(values.len(), |i: int| values[i]@)
}

/// Writes documents as a JSON array, up to the first that cannot be written.
pub fn docs_to_json_array(docs: &[Document], locale: &Locale) -> (r: Result<Json, String>)
    ensures
        viewed_json(r) == as_array(
            collected(docs_json(document_trees(docs@), locale.chinese())),
        ),
        all_stable(document_trees(docs@)) ==> viewed_json(r) == as_array(
            collected(stable_docs_json(document_trees(docs@), locale.chinese())),
        ),
        all_tame(document_trees(docs@)) ==> refused_when_held(
            viewed_json(r),
            any_non_finite(document_trees(docs@)),
            locale.chinese(),
        ),
{
    let ghost trees = document_trees(docs@);
    let ghost results = docs_json(trees, locale.chinese());
    let ghost plain = stable_docs_json(trees, locale.chinese());
    let mut out: Vec<Json> = Vec::new();
    let mut i: usize = 0;
    assert(results.take(0) =~= Seq::empty());
    assert(plain.take(0) =~= Seq::empty());
    assert(json_trees(out@) =~= Seq::empty());
    while i < docs.len()
        invariant
            trees == document_trees(docs@),
            results == docs_json(trees, locale.chinese()),
            plain == stable_docs_json(trees, locale.chinese()),
            i <= docs@.len(),
            out@.len() == i,
            collected(results.take(i as int)) == Ok::<Seq<JsonView>, Seq<char>>(json_trees(out@)),
            all_stable(trees) ==> collected(plain.take(i as int)) == Ok::<
                Seq<JsonView>,
                Seq<char>,
            >(json_trees(out@)),
            all_tame(trees) ==> forall|j: int|
                0 <= j < i ==> !non_finite(BsonView::Document(#[trigger] trees[j])),
        decreases docs.len() - i,
    {
        proof {
            lemma_collected_next(results, i as int);
            lemma_collected_next(plain, i as int);
        }
        let ghost before = out@;
        let doc: &Document = &docs[i];
        assert(trees[i as int] == document_tree(*doc));
        match doc_to_json(doc, locale) {
            Ok(json) => {
                out.push(json);
            },
            Err(err) => {
                proof {
                    lemma_collected_error(results, i + 1);
                    if all_stable(trees) {
                        lemma_collected_error(plain, i + 1);
                    }
                }
                return Err(err);
            },
        }
        assert(json_trees(out@) =~= json_trees(before).push(out@[i as int]@));
        i = i + 1;
    }
    assert(results.take(i as int) =~= results);
    assert(plain.take(i as int) =~= plain);
    let array = Json::Array(out);
    assert(array@->Array_0 =~= json_trees(out@));
    Ok(array)
}

} // verus!

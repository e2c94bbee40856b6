//! What the conversion of JSON into BSON keeps, kind by kind.
use vstd::prelude::*;

use crate::bson::BsonView;
use crate::calls::date_text;
use crate::calls::double_text;
use crate::calls::fraction_text;
use crate::calls::int32_complaint;
use crate::calls::int64_complaint;
use crate::calls::number_text;
use crate::calls::object_id_complaint;
use crate::collect::lemma_collected_each;
use crate::collect::lemma_collected_first_error;
use crate::double::finite;
use crate::double::told;
use crate::extended::object_id_bytes;
use crate::i18n::naming;
use crate::i18n::said;
use crate::json::bson_of;
use crate::json::bson_of_fields;
use crate::json::bson_of_items;
use crate::json::is_wrapper;
use crate::json::wrapped;
use crate::json_laws::law_objects_keep_their_keys;
use crate::text::lemma_signed_decimal_reads_back;
use crate::text::signed_decimal;
use crate::text::whole_number;
use crate::value::JsonView;
use crate::value::NumberKind;
use crate::value::member;

verus! {

/// What is no number, array or object goes into BSON as it stands.
pub proof fn law_plain_values_are_kept(b: bool, text: Seq<char>, chinese: bool)
    ensures
        bson_of(JsonView::Null, chinese) == Ok::<BsonView, Seq<char>>(BsonView::Null),
        bson_of(JsonView::Bool(b), chinese) == Ok::<BsonView, Seq<char>>(BsonView::Boolean(b)),
        bson_of(JsonView::String(text), chinese) == Ok::<BsonView, Seq<char>>(
            BsonView::String(text),
        ),
{
}

/// A whole number becomes a 64-bit integer of the same value, or is refused where none has that
/// value; a number with a fraction becomes the same double.
pub proof fn law_numbers_keep_their_value(up: u64, down: i64, bits: u64, chinese: bool)
    ensures
        match bson_of(JsonView::Number(NumberKind::PosInt(up)), chinese) {
            Ok(bson) => bson matches BsonView::Int64(n) && n == up,
            Err(err) => up > 9223372036854775807 && err == said(
                "u64 超出 BSON Int64 范围"@,
                "u64 exceeds BSON Int64 range"@,
                chinese,
            ),
        },
        bson_of(JsonView::Number(NumberKind::NegInt(down)), chinese) == Ok::<BsonView, Seq<char>>(
            BsonView::Int64(down),
        ),
        bson_of(JsonView::Number(NumberKind::Float(bits)), chinese) == Ok::<BsonView, Seq<char>>(
            BsonView::Double(told(bits)),
        ),
        finite(bits) ==> told(bits) == bits,
{
}

/// An array becomes an array of the same length, element by element in the same order. It is
/// refused exactly when one of its elements is, for what is wrong with the first such.
pub proof fn law_arrays_are_converted_one_by_one(items: Seq<JsonView>, chinese: bool)
    ensures
        match bson_of(JsonView::Array(items), chinese) {
            Ok(bson) => {
                &&& bson matches BsonView::Array(all)
                &&& all.len() == items.len()
                &&& forall|i: int|
                    0 <= i < items.len() ==> bson_of(#[trigger] items[i], chinese) == Ok::<
                        BsonView,
                        Seq<char>,
                    >(all[i])
            },
            Err(err) => exists|i: int|
                0 <= i < items.len() && bson_of(#[trigger] items[i], chinese) == Err::<
                    BsonView,
                    Seq<char>,
                >(err) && forall|j: int|
                    0 <= j < i ==> bson_of(#[trigger] items[j], chinese) is Ok,
        },
{
    let results = bson_of_items(items, chinese);
    lemma_collected_each(results);
    lemma_collected_first_error(results);
    match bson_of(JsonView::Array(items), chinese) {
        Ok(bson) => {
            let all = bson->Array_0;
            assert forall|i: int| 0 <= i < items.len() implies bson_of(
                #[trigger] items[i],
                chinese,
            ) == Ok::<BsonView, Seq<char>>(all[i]) by {
                assert(results[i] == Ok::<BsonView, Seq<char>>(all[i]));
            }
        },
        Err(err) => {
            let i = choose|i: int|
                0 <= i < results.len() && #[trigger] results[i] == Err::<BsonView, Seq<char>>(err)
                    && forall|j: int| 0 <= j < i ==> (#[trigger] results[j]) is Ok;
            assert(bson_of(items[i], chinese) == Err::<BsonView, Seq<char>>(err));
            assert forall|j: int| 0 <= j < i implies bson_of(#[trigger] items[j], chinese) is Ok by {
                assert(results[j] is Ok);
            }
        },
    }
}

/// Five keys mark a type, and only where they stand alone. Every other object becomes a document
/// with the same keys in the same order, each with what its value is by itself. It is refused
/// exactly when one of its values is, for what is wrong with the first such.
pub proof fn law_only_five_keys_mark_a_type(fields: Seq<(Seq<char>, JsonView)>, chinese: bool)
    requires
        fields.len() != 1 || {
            &&& fields[0].0 != "$oid"@
            &&& fields[0].0 != "$date"@
            &&& fields[0].0 != "$numberLong"@
            &&& fields[0].0 != "$numberInt"@
            &&& fields[0].0 != "$numberDouble"@
        },
    ensures
        match bson_of(JsonView::Object(fields), chinese) {
            Ok(bson) => {
                &&& bson matches BsonView::Document(doc)
                &&& doc.len() == fields.len()
                &&& forall|i: int|
                    0 <= i < fields.len() ==> (#[trigger] doc[i]).0 == fields[i].0 && bson_of(
                        fields[i].1,
                        chinese,
                    ) == Ok::<BsonView, Seq<char>>(doc[i].1)
            },
            Err(err) => exists|i: int|
                0 <= i < fields.len() && bson_of((#[trigger] fields[i]).1, chinese) == Err::<
                    BsonView,
                    Seq<char>,
                >(err) && forall|j: int|
                    0 <= j < i ==> bson_of((#[trigger] fields[j]).1, chinese) is Ok,
        },
{
    law_objects_keep_their_keys(fields, chinese);
    let results = bson_of_fields(fields, chinese);
    lemma_collected_first_error(results);
    match bson_of(JsonView::Object(fields), chinese) {
        Ok(_) => {},
        Err(err) => {
            let i = choose|i: int|
                0 <= i < results.len() && #[trigger] results[i] == Err::<BsonView, Seq<char>>(err)
                    && forall|j: int| 0 <= j < i ==> (#[trigger] results[j]) is Ok;
            assert(bson_of(fields[i].1, chinese) == Err::<BsonView, Seq<char>>(err));
            assert forall|j: int| 0 <= j < i implies bson_of(
                (#[trigger] fields[j]).1,
                chinese,
            ) is Ok by {
                assert(results[j] is Ok);
            }
        },
    }
}

/// The field that reads a type is told by its key alone: the five keys, and no other.
pub proof fn law_the_keys_of_types(key: Seq<char>)
    ensures
        is_wrapper(key) <==> {
            ||| key == "$oid"@
            ||| key == "$date"@
            ||| key == "$numberLong"@
            ||| key == "$numberInt"@
            ||| key == "$numberDouble"@
        },
{
}

/// A query operator is kept: an object whose one key marks no type is a document with that key
/// and the value under it.
pub proof fn law_one_field_is_kept(key: Seq<char>, value: JsonView, chinese: bool)
    requires
        key != "$oid"@,
        key != "$date"@,
        key != "$numberLong"@,
        key != "$numberInt"@,
        key != "$numberDouble"@,
    ensures
        bson_of(JsonView::Object(seq![(key, value)]), chinese) == match bson_of(value, chinese) {
            Ok(bson) => Ok::<BsonView, Seq<char>>(BsonView::Document(seq![(key, bson)])),
            Err(err) => Err(err),
        },
{
    let fields = seq![(key, value)];
    assert(fields[0] == (key, value));
    law_only_five_keys_mark_a_type(fields, chinese);
    match bson_of(JsonView::Object(fields), chinese) {
        Ok(bson) => {
            let doc = bson->Document_0;
            assert(doc[0].0 == key);
            assert(doc =~= seq![(key, doc[0].1)]);
        },
        Err(_) => {},
    }
}

/// The operators of queries, updates and pipelines are not among the keys that mark a type.
pub proof fn law_operators_mark_no_type(key: Seq<char>, value: JsonView, chinese: bool)
    requires
        key == "$eq"@ || key == "$ne"@ || key == "$gt"@ || key == "$gte"@ || key == "$lt"@
            || key == "$lte"@ || key == "$in"@ || key == "$nin"@ || key == "$and"@
            || key == "$or"@ || key == "$not"@ || key == "$nor"@ || key == "$set"@
            || key == "$unset"@ || key == "$inc"@ || key == "$push"@ || key == "$match"@
            || key == "$group"@ || key == "$sort"@ || key == "$limit"@ || key == "$count"@
            || key == "$project"@,
    ensures
        !is_wrapper(key),
        bson_of(JsonView::Object(seq![(key, value)]), chinese) == match bson_of(value, chinese) {
            Ok(bson) => Ok::<BsonView, Seq<char>>(BsonView::Document(seq![(key, bson)])),
            Err(err) => Err(err),
        },
{
    lemma_type_key_letters();
    lemma_operator_letters();
    law_one_field_is_kept(key, value, chinese);
}

/// What tells the keys of types from the operators.
proof fn lemma_type_key_letters()
    ensures
        "$oid"@.len() == 4,
        "$oid"@[1] == 'o' && "$oid"@[2] == 'i',
        "$date"@.len() == 5,
        "$date"@[1] == 'd',
        "$numberLong"@.len() == 11,
        "$numberInt"@.len() == 10,
        "$numberDouble"@.len() == 13,
{
    reveal_strlit("$oid");
    reveal_strlit("$date");
    reveal_strlit("$numberLong");
    reveal_strlit("$numberInt");
    reveal_strlit("$numberDouble");
}

/// What tells the operators from the keys of types.
proof fn lemma_operator_letters()
    ensures
        "$eq"@.len() == 3,
        "$ne"@.len() == 3,
        "$gt"@.len() == 3,
        "$gte"@.len() == 4 && "$gte"@[1] == 'g',
        "$lt"@.len() == 3,
        "$lte"@.len() == 4 && "$lte"@[1] == 'l',
        "$in"@.len() == 3,
        "$nin"@.len() == 4 && "$nin"@[1] == 'n',
        "$and"@.len() == 4 && "$and"@[1] == 'a',
        "$or"@.len() == 3,
        "$not"@.len() == 4 && "$not"@[1] == 'n',
        "$nor"@.len() == 4 && "$nor"@[1] == 'n',
        "$set"@.len() == 4 && "$set"@[1] == 's',
        "$unset"@.len() == 6,
        "$inc"@.len() == 4 && "$inc"@[1] == 'i',
        "$push"@.len() == 5 && "$push"@[1] == 'p',
        "$match"@.len() == 6,
        "$group"@.len() == 6,
        "$sort"@.len() == 5 && "$sort"@[1] == 's',
        "$limit"@.len() == 6,
        "$count"@.len() == 6,
        "$project"@.len() == 8,
{
    reveal_strlit("$eq");
    reveal_strlit("$ne");
    reveal_strlit("$gt");
    reveal_strlit("$gte");
    reveal_strlit("$lt");
    reveal_strlit("$lte");
    reveal_strlit("$in");
    reveal_strlit("$nin");
    reveal_strlit("$and");
    reveal_strlit("$or");
    reveal_strlit("$not");
    reveal_strlit("$nor");
    reveal_strlit("$set");
    reveal_strlit("$unset");
    reveal_strlit("$inc");
    reveal_strlit("$push");
    reveal_strlit("$match");
    reveal_strlit("$group");
    reveal_strlit("$sort");
    reveal_strlit("$limit");
    reveal_strlit("$count");
    reveal_strlit("$project");
}

/// An `$oid` is the object id of its text, and a text that writes none, or what is no text, is
/// refused.
pub proof fn law_object_ids_are_read(value: JsonView, chinese: bool)
    ensures
        match bson_of(JsonView::Object(seq![("$oid"@, value)]), chinese) {
            Ok(bson) => {
                &&& value matches JsonView::String(text)
                &&& object_id_bytes(text) matches Some(bytes)
                &&& bytes.len() == 12
                &&& bson == BsonView::ObjectId(bytes)
            },
            Err(err) => match value {
                JsonView::String(text) => object_id_bytes(text) is None && err == said(
                    "字段 $oid 不是合法 ObjectId"@,
                    "field $oid is not a valid ObjectId"@,
                    chinese,
                ) + ": "@ + object_id_complaint(text),
                _ => err == said(
                    "字段 $oid 必须是 24 位 hex 字符串"@,
                    "field $oid must be a 24-char hex string"@,
                    chinese,
                ),
            },
        },
{
    let fields = seq![("$oid"@, value)];
    assert(fields[0] == ("$oid"@, value));
}

/// A `$date` is the date of its text, or of the milliseconds under `$numberLong`; anything else is
/// refused.
pub proof fn law_dates_are_read(value: JsonView, chinese: bool)
    ensures
        match bson_of(JsonView::Object(seq![("$date"@, value)]), chinese) {
            Ok(bson) => match value {
                JsonView::String(text) => date_text(text) matches Ok(millis) && bson
                    == BsonView::DateTime(millis),
                JsonView::Object(_) => {
                    &&& member(value, "$numberLong"@) matches Some(JsonView::String(text))
                    &&& bson matches BsonView::DateTime(millis)
                    &&& whole_number(text) == Some(millis as int)
                },
                _ => false,
            },
            Err(err) => match value {
                JsonView::String(text) => date_text(text) matches Err(cause) && err == said(
                    "字段 $date 不是合法 ISO-8601"@,
                    "field $date is not valid ISO-8601"@,
                    chinese,
                ) + ": "@ + cause,
                JsonView::Object(_) => match member(value, "$numberLong"@) {
                    Some(JsonView::String(text)) => err == said(
                        "字段 $date.$numberLong 不是合法整数"@,
                        "field $date.$numberLong is not a valid integer"@,
                        chinese,
                    ) + ": "@ + int64_complaint(text) && !(whole_number(text) matches Some(n)
                        && -9223372036854775808 <= n <= 9223372036854775807),
                    _ => err == said(
                        "字段 $date 对象形式必须是 {\"$numberLong\": \"<ms>\"}"@,
                        "field $date object form must be {\"$numberLong\": \"<ms>\"}"@,
                        chinese,
                    ),
                },
                _ => err == said(
                    "字段 $date 必须是 ISO-8601 字符串或 {\"$numberLong\": \"<ms>\"}"@,
                    "field $date must be an ISO-8601 string or {\"$numberLong\": \"<ms>\"}"@,
                    chinese,
                ),
            },
        },
{
    lemma_type_key_letters();
    let fields = seq![("$date"@, value)];
    assert(fields[0] == ("$date"@, value));
}

/// The text that a number in a wrapper is read from: a text as it stands, a whole number in
/// decimal, and a number with a fraction as it is written.
pub open spec fn is_number_text(value: JsonView, text: Seq<char>) -> bool {
    match value {
        JsonView::String(given) => text == given,
        JsonView::Number(NumberKind::PosInt(n)) => text == signed_decimal(n as int),
        JsonView::Number(NumberKind::NegInt(n)) => text == signed_decimal(n as int),
        JsonView::Number(NumberKind::Float(bits)) => text == fraction_text(bits),
        _ => false,
    }
}

/// A `$numberLong` is the 64-bit integer, and a `$numberInt` the 32-bit integer, of the value that
/// is written in it, as a text or as a plain number. What writes no such integer is refused.
pub proof fn law_wrapped_integers_are_read(value: JsonView, chinese: bool)
    ensures
        match bson_of(JsonView::Object(seq![("$numberLong"@, value)]), chinese) {
            Ok(bson) => {
                &&& bson matches BsonView::Int64(n)
                &&& exists|text: Seq<char>| #[trigger]
                    is_number_text(value, text) && whole_number(text) == Some(n as int)
            },
            Err(err) => value is String || value is Number ==> exists|text: Seq<char>| #[trigger]
                is_number_text(value, text) && !(whole_number(text) matches Some(n)
                    && -9223372036854775808 <= n <= 9223372036854775807) && err == said(
                    "字段 $numberLong 不是合法 Int64"@,
                    "field $numberLong is not a valid Int64"@,
                    chinese,
                ) + ": "@ + int64_complaint(text),
        },
        match bson_of(JsonView::Object(seq![("$numberInt"@, value)]), chinese) {
            Ok(bson) => {
                &&& bson matches BsonView::Int32(n)
                &&& exists|text: Seq<char>| #[trigger]
                    is_number_text(value, text) && whole_number(text) == Some(n as int)
            },
            Err(err) => value is String || value is Number ==> exists|text: Seq<char>| #[trigger]
                is_number_text(value, text) && !(whole_number(text) matches Some(n) && -2147483648
                    <= n <= 2147483647) && err == said(
                    "字段 $numberInt 不是合法 Int32"@,
                    "field $numberInt is not a valid Int32"@,
                    chinese,
                ) + ": "@ + int32_complaint(text),
        },
{
    lemma_type_key_letters();
    let long = seq![("$numberLong"@, value)];
    assert(long[0] == ("$numberLong"@, value));
    let short = seq![("$numberInt"@, value)];
    assert(short[0] == ("$numberInt"@, value));
    lemma_number_text(value);
}

/// The text that a number in a wrapper is read from.
proof fn lemma_number_text(value: JsonView) -> (text: Seq<char>)
    ensures
        value is String || value is Number ==> is_number_text(value, text),
        value matches JsonView::Number(kind) ==> text == number_text(kind),
        value matches JsonView::String(given) ==> text == given,
{
    match value {
        JsonView::String(given) => given,
        JsonView::Number(kind) => {
            match kind {
                NumberKind::PosInt(n) => {
                    lemma_signed_decimal_reads_back(n as int);
                },
                NumberKind::NegInt(n) => {
                    lemma_signed_decimal_reads_back(n as int);
                },
                NumberKind::Float(_) => {},
            }
            number_text(kind)
        },
        _ => Seq::empty(),
    }
}

/// A `$numberDouble` is the double that is written in it, as a text or as a plain number.
pub proof fn law_wrapped_doubles_are_read(value: JsonView, text: Seq<char>, chinese: bool)
    requires
        is_number_text(value, text),
    ensures
        bson_of(JsonView::Object(seq![("$numberDouble"@, value)]), chinese) == match double_text(
            text,
        ) {
            Ok(bits) => Ok::<BsonView, Seq<char>>(BsonView::Double(told(bits))),
            Err(cause) => Err(
                said(
                    "字段 $numberDouble 不是合法 Double"@,
                    "field $numberDouble is not a valid Double"@,
                    chinese,
                ) + ": "@ + cause,
            ),
        },
{
    lemma_type_key_letters();
    let fields = seq![("$numberDouble"@, value)];
    assert(fields[0] == ("$numberDouble"@, value));
}

/// A number in a wrapper is a text or a number: anything else is refused by the name of the key.
pub proof fn law_wrapped_numbers_are_texts_or_numbers(
    key: Seq<char>,
    value: JsonView,
    chinese: bool,
)
    requires
        key == "$numberLong"@ || key == "$numberInt"@ || key == "$numberDouble"@,
        value !is String,
        value !is Number,
    ensures
        bson_of(JsonView::Object(seq![(key, value)]), chinese) == Err::<BsonView, Seq<char>>(
            naming(
                said(
                    "字段 {key} 必须是 JSON 字符串或数字"@,
                    "field {key} must be a JSON string or number"@,
                    chinese,
                ),
                key,
            ),
        ),
{
    lemma_type_key_letters();
    let fields = seq![(key, value)];
    assert(fields[0] == (key, value));
}

/// The one field of an object is read as a type exactly as the object is converted.
pub proof fn law_types_are_read_in_place(key: Seq<char>, value: JsonView, chinese: bool)
    requires
        is_wrapper(key),
    ensures
        wrapped(key, value, chinese) == bson_of(JsonView::Object(seq![(key, value)]), chinese),
{
    let fields = seq![(key, value)];
    assert(fields[0] == (key, value));
}

} // verus!

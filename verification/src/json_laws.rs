//! What holds of the conversions between JSON and BSON taken together.
use vstd::prelude::*;

use crate::bson::BsonView;
use crate::calls::date_text;
use crate::calls::json_text;
use crate::collect::collected;
use crate::collect::lemma_collected_all;
use crate::collect::lemma_collected_each;
use crate::double::told;
use crate::extended::extended_json;
use crate::extended::hex_digit;
use crate::extended::hex_text;
use crate::extended::marks_document;
use crate::extended::marks_text;
use crate::extended::non_finite;
use crate::extended::object_id_bytes;
use crate::extended::readable;
use crate::extended::single;
use crate::extended::stable;
use crate::extended::written_like_type;
use crate::fields::lemma_position_is;
use crate::i18n::said;
use crate::json::FieldViews;
use crate::json::as_array;
use crate::json::bson_of;
use crate::json::bson_of_fields;
use crate::json::bson_of_items;
use crate::json::document_of;
use crate::json::element_not_an_object;
use crate::json::element_of;
use crate::json::elements_of;
use crate::json::is_wrapper;
use crate::json::json_array_field;
use crate::json::json_field;
use crate::json::keyed;
use crate::json::not_an_object;
use crate::json::stable_doc_json;
use crate::json::stable_docs_json;
use crate::text::blank;
use crate::text::lemma_signed_decimal_reads_back;
use crate::text::signed_decimal;
use crate::text::whole_number;
use crate::value::JsonView;
use crate::value::NumberKind;
use crate::value::member;
use crate::value::of_signed;
use crate::value::signed;
use crate::value::valid_number;

verus! {

/// An object id as it is written: 24 hexadecimal digits in lower case.
pub open spec fn is_object_id(value: JsonView) -> bool {
    &&& value matches JsonView::Object(fields)
    &&& fields.len() == 1
    &&& fields[0].0 == "$oid"@
    &&& fields[0].1 matches JsonView::String(text)
    &&& object_id_bytes(text) matches Some(bytes)
    &&& hex_text(bytes) == text
}

/// A date as it is written: its milliseconds, as the text of a number.
pub open spec fn is_date(value: JsonView) -> bool {
    &&& value matches JsonView::Object(fields)
    &&& fields.len() == 1
    &&& fields[0].0 == "$date"@
    &&& fields[0].1 matches JsonView::Object(inner)
    &&& inner.len() == 1
    &&& inner[0].0 == "$numberLong"@
    &&& inner[0].1 matches JsonView::String(text)
    &&& whole_number(text) matches Some(millis)
    &&& i64::MIN <= millis <= i64::MAX
    &&& signed_decimal(millis) == text
}

/// An object that is converted field by field.
pub open spec fn is_ordinary(value: JsonView) -> bool {
    value is Object && !is_object_id(value) && !is_date(value)
}

/// A key and a value that, as the one field of an object, are written like an extended-JSON type.
pub open spec fn json_marks_type(key: Seq<char>, value: JsonView) -> bool {
    ||| is_wrapper(key)
    ||| value is String && marks_text(key)
    ||| is_ordinary(value) && marks_document(key)
    ||| value == JsonView::Number(NumberKind::PosInt(1)) && (key == "$minKey"@ || key == "$maxKey"@)
    ||| value == JsonView::Bool(true) && key == "$undefined"@
}

/// Fields that are written like an extended-JSON type.
pub open spec fn json_like_type(fields: Seq<(Seq<char>, JsonView)>) -> bool {
    ||| fields.len() == 1 && json_marks_type(fields[0].0, fields[0].1)
    ||| fields.len() == 2 && fields[0].0 == "$code"@ && fields[0].1 is String && fields[1].0
        == "$scope"@ && is_ordinary(fields[1].1)
    ||| fields.len() == 2 && fields[0].0 == "$scope"@ && is_ordinary(fields[0].1) && fields[1].0
        == "$code"@ && fields[1].1 is String
}

/// Plain JSON: the whole numbers fit a signed 64-bit integer, the doubles are finite, object ids
/// and dates are written as the library writes them, and no other object is written like an
/// extended-JSON type.
pub open spec fn plain(value: JsonView) -> bool
    decreases value,
{
    match value {
        JsonView::Number(kind) => valid_number(kind) && (kind is Float || signed(kind) is Some),
        JsonView::Array(items) => forall|i: int| 0 <= i < items.len() ==> plain(#[trigger] items[i]),
        JsonView::Object(fields) => {
            ||| is_object_id(value)
            ||| is_date(value)
            ||| !json_like_type(fields) && forall|i: int|
                0 <= i < fields.len() ==> plain((#[trigger] fields[i]).1)
        },
        _ => true,
    }
}

/// What the round trip of plain JSON needs of a part: it is converted, and the value keeps the
/// shape of the JSON.
pub open spec fn goes_round(value: JsonView, chinese: bool) -> bool {
    match bson_of(value, chinese) {
        Ok(bson) => {
            &&& stable(bson)
            &&& sized(bson)
            &&& !non_finite(bson)
            &&& extended_json(bson) == value
            &&& bson is String <==> value is String
            &&& bson is Document <==> is_ordinary(value)
            &&& bson is Boolean ==> value == JsonView::Bool(bson->Boolean_0)
            &&& bson is Int64 ==> value == JsonView::Number(of_signed(bson->Int64_0))
            &&& bson !is Int32
            &&& bson !is Bytes
        },
        Err(_) => false,
    }
}

/// Plain JSON survives the way into BSON and back unchanged, whatever the language. What stands
/// between is a value that the driver keeps as it is, without a double that is not finite.
pub proof fn law_plain_json_round_trip(value: JsonView, chinese: bool)
    requires
        plain(value),
    ensures
        bson_of(value, chinese) matches Ok(bson) && {
            &&& stable(bson)
            &&& !non_finite(bson)
            &&& extended_json(bson) == value
        },
{
    lemma_goes_round(value, chinese);
}

/// A plain object in a field of a configuration becomes a document that is written as the object
/// again.
pub proof fn law_documents_round_trip(value: JsonView, key: Seq<char>, chinese: bool)
    requires
        plain(value),
        is_ordinary(value),
    ensures
        document_of(value, key, chinese) matches Ok(doc) && {
            &&& stable(BsonView::Document(doc))
            &&& stable_doc_json(doc, chinese) == Ok::<JsonView, Seq<char>>(value)
        },
{
    lemma_goes_round(value, chinese);
}

/// Plain objects in an array of a configuration become documents that are written as the array
/// again.
pub proof fn law_lists_of_documents_round_trip(
    items: Seq<JsonView>,
    key: Seq<char>,
    chinese: bool,
)
    requires
        forall|i: int| 0 <= i < items.len() ==> plain(#[trigger] items[i]) && is_ordinary(items[i]),
    ensures
        collected(elements_of(items, key, chinese)) matches Ok(docs) && {
            &&& forall|i: int|
                0 <= i < docs.len() ==> stable(BsonView::Document(#[trigger] docs[i]))
            &&& as_array(collected(stable_docs_json(docs, chinese))) == Ok::<JsonView, Seq<char>>(
                JsonView::Array(items),
            )
        },
{
    let results = elements_of(items, key, chinese);
    let docs = Seq::new(items.len(), |i: int| results[i]->Ok_0);
    assert forall|i: int| 0 <= i < results.len() implies #[trigger] results[i] == Ok::<
        FieldViews,
        Seq<char>,
    >(docs[i]) by {
        law_documents_round_trip(items[i], key, chinese);
    }
    lemma_collected_all(results, docs);
    let written = stable_docs_json(docs, chinese);
    assert forall|i: int| 0 <= i < written.len() implies #[trigger] written[i] == Ok::<
        JsonView,
        Seq<char>,
    >(items[i]) by {
        law_documents_round_trip(items[i], key, chinese);
    }
    lemma_collected_all(written, items);
    assert forall|i: int| 0 <= i < docs.len() implies stable(
        BsonView::Document(#[trigger] docs[i]),
    ) by {
        law_documents_round_trip(items[i], key, chinese);
    }
}

/// An object id that is written as the library writes it goes round.
proof fn lemma_object_id_goes_round(value: JsonView, chinese: bool)
    requires
        is_object_id(value),
    ensures
        goes_round(value, chinese),
{
    let fields = value->Object_0;
    let text = fields[0].1->String_0;
    let bytes = object_id_bytes(text)->0;
    let bson = BsonView::ObjectId(bytes);
    assert(bson_of(value, chinese) == Ok::<BsonView, Seq<char>>(bson));
    assert(extended_json(bson)->Object_0 =~= fields);
}

/// The key of a date is not the key of an object id.
proof fn lemma_type_keys_differ()
    ensures
        "$date"@ != "$oid"@,
{
    reveal_strlit("$date");
    reveal_strlit("$oid");
    assert("$date"@.len() == 5 && "$oid"@.len() == 4);
}

/// A date that is written as the library writes it goes round.
proof fn lemma_date_goes_round(value: JsonView, chinese: bool)
    requires
        is_date(value),
    ensures
        goes_round(value, chinese),
{
    lemma_type_keys_differ();
    let fields = value->Object_0;
    let inner = fields[0].1->Object_0;
    let text = inner[0].1->String_0;
    let millis = whole_number(text)->0 as i64;
    lemma_position_is(inner, "$numberLong"@, 0);
    let bson = BsonView::DateTime(millis);
    assert(bson_of(value, chinese) == Ok::<BsonView, Seq<char>>(bson));
    let written = extended_json(bson)->Object_0;
    assert(written[0].1->Object_0 =~= inner);
    assert(written =~= fields);
}

/// Plain JSON goes round.
proof fn lemma_goes_round(value: JsonView, chinese: bool)
    requires
        plain(value),
    ensures
        goes_round(value, chinese),
    decreases value,
{
    match value {
        JsonView::Number(kind) => {
            if kind is Float {
                assert(told(kind->Float_0) == kind->Float_0);
            }
        },
        JsonView::Array(items) => {
            let results = bson_of_items(items, chinese);
            let values = Seq::new(items.len(), |i: int| results[i]->Ok_0);
            assert forall|i: int| 0 <= i < results.len() implies #[trigger] results[i] == Ok::<
                BsonView,
                Seq<char>,
            >(values[i]) by {
                lemma_goes_round(items[i], chinese);
            }
            lemma_collected_all(results, values);
            assert forall|i: int| 0 <= i < values.len() implies {
                &&& stable(#[trigger] values[i])
                &&& sized(values[i])
                &&& !non_finite(values[i])
                &&& extended_json(values[i]) == items[i]
            } by {
                lemma_goes_round(items[i], chinese);
            }
            assert(extended_json(BsonView::Array(values))->Array_0 =~= items);
        },
        JsonView::Object(fields) => {
            if is_object_id(value) {
                lemma_object_id_goes_round(value, chinese);
            } else if is_date(value) {
                lemma_date_goes_round(value, chinese);
            } else {
                let results = bson_of_fields(fields, chinese);
                let values = Seq::new(fields.len(), |i: int| results[i]->Ok_0);
                assert forall|i: int| 0 <= i < results.len() implies #[trigger] results[i] == Ok::<
                    BsonView,
                    Seq<char>,
                >(values[i]) by {
                    assert(decreases_to!(value => fields[i].1));
                    lemma_goes_round(fields[i].1, chinese);
                }
                lemma_collected_all(results, values);
                let doc = keyed(fields, values);
                assert forall|i: int| 0 <= i < doc.len() implies {
                    &&& stable((#[trigger] doc[i]).1)
                    &&& sized(doc[i].1)
                    &&& !non_finite(doc[i].1)
                    &&& extended_json(doc[i].1) == fields[i].1
                    &&& doc[i].0 == fields[i].0
                    &&& doc[i].1 is String <==> fields[i].1 is String
                    &&& doc[i].1 is Document <==> is_ordinary(fields[i].1)
                } by {
                    assert(decreases_to!(value => fields[i].1));
                    lemma_goes_round(fields[i].1, chinese);
                }
                assert(extended_json(BsonView::Document(doc))->Object_0 =~= fields);
                if doc.len() == 1 {
                    assert(decreases_to!(value => fields[0].1));
                    lemma_goes_round(fields[0].1, chinese);
                    assert(doc[0].0 == fields[0].0);
                }
                if doc.len() == 2 {
                    assert(doc[0].0 == fields[0].0);
                    assert(doc[1].0 == fields[1].0);
                }
                assert(!written_like_type(doc));
            }
        },
        _ => {},
    }
}

/// An object id reads back from its hexadecimal form.
pub proof fn law_object_id_reads_back(bytes: Seq<u8>)
    requires
        bytes.len() == 12,
    ensures
        object_id_bytes(hex_text(bytes)) == Some(bytes),
{
    let text = hex_text(bytes);
    assert forall|i: int| 0 <= i < 24 implies hex_digit(#[trigger] text[i]) == Some(
        if i % 2 == 0 {
            bytes[i / 2] as int / 16
        } else {
            bytes[i / 2] as int % 16
        },
    ) by {
        let b = bytes[i / 2] as int;
        assert(0 <= b / 16 < 16 && 0 <= b % 16 < 16);
    }
    assert(object_id_bytes(text)->0 =~= bytes) by {
        assert forall|i: int| 0 <= i < 12 implies object_id_bytes(text)->0[i] == bytes[i] by {
            assert(hex_digit(text[2 * i]) == Some(bytes[i] as int / 16)) by {
                assert((2 * i) % 2 == 0 && (2 * i) / 2 == i);
            }
            assert(hex_digit(text[2 * i + 1]) == Some(bytes[i] as int % 16)) by {
                assert((2 * i + 1) % 2 == 1 && (2 * i + 1) / 2 == i);
            }
        }
    }
}

/// A value whose object ids have twelve bytes each.
pub open spec fn sized(value: BsonView) -> bool
    decreases value,
{
    match value {
        BsonView::ObjectId(bytes) => bytes.len() == 12,
        BsonView::Array(items) => forall|i: int| 0 <= i < items.len() ==> sized(#[trigger] items[i]),
        BsonView::Document(fields) => forall|i: int|
            0 <= i < fields.len() ==> sized((#[trigger] fields[i]).1),
        BsonView::CodeWithScope(_, scope) => forall|i: int|
            0 <= i < scope.len() ==> sized((#[trigger] scope[i]).1),
        _ => true,
    }
}

/// The value with every 32-bit integer in its arrays and documents as a 64-bit integer.
pub open spec fn widened(value: BsonView) -> BsonView
    decreases value,
{
    match value {
        BsonView::Int32(n) => BsonView::Int64(n as i64),
        BsonView::Array(items) => BsonView::Array(
            Seq::new(
                items.len(),
                |i: int|
                    if 0 <= i < items.len() {
                        widened(items[i])
                    } else {
                        BsonView::Null
                    },
            ),
        ),
        BsonView::Document(fields) => BsonView::Document(
            Seq::new(
                fields.len(),
                |i: int|
                    if 0 <= i < fields.len() {
                        (fields[i].0, widened(fields[i].1))
                    } else {
                        (fields[i].0, BsonView::Null)
                    },
            ),
        ),
        _ => value,
    }
}

/// A value without bytes and without code that has a scope, in which no document has one of the wrapper keys as its one key.
pub open spec fn rereadable(value: BsonView) -> bool
    decreases value,
{
    match value {
        BsonView::Array(items) => forall|i: int|
            0 <= i < items.len() ==> rereadable(#[trigger] items[i]),
        BsonView::Document(fields) => {
            &&& !(fields.len() == 1 && is_wrapper(fields[0].0))
            &&& forall|i: int| 0 <= i < fields.len() ==> rereadable((#[trigger] fields[i]).1)
        },
        BsonView::Bytes(_) => false,
        BsonView::CodeWithScope(_, _) => false,
        _ => true,
    }
}

/// What was written as extended JSON can be fed back: it reads as the value that was written, an
/// object id as that object id and a date as that date, but for the width of its integers.
pub proof fn law_written_json_reads_back(value: BsonView, chinese: bool)
    requires
        readable(value),
        sized(value),
        rereadable(value),
    ensures
        bson_of(extended_json(value), chinese) == Ok::<BsonView, Seq<char>>(widened(value)),
    decreases value,
{
    match value {
        BsonView::Array(items) => {
            let json = extended_json(value)->Array_0;
            let results = bson_of_items(json, chinese);
            let values = widened(value)->Array_0;
            assert forall|i: int| 0 <= i < results.len() implies #[trigger] results[i] == Ok::<
                BsonView,
                Seq<char>,
            >(values[i]) by {
                law_written_json_reads_back(items[i], chinese);
            }
            lemma_collected_all(results, values);
        },
        BsonView::Document(fields) => {
            let json = extended_json(value)->Object_0;
            let results = bson_of_fields(json, chinese);
            let doc = widened(value)->Document_0;
            let values = Seq::new(fields.len(), |i: int| doc[i].1);
            assert forall|i: int| 0 <= i < results.len() implies #[trigger] results[i] == Ok::<
                BsonView,
                Seq<char>,
            >(values[i]) by {
                assert(decreases_to!(value => fields[i].1));
                law_written_json_reads_back(fields[i].1, chinese);
            }
            lemma_collected_all(results, values);
            assert(keyed(json, values) =~= doc);
            assert(!(json.len() == 1 && is_wrapper(json[0].0)));
        },
        BsonView::ObjectId(bytes) => {
            law_object_id_reads_back(bytes);
            let json = extended_json(value)->Object_0;
            assert(json.len() == 1 && json[0].0 == "$oid"@);
        },
        BsonView::DateTime(millis) => {
            lemma_signed_decimal_reads_back(millis as int);
            let json = extended_json(value)->Object_0;
            assert(json.len() == 1 && json[0].0 == "$date"@);
            lemma_type_keys_differ();
            let inner = json[0].1->Object_0;
            assert(inner[0].0 == "$numberLong"@);
            lemma_position_is(inner, "$numberLong"@, 0);
        },
        BsonView::Double(bits) => {},
        _ => {},
    }
}

/// A date reads the same from its text and from the milliseconds that the text stands for.
pub proof fn law_date_forms_agree(text: Seq<char>, millis: i64, chinese: bool)
    ensures
        date_text(text) == Ok::<i64, Seq<char>>(millis) ==> bson_of(
            single("$date"@, JsonView::String(text)),
            chinese,
        ) == Ok::<BsonView, Seq<char>>(BsonView::DateTime(millis)),
        bson_of(
            single(
                "$date"@,
                single("$numberLong"@, JsonView::String(signed_decimal(millis as int))),
            ),
            chinese,
        ) == Ok::<BsonView, Seq<char>>(BsonView::DateTime(millis)),
{
    law_written_json_reads_back(BsonView::DateTime(millis), chinese);
    lemma_type_keys_differ();
    let json = single("$date"@, JsonView::String(text))->Object_0;
    assert(json.len() == 1 && json[0] == ("$date"@, JsonView::String(text)));
}

/// Whole numbers keep their value: one that fits a signed 64-bit integer goes into BSON as that
/// integer and comes back as it was, and any other is refused.
pub proof fn law_whole_numbers_are_kept(kind: NumberKind, chinese: bool)
    requires
        valid_number(kind),
        kind !is Float,
    ensures
        bson_of(JsonView::Number(kind), chinese) == match signed(kind) {
            Some(n) => Ok::<BsonView, Seq<char>>(BsonView::Int64(n)),
            None => Err(said("u64 超出 BSON Int64 范围"@, "u64 exceeds BSON Int64 range"@, chinese)),
        },
        signed(kind) matches Some(n) ==> extended_json(BsonView::Int64(n)) == JsonView::Number(kind),
{
}

/// A wrapped integer reads the same from its text and from the plain number, and is that integer.
pub proof fn law_wrapped_integers_agree(n: i64, chinese: bool)
    ensures
        bson_of(single("$numberLong"@, JsonView::String(signed_decimal(n as int))), chinese)
            == Ok::<BsonView, Seq<char>>(BsonView::Int64(n)),
        bson_of(single("$numberLong"@, JsonView::Number(of_signed(n))), chinese) == Ok::<
            BsonView,
            Seq<char>,
        >(BsonView::Int64(n)),
        i32::MIN <= n <= i32::MAX ==> bson_of(
            single("$numberInt"@, JsonView::String(signed_decimal(n as int))),
            chinese,
        ) == Ok::<BsonView, Seq<char>>(BsonView::Int32(n as i32)),
{
    lemma_signed_decimal_reads_back(n as int);
    reveal_strlit("$oid");
    reveal_strlit("$date");
    reveal_strlit("$numberLong");
    reveal_strlit("$numberInt");
    assert("$numberLong"@.len() == 11 && "$numberInt"@.len() == 10);
    assert("$oid"@.len() == 4 && "$date"@.len() == 5);
    let a = single("$numberLong"@, JsonView::String(signed_decimal(n as int)));
    assert(a->Object_0.len() == 1 && a->Object_0[0].0 == "$numberLong"@);
    let b = single("$numberLong"@, JsonView::Number(of_signed(n)));
    assert(b->Object_0.len() == 1 && b->Object_0[0].0 == "$numberLong"@);
    let c = single("$numberInt"@, JsonView::String(signed_decimal(n as int)));
    assert(c->Object_0.len() == 1 && c->Object_0[0].0 == "$numberInt"@);
}

/// An object that is no wrapper keeps its keys and their order, query operators among them, and
/// each of its values is what that value is by itself; it is refused exactly when one of its
/// values is.
pub proof fn law_objects_keep_their_keys(fields: Seq<(Seq<char>, JsonView)>, chinese: bool)
    requires
        !(fields.len() == 1 && is_wrapper(fields[0].0)),
    ensures
        match bson_of(JsonView::Object(fields), chinese) {
            Ok(bson) => {
                &&& bson matches BsonView::Document(doc)
                &&& doc.len() == fields.len()
                &&& forall|i: int|
                    0 <= i < fields.len() ==> (#[trigger] doc[i]).0 == fields[i].0 && bson_of(
                        fields[i].1,
                        chinese,
                    ) == Ok::<BsonView, Seq<char>>(doc[i].1)
            },
            Err(err) => exists|i: int|
                0 <= i < fields.len() && bson_of((#[trigger] fields[i]).1, chinese) is Err,
        },
{
    let results = bson_of_fields(fields, chinese);
    lemma_collected_each(results);
    match bson_of(JsonView::Object(fields), chinese) {
        Ok(bson) => {
            let doc = bson->Document_0;
            assert forall|i: int| 0 <= i < fields.len() implies (#[trigger] doc[i]).0 == fields[i].0
                && bson_of(fields[i].1, chinese) == Ok::<BsonView, Seq<char>>(doc[i].1) by {
                assert(results[i] == Ok::<BsonView, Seq<char>>(doc[i].1));
            }
        },
        Err(_) => {
            let i = choose|i: int| 0 <= i < results.len() && (#[trigger] results[i]) is Err;
            assert(bson_of(fields[i].1, chinese) is Err);
        },
    }
}

/// A document given as JSON text and the same document given as an object are the same. That a
/// blank text is no JSON is known only where it is read: `parse_json_field` promises the same of
/// every text.
pub proof fn law_document_forms_agree(
    as_text: JsonView,
    as_object: JsonView,
    key: Seq<char>,
    text: Seq<char>,
    object: JsonView,
    chinese: bool,
)
    requires
        member(as_text, key) == Some(JsonView::String(text)),
        member(as_object, key) == Some(object),
        object is Object,
        !blank(text),
    ensures
        json_text(text) == Ok::<JsonView, Seq<char>>(object) ==> json_field(as_text, key, chinese)
            == json_field(as_object, key, chinese),
{
}

/// Documents given as JSON text and the same documents given as an array are the same. That a blank
/// text is no JSON is known only where it is read: `parse_json_array_field` promises the same of
/// every text.
pub proof fn law_array_forms_agree(
    as_text: JsonView,
    as_array: JsonView,
    key: Seq<char>,
    text: Seq<char>,
    array: JsonView,
    chinese: bool,
)
    requires
        member(as_text, key) == Some(JsonView::String(text)),
        member(as_array, key) == Some(array),
        array is Array,
        !blank(text),
    ensures
        json_text(text) == Ok::<JsonView, Seq<char>>(array) ==> json_array_field(
            as_text,
            key,
            chinese,
        ) == json_array_field(as_array, key, chinese),
{
}

/// Only an object is a document. A field that holds something else is refused, and so is a text
/// that writes something else; an array in its place and an element that is no object are refused
/// with the message for that, also where they could not be converted.
pub proof fn law_only_objects_are_documents(
    config: JsonView,
    value: JsonView,
    key: Seq<char>,
    chinese: bool,
)
    ensures
        member(config, key) == Some(value) && (value is Array || value is Number || value is Bool)
            ==> json_field(config, key, chinese) == Err::<Option<FieldViews>, Seq<char>>(
            not_an_object(key, chinese),
        ),
        value !is Object ==> document_of(value, key, chinese) is Err,
        value is Array ==> document_of(value, key, chinese) == Err::<FieldViews, Seq<char>>(
            not_an_object(key, chinese),
        ),
        value !is Object ==> element_of(value, key, chinese) == Err::<FieldViews, Seq<char>>(
            element_not_an_object(key, chinese),
        ),
{
}

/// An array is taken exactly when each of its elements is a document in BSON, and gives those
/// documents one for one.
pub proof fn law_arrays_are_taken_one_by_one(items: Seq<JsonView>, key: Seq<char>, chinese: bool)
    ensures
        collected(elements_of(items, key, chinese)) is Ok <==> forall|i: int|
            0 <= i < items.len() ==> (#[trigger] bson_of(items[i], chinese)) matches Ok(
                BsonView::Document(_),
            ),
        collected(elements_of(items, key, chinese)) matches Ok(docs) ==> docs.len() == items.len()
            && forall|i: int|
            0 <= i < items.len() ==> #[trigger] bson_of(items[i], chinese) == Ok::<
                BsonView,
                Seq<char>,
            >(BsonView::Document(docs[i])),
{
    let results = elements_of(items, key, chinese);
    lemma_collected_each(results);
    if collected(results) is Ok {
        let docs = collected(results)->Ok_0;
        assert forall|i: int| 0 <= i < items.len() implies #[trigger] bson_of(items[i], chinese)
            == Ok::<BsonView, Seq<char>>(BsonView::Document(docs[i])) by {
            assert(results[i] == Ok::<FieldViews, Seq<char>>(docs[i]));
        }
    } else {
        let i = choose|i: int| 0 <= i < results.len() && (#[trigger] results[i]) is Err;
        assert(results[i] == element_of(items[i], key, chinese));
        assert(!(bson_of(items[i], chinese) matches Ok(BsonView::Document(_))));
    }
}

/// A field that stands for nothing: missing, null or blank.
pub open spec fn unset(config: JsonView, key: Seq<char>) -> bool {
    match member(config, key) {
        None => true,
        Some(JsonView::Null) => true,
        Some(JsonView::String(text)) => blank(text),
        _ => false,
    }
}

/// A field gives nothing exactly when it is missing, null or blank.
pub proof fn law_unset_fields_are_none(config: JsonView, key: Seq<char>, chinese: bool)
    ensures
        unset(config, key) <==> json_field(config, key, chinese) == Ok::<
            Option<FieldViews>,
            Seq<char>,
        >(None),
        unset(config, key) <==> json_array_field(config, key, chinese) == Ok::<
            Option<Seq<FieldViews>>,
            Seq<char>,
        >(None),
{
}

} // verus!

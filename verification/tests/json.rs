use mongodb::bson::oid::ObjectId;
use mongodb::bson::spec::BinarySubtype;
use mongodb::bson::Binary;
use mongodb::bson::Bson;
use mongodb::bson::DateTime;

use mpe_plugin_mongo::bson::BsonValue;
use mpe_plugin_mongo::bson::Document;
use mpe_plugin_mongo::fields::Fields;
use mpe_plugin_mongo::i18n::Locale;
use mpe_plugin_mongo::json::check_writable;
use mpe_plugin_mongo::json::contains_non_finite;
use mpe_plugin_mongo::json::date_from_text;
use mpe_plugin_mongo::json::doc_to_json;
use mpe_plugin_mongo::json::docs_to_json_array;
use mpe_plugin_mongo::json::document_from_text;
use mpe_plugin_mongo::json::documents_from_text;
use mpe_plugin_mongo::json::double_from_text;
use mpe_plugin_mongo::json::int32_from_text;
use mpe_plugin_mongo::json::int64_from_text;
use mpe_plugin_mongo::json::json_from_text;
use mpe_plugin_mongo::json::json_from_written;
use mpe_plugin_mongo::json::millis_from_text;
use mpe_plugin_mongo::json::number_wrapper_text;
use mpe_plugin_mongo::json::object_id_from_text;
use mpe_plugin_mongo::json::parse_json_array_field;
use mpe_plugin_mongo::json::parse_json_field;
use mpe_plugin_mongo::json::try_extended_wrapper;
use mpe_plugin_mongo::json::value_to_bson;
use mpe_plugin_mongo::outside::bson_from_driver;
use mpe_plugin_mongo::outside::bson_to_driver;
use mpe_plugin_mongo::outside::json_from_outside;
use mpe_plugin_mongo::outside::json_to_outside;
use mpe_plugin_mongo::value::Json;
use mpe_plugin_mongo::value::Number;
use mpe_plugin_mongo::value::NumberKind;

fn english() -> Locale {
    Locale { name: None }
}

fn chinese() -> Locale {
    Locale { name: Some("zh-CN".to_string()) }
}

/// The value that a JSON text writes.
fn json(text: &str) -> Json {
    json_from_text(text).expect("JSON must parse")
}

/// An object with one field.
fn object(key: &str, value: Json) -> Json {
    let mut fields = Fields::new();
    fields.insert(key.to_string(), value);
    Json::Object(fields)
}

/// A configuration with one text.
fn text_config(key: &str, text: &str) -> Json {
    object(key, Json::String(text.to_string()))
}

/// A document with one field.
fn doc(key: &str, value: BsonValue) -> Document {
    let mut fields = Fields::new();
    fields.insert(key.to_string(), value);
    fields
}

fn double(value: f64) -> BsonValue {
    BsonValue::Double(value.to_bits())
}

fn object_id(hex: &str) -> [u8; 12] {
    ObjectId::parse_str(hex).expect("hex must parse").bytes()
}

/// The field of a configuration that must be there.
fn parsed(config: &Json, key: &str) -> Document {
    parse_json_field(config, key, &english()).expect("must parse").expect("field present")
}

fn refused(config: &Json, key: &str) -> String {
    parse_json_field(config, key, &english()).expect_err("must be refused")
}

/// The same filter as a JSON text and as a JSON object is the same document.
#[test]
fn string_and_object_forms_equivalent() {
    let as_string = parse_json_field(
        &text_config("filter", r#"{"age": {"$gt": 18}}"#),
        "filter",
        &english(),
    )
    .expect("string form must parse");
    let as_object = parse_json_field(
        &json(r#"{ "filter": {"age": {"$gt": 18}} }"#),
        "filter",
        &english(),
    )
    .expect("object form must parse");
    assert_eq!(as_string, as_object);
    assert_eq!(
        as_string,
        Some(doc("age", BsonValue::Document(doc("$gt", BsonValue::Int64(18)))))
    );
}

/// Whole numbers survive the way to BSON and back, up to the ends of their range.
#[test]
fn numeric_fidelity() {
    let ints = [9007199254740993i64, -9007199254740993i64, i64::MAX, i64::MIN];
    for &n in &ints {
        let expected = object("n", Json::Number(Number::from_signed(n)));
        let config = object("filter", object("n", Json::Number(Number::from_signed(n))));
        let document = parsed(&config, "filter");
        assert_eq!(
            doc_to_json(&document, &english()).expect("i64 roundtrip"),
            expected,
            "i64 {n} lost precision through BSON"
        );
    }
    let u64_boundary = 9223372036854775807u64;
    let expected = object("n", Json::Number(Number::from_unsigned(u64_boundary)));
    let config = object(
        "filter",
        object("n", Json::Number(Number::from_unsigned(u64_boundary))),
    );
    let document = parsed(&config, "filter");
    assert_eq!(
        doc_to_json(&document, &english()).expect("boundary u64 roundtrip"),
        expected,
        "u64 {u64_boundary} lost precision through BSON"
    );
    let beyond = parse_json_field(
        &object(
            "filter",
            object("n", Json::Number(Number::from_unsigned(18446744073709551615u64))),
        ),
        "filter",
        &english(),
    );
    assert!(beyond.is_err(), "u64::MAX cannot fit BSON i64 and must be rejected");
    assert_eq!(beyond, Err("u64 exceeds BSON Int64 range".to_string()));
}

/// The JSON forms of the special types.
#[test]
fn special_type_output_shape_locked_by_test() {
    let oid = ObjectId::new();
    let mut driver = mongodb::bson::Document::new();
    driver.insert("oid", oid);
    driver.insert("date", DateTime::from_millis(0));
    driver.insert(
        "bin",
        Binary { subtype: BinarySubtype::Generic, bytes: vec![1, 2, 3] },
    );
    let document = match bson_from_driver(Bson::Document(driver)) {
        BsonValue::Document(document) => document,
        other => panic!("a document, got: {other:?}"),
    };
    let written = doc_to_json(&document, &english()).expect("special-type doc must serialize");
    let expected = json(&format!(
        r#"{{ "oid": {{ "$oid": "{}" }}, "date": {{ "$date": {{ "$numberLong": "0" }} }}, "bin": [1, 2, 3] }}"#,
        oid.to_hex()
    ));
    assert_eq!(written, expected, "driver special-type serde shape changed");
}

/// A text that is no JSON is refused with a message that names the field.
#[test]
fn invalid_json_string_errors() {
    let err = refused(&text_config("filter", "not json"), "filter");
    assert!(
        err.contains("JSON") && err.contains("filter"),
        "error must be readable and name the field, got: {err}"
    );
    assert!(
        err.contains("not valid JSON"),
        "error must be the documented message, got: {err}"
    );
}

/// A double that is not finite is refused, at any depth.
#[test]
fn nan_document_errors_not_panics() {
    let err = doc_to_json(&doc("v", double(f64::NAN)), &english())
        .expect_err("NaN must not serialize to JSON");
    assert!(
        err.contains("non-finite"),
        "error must name the non-finite cause, got: {err}"
    );
    assert!(doc_to_json(&doc("v", double(f64::INFINITY)), &english()).is_err());
    assert!(doc_to_json(&doc("v", double(f64::NEG_INFINITY)), &english()).is_err());
    let nested = doc(
        "nested",
        BsonValue::Document(doc(
            "vals",
            BsonValue::Array(vec![double(1.5), double(f64::NAN)]),
        )),
    );
    assert!(doc_to_json(&nested, &english()).is_err());
}

/// The same documents as a JSON text and as a JSON array are the same.
#[test]
fn array_field_parses_string_and_array() {
    let as_string = parse_json_array_field(
        &text_config("pipeline", r#"[{"name": "a"}, {"$match": {"age": {"$gt": 18}}}]"#),
        "pipeline",
        &english(),
    )
    .expect("string form must parse");
    let as_array = parse_json_array_field(
        &json(r#"{ "pipeline": [{"name": "a"}, {"$match": {"age": {"$gt": 18}}}] }"#),
        "pipeline",
        &english(),
    )
    .expect("array form must parse");
    assert_eq!(as_string, as_array);
    assert_eq!(
        as_array,
        Some(vec![
            doc("name", BsonValue::String("a".to_string())),
            doc(
                "$match",
                BsonValue::Document(doc(
                    "age",
                    BsonValue::Document(doc("$gt", BsonValue::Int64(18)))
                ))
            ),
        ])
    );
}

/// A plain document survives the way to BSON and back unchanged.
#[test]
fn roundtrip() {
    let text = r#"{
        "s": "hello",
        "i": 42,
        "f": 3.5,
        "b": true,
        "nested": { "x": 1 },
        "arr": [1, 2, 3],
        "nil": null
    }"#;
    let document = parsed(&object("filter", json(text)), "filter");
    assert_eq!(doc_to_json(&document, &english()).expect("roundtrip"), json(text));
}

/// A field that is null, missing or blank gives nothing.
#[test]
fn null_missing_and_empty_string_are_none() {
    for config in [
        json("{}"),
        json(r#"{ "filter": null }"#),
        json(r#"{ "pipeline": null }"#),
        json(r#"{ "filter": "", "pipeline": "" }"#),
        json(r#"{ "filter": "   ", "pipeline": " \t " }"#),
    ] {
        assert_eq!(parse_json_field(&config, "filter", &english()).expect("no error"), None);
        assert_eq!(
            parse_json_array_field(&config, "pipeline", &english()).expect("no error"),
            None
        );
    }
}

/// An element that is no object is refused with a readable message.
#[test]
fn array_element_must_be_object() {
    let err = parse_json_array_field(
        &json(r#"{ "documents": [{"name": "a"}, 42, "text"] }"#),
        "documents",
        &english(),
    )
    .expect_err("non-object element must error");
    assert!(
        err.contains("documents") && err.contains("object"),
        "error must name the field and the element problem, got: {err}"
    );
    let err = parse_json_array_field(
        &text_config("pipeline", r#"{"$match": {}}"#),
        "pipeline",
        &english(),
    )
    .expect_err("non-array JSON text must error");
    assert!(err.contains("JSON array"), "got: {err}");
}

/// `{"$oid": hex}` is an object id, and is written as it was read.
#[test]
fn oid_wrapper_matches_object_id() {
    let hex = "6a797a7542ec4eacbd05bcb2";
    let document = parsed(
        &text_config("filter", &format!(r#"{{"_id": {{"$oid": "{hex}"}}}}"#)),
        "filter",
    );
    match document.get("_id") {
        Some(BsonValue::ObjectId(bytes)) => {
            assert_eq!(ObjectId::from_bytes(*bytes).to_hex(), hex);
        }
        other => panic!("_id must be an ObjectId, got: {other:?}"),
    }
    let written = doc_to_json(&document, &english()).expect("doc must serialize");
    assert_eq!(
        written.get("_id").and_then(|id| id.get("$oid")),
        Some(&Json::String(hex.to_string()))
    );
}

/// A plain text stays a text, whatever it looks like.
#[test]
fn plain_string_oid_is_not_object_id() {
    let document = parsed(
        &text_config("filter", r#"{"_id": "6a797a7542ec4eacbd05bcb2"}"#),
        "filter",
    );
    assert!(document.get("_id").is_some(), "string _id must remain a plain string");
    assert_eq!(
        document.get("_id"),
        Some(&BsonValue::String("6a797a7542ec4eacbd05bcb2".to_string()))
    );
}

/// What is no object id is refused with a message that names `$oid`.
#[test]
fn invalid_oid_errors() {
    for bad in ["6a797a75", "zzzzzzzzzzzzzzzzzzzzzzzz", ""] {
        let err = refused(
            &text_config("filter", &format!(r#"{{"_id": {{"$oid": "{bad}"}}}}"#)),
            "filter",
        );
        assert!(
            err.contains("$oid") && err.contains("ObjectId"),
            "error must name $oid and ObjectId, got: {err}"
        );
    }
}

/// A date is read from its text and from its milliseconds alike.
#[test]
fn date_wrapper_accepts_iso_and_millis() {
    let iso = parsed(
        &text_config("filter", r#"{"ts": {"$date": "2026-08-10T00:00:00Z"}}"#),
        "filter",
    );
    let millis = match iso.get("ts") {
        Some(BsonValue::DateTime(millis)) => *millis,
        other => panic!("must be DateTime, got: {other:?}"),
    };
    let millis_form = parsed(
        &text_config(
            "filter",
            &format!(r#"{{"ts": {{"$date": {{"$numberLong": "{millis}"}}}}}}"#),
        ),
        "filter",
    );
    assert_eq!(iso, millis_form, "ISO-8601 and millis forms must be equivalent");
    let written = doc_to_json(&iso, &english()).expect("doc must serialize");
    assert_eq!(
        written.get("ts"),
        Some(&json(&format!(r#"{{ "$date": {{ "$numberLong": "{millis}" }} }}"#)))
    );
    assert_eq!(millis, 1786320000000);
}

/// What is no date is refused with a readable message.
#[test]
fn invalid_date_errors() {
    let err = refused(
        &text_config("filter", r#"{"ts": {"$date": "not-a-date"}}"#),
        "filter",
    );
    assert!(err.contains("$date"), "error must name $date, got: {err}");
    let err = refused(
        &text_config("filter", r#"{"ts": {"$date": {"$numberLong": "abc"}}}"#),
        "filter",
    );
    assert!(err.contains("$numberLong"), "error must name $numberLong, got: {err}");
}

/// `$numberLong` keeps large integers, and what does not fit is refused.
#[test]
fn number_long_wrapper_preserves_precision() {
    let big = i64::MAX;
    let document = parsed(
        &text_config("filter", &format!(r#"{{"n": {{"$numberLong": "{big}"}}}}"#)),
        "filter",
    );
    assert_eq!(document.get("n"), Some(&BsonValue::Int64(big)));
    let err = refused(
        &text_config("filter", r#"{"n": {"$numberLong": "9223372036854775808"}}"#),
        "filter",
    );
    assert!(err.contains("$numberLong"), "error must name $numberLong, got: {err}");
}

/// `$numberInt` and `$numberDouble` are read.
#[test]
fn number_int_and_double_wrappers() {
    let document = parsed(
        &text_config(
            "filter",
            r#"{"i": {"$numberInt": "42"}, "f": {"$numberDouble": "3.5"}}"#,
        ),
        "filter",
    );
    assert_eq!(document.get("i"), Some(&BsonValue::Int32(42)));
    assert_eq!(document.get("f"), Some(&double(3.5)));
}

/// Query operators stay as they are.
#[test]
fn query_operators_pass_through_untouched() {
    let document = parsed(
        &text_config("filter", r#"{"age": {"$gt": 18}, "name": {"$in": ["a", "b"]}}"#),
        "filter",
    );
    let age = match document.get("age") {
        Some(BsonValue::Document(age)) => age,
        other => panic!("age is a doc, got: {other:?}"),
    };
    assert_eq!(age.get("$gt"), Some(&BsonValue::Int64(18)));
    assert!(age.get("$gt").is_some(), "$gt key preserved");
    let name = match document.get("name") {
        Some(BsonValue::Document(name)) => name,
        other => panic!("name is a doc, got: {other:?}"),
    };
    assert!(name.get("$in").is_some(), "$in key preserved");
}

/// An object id is read at any depth.
#[test]
fn oid_nested_in_arrays_and_deep_objects() {
    let pipeline = parse_json_array_field(
        &text_config(
            "pipeline",
            r#"[{"$match": {"_id": {"$oid": "6a797a7542ec4eacbd05bcb2"}}}]"#,
        ),
        "pipeline",
        &english(),
    )
    .expect("pipeline must parse")
    .expect("field present");
    let stage = pipeline.first().expect("one stage");
    let matched = match stage.get("$match") {
        Some(BsonValue::Document(matched)) => matched,
        other => panic!("match doc, got: {other:?}"),
    };
    assert!(
        matches!(matched.get("_id"), Some(BsonValue::ObjectId(_))),
        "nested $oid must become ObjectId"
    );
}

/// Each message about a wrapper, in both languages.
#[test]
fn wrapper_messages() {
    let cases = [
        (
            r#"{"$oid": 5}"#,
            "field $oid must be a 24-char hex string",
            "字段 $oid 必须是 24 位 hex 字符串",
        ),
        (
            r#"{"$date": {"millis": 1}}"#,
            "field $date object form must be {\"$numberLong\": \"<ms>\"}",
            "字段 $date 对象形式必须是 {\"$numberLong\": \"<ms>\"}",
        ),
        (
            r#"{"$date": 5}"#,
            "field $date must be an ISO-8601 string or {\"$numberLong\": \"<ms>\"}",
            "字段 $date 必须是 ISO-8601 字符串或 {\"$numberLong\": \"<ms>\"}",
        ),
        (
            r#"{"$numberLong": true}"#,
            "field $numberLong must be a JSON string or number",
            "字段 $numberLong 必须是 JSON 字符串或数字",
        ),
        (
            r#"{"$numberInt": []}"#,
            "field $numberInt must be a JSON string or number",
            "字段 $numberInt 必须是 JSON 字符串或数字",
        ),
        (
            r#"{"$numberDouble": null}"#,
            "field $numberDouble must be a JSON string or number",
            "字段 $numberDouble 必须是 JSON 字符串或数字",
        ),
        (
            r#"{"$numberLong": "x"}"#,
            "field $numberLong is not a valid Int64: invalid digit found in string",
            "字段 $numberLong 不是合法 Int64: invalid digit found in string",
        ),
        (
            r#"{"$numberInt": "2147483648"}"#,
            "field $numberInt is not a valid Int32: number too large to fit in target type",
            "字段 $numberInt 不是合法 Int32: number too large to fit in target type",
        ),
        (
            r#"{"$numberDouble": "x"}"#,
            "field $numberDouble is not a valid Double: invalid float literal",
            "字段 $numberDouble 不是合法 Double: invalid float literal",
        ),
        (
            r#"{"$date": {"$numberLong": ""}}"#,
            "field $date.$numberLong is not a valid integer: cannot parse integer from empty string",
            "字段 $date.$numberLong 不是合法整数: cannot parse integer from empty string",
        ),
        (
            "18446744073709551615",
            "u64 exceeds BSON Int64 range",
            "u64 超出 BSON Int64 范围",
        ),
    ];
    for (text, en, zh) in cases {
        assert_eq!(value_to_bson(&json(text), &english()), Err(en.to_string()));
        assert_eq!(value_to_bson(&json(text), &chinese()), Err(zh.to_string()));
    }
    let err = value_to_bson(&json(r#"{"$oid": "xyz"}"#), &english()).expect_err("no object id");
    assert!(err.starts_with("field $oid is not a valid ObjectId: "), "got: {err}");
    let err = value_to_bson(&json(r#"{"$date": "xyz"}"#), &chinese()).expect_err("no date");
    assert!(err.starts_with("字段 $date 不是合法 ISO-8601: "), "got: {err}");
}

/// Values of each kind, and a wrapper with a plain number.
#[test]
fn values_of_each_kind() {
    let locale = english();
    assert_eq!(value_to_bson(&Json::Null, &locale), Ok(BsonValue::Null));
    assert_eq!(value_to_bson(&json("true"), &locale), Ok(BsonValue::Boolean(true)));
    assert_eq!(value_to_bson(&json("-3"), &locale), Ok(BsonValue::Int64(-3)));
    assert_eq!(value_to_bson(&json("2.25"), &locale), Ok(double(2.25)));
    assert_eq!(value_to_bson(&json("\"x\""), &locale), Ok(BsonValue::String("x".to_string())));
    assert_eq!(
        value_to_bson(&json(r#"[1, {"$numberInt": "2"}]"#), &locale),
        Ok(BsonValue::Array(vec![BsonValue::Int64(1), BsonValue::Int32(2)]))
    );
    assert_eq!(
        value_to_bson(&json(r#"{"$numberLong": 7}"#), &locale),
        Ok(BsonValue::Int64(7))
    );
    assert_eq!(
        value_to_bson(&json(r#"{"$numberLong": -7}"#), &locale),
        Ok(BsonValue::Int64(-7))
    );
    assert_eq!(
        value_to_bson(&json(r#"{"$numberDouble": 2.5}"#), &locale),
        Ok(double(2.5))
    );
    assert_eq!(
        value_to_bson(&json(r#"{"$numberDouble": "-Infinity"}"#), &locale),
        Ok(double(f64::NEG_INFINITY))
    );
    assert_eq!(
        value_to_bson(&json(r#"{"$oid": "6A797A7542EC4EACBD05BCB2"}"#), &locale),
        Ok(BsonValue::ObjectId(object_id("6a797a7542ec4eacbd05bcb2")))
    );
    assert_eq!(
        value_to_bson(&json(r#"{"$date": {"$numberLong": "-5", "more": 1}}"#), &locale),
        Ok(BsonValue::DateTime(-5))
    );
}

/// A wrapper key among other keys is an ordinary key.
#[test]
fn wrapper_key_among_others_is_a_field() {
    let mut expected = doc("$oid", BsonValue::String("x".to_string()));
    expected.insert("a".to_string(), BsonValue::Int64(1));
    assert_eq!(
        value_to_bson(&json(r#"{"$oid": "x", "a": 1}"#), &english()),
        Ok(BsonValue::Document(expected))
    );
}

#[test]
fn try_extended_wrapper_leaves_operators() {
    let locale = english();
    assert_eq!(try_extended_wrapper("$gt", &json("18"), &locale), Ok(None));
    assert_eq!(
        try_extended_wrapper("$numberInt", &json("\"18\""), &locale),
        Ok(Some(BsonValue::Int32(18)))
    );
    assert!(try_extended_wrapper("$oid", &json("18"), &locale).is_err());
}

#[test]
fn number_wrapper_text_takes_texts_and_numbers() {
    let locale = english();
    assert_eq!(number_wrapper_text(&json("\"7\""), "$n", &locale), Ok("7".to_string()));
    assert_eq!(number_wrapper_text(&json("12"), "$n", &locale), Ok("12".to_string()));
    assert_eq!(number_wrapper_text(&json("-12"), "$n", &locale), Ok("-12".to_string()));
    assert_eq!(number_wrapper_text(&json("0.5"), "$n", &locale), Ok("0.5".to_string()));
    assert_eq!(
        number_wrapper_text(&json("[]"), "$n", &locale),
        Err("field $n must be a JSON string or number".to_string())
    );
}

/// A field that is neither a text nor an object, and an object that is a value of another type.
#[test]
fn fields_that_are_no_documents() {
    for config in [
        json(r#"{"filter": [1]}"#),
        json(r#"{"filter": 5}"#),
        json(r#"{"filter": true}"#),
        json(r#"{"filter": "[1]"}"#),
        json(r#"{"filter": "[18446744073709551615]"}"#),
        json(r#"{"filter": 18446744073709551615}"#),
        json(r#"{"filter": [18446744073709551615]}"#),
        json(r#"{"filter": "5"}"#),
        json(r#"{"filter": "true"}"#),
        json(r#"{"filter": "null"}"#),
        json(r#"{"filter": "\"{}\""}"#),
        json(r#"{"filter": [{"$oid": "x"}]}"#),
        json(r#"{"filter": {"$numberInt": "1"}}"#),
    ] {
        assert_eq!(refused(&config, "filter"), "field filter must be a JSON text or object");
        assert_eq!(
            parse_json_field(&config, "filter", &chinese()),
            Err("字段 filter 必须是 JSON 文本或对象".to_string())
        );
    }
}

/// A text is read and converted: a number in it that BSON cannot hold is refused for that.
#[test]
fn number_text_beyond_64_bits() {
    let config = json(r#"{"filter": "18446744073709551615"}"#);
    assert_eq!(refused(&config, "filter"), "u64 exceeds BSON Int64 range");
}

/// A text of white space alone is no JSON and sets no field.
#[test]
fn blank_texts_are_no_json() {
    for text in ["", " ", "\t\r\n ", "\u{b}", "\u{a0}", " \u{85}", "\u{2028}", "\u{3000} "] {
        assert!(json_from_text(text).is_err(), "{text:?}");
        let config = text_config("f", text);
        assert_eq!(parse_json_field(&config, "f", &english()), Ok(None));
        assert_eq!(parse_json_array_field(&config, "f", &english()), Ok(None));
    }
}

/// An array gives one document for each element, and none at all where one element is none.
#[test]
fn arrays_one_by_one() {
    let parse = |text: &str| parse_json_array_field(&json(text), "p", &english());
    let one = |text: &str| parse_json_field(&json(text), "p", &english()).unwrap().unwrap();
    assert_eq!(
        parse(r#"{"p": [{"a": 1}, {}, {"b": [2]}]}"#),
        Ok(Some(vec![one(r#"{"p": {"a": 1}}"#), one(r#"{"p": {}}"#), one(r#"{"p": {"b": [2]}}"#)]))
    );
    for config in [
        r#"{"p": [{"a": 1}, {"$numberInt": "1"}]}"#,
        r#"{"p": [{"a": 1}, [{}]]}"#,
        r#"{"p": [{"a": 1}, 18446744073709551615]}"#,
    ] {
        assert_eq!(
            parse(config),
            Err("field p array elements must be JSON objects".to_string())
        );
    }
}

/// The messages about a list of documents.
#[test]
fn array_messages() {
    let parse = |text: &str| parse_json_array_field(&json(text), "p", &english());
    assert_eq!(parse(r#"{"p": 5}"#), Err("field p must be a JSON array or text".to_string()));
    assert_eq!(parse(r#"{"p": "5"}"#), Err("field p must be a JSON array".to_string()));
    assert_eq!(
        parse(r#"{"p": [{}, 1]}"#),
        Err("field p array elements must be JSON objects".to_string())
    );
    assert_eq!(
        parse(r#"{"p": [{"n": 18446744073709551615}, 1]}"#),
        Err("field p array element could not be converted to BSON: u64 exceeds BSON Int64 range"
            .to_string())
    );
    assert_eq!(parse(r#"{"p": []}"#), Ok(Some(vec![])));
}

/// An element that is no object is refused as such, also where it could not be converted.
#[test]
fn elements_that_are_no_objects() {
    for text in [
        r#"{"documents": [18446744073709551615]}"#,
        r#"{"documents": [[18446744073709551615]]}"#,
        r#"{"documents": "[18446744073709551615]"}"#,
        r#"{"documents": [{}, [{"$oid": "x"}]]}"#,
        r#"{"documents": [{"$numberInt": "1"}]}"#,
        r#"{"documents": [null]}"#,
    ] {
        assert_eq!(
            parse_json_array_field(&json(text), "documents", &english()),
            Err("field documents array elements must be JSON objects".to_string())
        );
        assert_eq!(
            parse_json_array_field(&json(text), "documents", &chinese()),
            Err("字段 documents 的数组元素必须是 JSON 对象".to_string())
        );
    }
}

/// What the text of a wrapper was read as becomes the value of the type, or a message.
#[test]
fn values_of_what_was_read() {
    let why = || "why".to_string();
    assert_eq!(date_from_text(Ok(-5), &english()), Ok(BsonValue::DateTime(-5)));
    assert_eq!(
        date_from_text(Err(why()), &english()),
        Err("field $date is not valid ISO-8601: why".to_string())
    );
    assert_eq!(
        date_from_text(Err(why()), &chinese()),
        Err("字段 $date 不是合法 ISO-8601: why".to_string())
    );
    assert_eq!(millis_from_text(Ok(7), &english()), Ok(BsonValue::DateTime(7)));
    assert_eq!(
        millis_from_text(Err(why()), &english()),
        Err("field $date.$numberLong is not a valid integer: why".to_string())
    );
    assert_eq!(double_from_text(Ok(2.5f64.to_bits()), &english()), Ok(double(2.5)));
    assert_eq!(
        double_from_text(Err(why()), &english()),
        Err("field $numberDouble is not a valid Double: why".to_string())
    );
    assert_eq!(int64_from_text(Ok(9), &english()), Ok(BsonValue::Int64(9)));
    assert_eq!(
        int64_from_text(Err(why()), &english()),
        Err("field $numberLong is not a valid Int64: why".to_string())
    );
    assert_eq!(int32_from_text(Ok(9), &english()), Ok(BsonValue::Int32(9)));
    assert_eq!(
        int32_from_text(Err(why()), &english()),
        Err("field $numberInt is not a valid Int32: why".to_string())
    );
    assert_eq!(
        object_id_from_text(Ok([1; 12]), &english()),
        Ok(BsonValue::ObjectId([1; 12]))
    );
    assert_eq!(
        object_id_from_text(Err(why()), &english()),
        Err("field $oid is not a valid ObjectId: why".to_string())
    );
}

/// What a text was read as is converted like the text.
#[test]
fn documents_of_what_was_read() {
    let locale = english();
    assert_eq!(
        document_from_text(Ok(json(r#"{"a": 1}"#)), "f", &locale),
        Ok(doc("a", BsonValue::Int64(1)))
    );
    assert_eq!(
        document_from_text(Err("why".to_string()), "f", &locale),
        Err("field f is not valid JSON: why".to_string())
    );
    assert_eq!(
        document_from_text(Err("why".to_string()), "f", &chinese()),
        Err("字段 f 不是合法 JSON: why".to_string())
    );
    assert_eq!(
        documents_from_text(Ok(json(r#"[{"a": 1}]"#)), "f", &locale),
        Ok(vec![doc("a", BsonValue::Int64(1))])
    );
    assert_eq!(
        documents_from_text(Err("why".to_string()), "f", &locale),
        Err("field f is not valid JSON: why".to_string())
    );
}

/// What is written reads back, integers as 64-bit integers.
#[test]
fn written_json_reads_back() {
    let mut document = doc("_id", BsonValue::ObjectId(object_id("00ff10203040506070809abc")));
    document.insert("at".to_string(), BsonValue::DateTime(-1234567890123));
    document.insert("n".to_string(), BsonValue::Int32(-5));
    document.insert("list".to_string(), BsonValue::Array(vec![double(-0.5), BsonValue::Null]));
    let written = doc_to_json(&document, &english()).expect("must be written");
    assert_eq!(
        written,
        json(
            r#"{"_id": {"$oid": "00ff10203040506070809abc"},
                "at": {"$date": {"$numberLong": "-1234567890123"}},
                "n": -5, "list": [-0.5, null]}"#
        )
    );
    let mut expected = doc("_id", BsonValue::ObjectId(object_id("00ff10203040506070809abc")));
    expected.insert("at".to_string(), BsonValue::DateTime(-1234567890123));
    expected.insert("n".to_string(), BsonValue::Int64(-5));
    expected.insert("list".to_string(), BsonValue::Array(vec![double(-0.5), BsonValue::Null]));
    assert_eq!(
        value_to_bson(&written, &english()),
        Ok(BsonValue::Document(expected))
    );
}

/// Objects with a marking key, but not with the value of that type, go round unchanged; so do
/// object ids and dates as the library writes them.
#[test]
fn plain_objects_go_round() {
    let text = r#"{
        "a": {"$symbol": 5}, "b": {"$binary": "x"}, "c": {"$minKey": 2}, "d": {"$undefined": false},
        "e": {"$code": "x", "$scope": 1}, "f": {"$timestamp": [1]}, "g": {"$code": true},
        "h": {"$maxKey": 1.0}, "i": {"$gt": 1}, "j": {}, "k": {"$dbPointer": {"$oid": "00ff10203040506070809abc"}},
        "l": {"$oid": "00ff10203040506070809abc"}, "m": {"$date": {"$numberLong": "-7"}},
        "n": [{"$regularExpression": null}, {"$undefined": 1, "x": 2}]
    }"#;
    let document = parsed(&object("filter", json(text)), "filter");
    assert_eq!(doc_to_json(&document, &english()), Ok(json(text)));
}

/// A list of documents is written in order, up to the first that cannot be written.
#[test]
fn lists_of_documents() {
    let locale = english();
    let good = vec![doc("a", BsonValue::Int64(1)), doc("b", BsonValue::Boolean(false))];
    assert_eq!(docs_to_json_array(&good, &locale), Ok(json(r#"[{"a": 1}, {"b": false}]"#)));
    let bad = vec![doc("a", BsonValue::Int64(1)), doc("b", double(f64::NAN))];
    assert_eq!(
        docs_to_json_array(&bad, &locale),
        Err("result contains a non-finite floating-point value".to_string())
    );
    assert_eq!(docs_to_json_array(&[], &locale), Ok(json("[]")));
}

#[test]
fn non_finite_doubles_are_found() {
    assert!(contains_non_finite(&double(f64::INFINITY)));
    assert!(!contains_non_finite(&double(f64::MAX)));
    assert!(contains_non_finite(&BsonValue::Array(vec![
        BsonValue::Null,
        BsonValue::Document(doc("x", double(f64::NEG_INFINITY))),
    ])));
    assert!(!contains_non_finite(&BsonValue::Document(doc("x", double(0.0)))));
}

/// A double that is not finite is found in the scope of code, and refused there.
#[test]
fn scopes_of_code_are_looked_into() {
    let code = |value: BsonValue| {
        BsonValue::CodeWithScope("f()".to_string(), doc("x", value))
    };
    assert!(contains_non_finite(&code(double(f64::NAN))));
    assert!(contains_non_finite(&BsonValue::Array(vec![code(BsonValue::Document(doc(
        "y",
        double(f64::INFINITY)
    )))])));
    assert!(!contains_non_finite(&code(double(1.0))));
    assert!(contains_non_finite(&bson_from_driver(Bson::JavaScriptCodeWithScope(
        mongodb::bson::JavaScriptCodeWithScope {
            code: String::new(),
            scope: mongodb::bson::Document::from_iter([("x".to_string(), Bson::Double(f64::NAN))]),
        }
    ))));
    assert_eq!(
        doc_to_json(&doc("c", code(double(f64::NAN))), &english()),
        Err("result contains a non-finite floating-point value".to_string())
    );
    assert_eq!(
        doc_to_json(&doc("c", code(BsonValue::DateTime(3))), &english()),
        Ok(json(
            r#"{"c": {"$code": "f()", "$scope": {"x": {"$date": {"$numberLong": "3"}}}}}"#
        ))
    );
}

/// A double that is not finite is refused beside values of every other type, and those alone are
/// written.
#[test]
fn non_finite_beside_carried_values() {
    let carried = vec![
        Bson::Timestamp(mongodb::bson::Timestamp { time: 4000000000, increment: 2 }),
        Bson::RegularExpression(mongodb::bson::Regex {
            pattern: "a".to_string(),
            options: "xi".to_string(),
        }),
        Bson::Binary(Binary { subtype: BinarySubtype::Uuid, bytes: vec![7; 16] }),
        Bson::Decimal128("1.50".parse().expect("decimal")),
        Bson::Decimal128(mongodb::bson::Decimal128::from_bytes([255; 16])),
        Bson::Symbol("s".to_string()),
        Bson::JavaScriptCode("f()".to_string()),
        Bson::MinKey,
        Bson::MaxKey,
        Bson::Undefined,
    ];
    for value in carried {
        let plain = doc("t", bson_from_driver(value.clone()));
        assert!(doc_to_json(&plain, &english()).is_ok(), "{value:?}");
        let mut with_nan = doc("t", bson_from_driver(value));
        with_nan.insert("vals".to_string(), BsonValue::Array(vec![double(1.5), double(f64::NAN)]));
        assert_eq!(
            doc_to_json(&with_nan, &english()),
            Err("result contains a non-finite floating-point value".to_string())
        );
        assert_eq!(
            docs_to_json_array(&[plain, with_nan], &chinese()),
            Err("结果含非有限浮点值".to_string())
        );
    }
}

/// The messages for what cannot be written.
#[test]
fn writing_messages() {
    assert_eq!(
        check_writable(Err("why".to_string()), &english()),
        Err("document could not be converted to a BSON value: why".to_string())
    );
    assert_eq!(
        check_writable(Err("why".to_string()), &chinese()),
        Err("文档无法转换为 BSON 值: why".to_string())
    );
    assert_eq!(
        check_writable(Ok(double(f64::NAN)), &chinese()),
        Err("结果含非有限浮点值".to_string())
    );
    assert_eq!(check_writable(Ok(BsonValue::Int32(1)), &english()), Ok(BsonValue::Int32(1)));
    assert_eq!(
        json_from_written(Err("why".to_string()), &english()),
        Err("document could not be converted to JSON: why".to_string())
    );
    assert_eq!(
        json_from_written(Err("why".to_string()), &chinese()),
        Err("文档无法转换为 JSON: why".to_string())
    );
    assert_eq!(json_from_written(Ok(Json::Null), &english()), Ok(Json::Null));
}

/// Values pass to the driver and back, and so do those of types that are only carried.
#[test]
fn values_pass_to_the_driver_and_back() {
    let timestamp = Bson::Timestamp(mongodb::bson::Timestamp { time: 1, increment: 2 });
    let mut inner = mongodb::bson::Document::new();
    inner.insert("z", Bson::Int32(1));
    inner.insert("a", timestamp);
    let values = vec![
        Bson::Double(1.5),
        Bson::Double(f64::INFINITY),
        Bson::String("x".to_string()),
        Bson::Array(vec![Bson::Null, Bson::Boolean(true)]),
        Bson::Document(inner),
        Bson::Int32(-1),
        Bson::Int64(i64::MIN),
        Bson::ObjectId(ObjectId::from_bytes([7; 12])),
        Bson::DateTime(DateTime::from_millis(i64::MAX)),
        Bson::MaxKey,
        Bson::Binary(Binary { subtype: BinarySubtype::Generic, bytes: vec![0, 255] }),
        Bson::Binary(Binary { subtype: BinarySubtype::Uuid, bytes: vec![1; 16] }),
        Bson::JavaScriptCodeWithScope(mongodb::bson::JavaScriptCodeWithScope {
            code: "f()".to_string(),
            scope: mongodb::bson::Document::from_iter([
                ("z".to_string(), Bson::Int32(1)),
                ("a".to_string(), Bson::Null),
            ]),
        }),
    ];
    for value in values {
        assert_eq!(bson_to_driver(&bson_from_driver(value.clone())), value);
    }
    match bson_from_driver(Bson::Double(f64::NAN)) {
        BsonValue::Double(bits) => assert!(f64::from_bits(bits).is_nan()),
        other => panic!("a double, got: {other:?}"),
    }
    match bson_to_driver(&BsonValue::Double(f64::NAN.to_bits())) {
        Bson::Double(value) => assert!(value.is_nan()),
        other => panic!("a double, got: {other:?}"),
    }
    match bson_from_driver(Bson::MinKey) {
        BsonValue::Other(carried) => assert_eq!(carried.value(), &Bson::MinKey),
        other => panic!("a carried value, got: {other:?}"),
    }
}

/// Values pass to the JSON crate and back, in order.
#[test]
fn values_pass_to_the_json_crate_and_back() {
    let text = r#"{"z":[1,-1,0.5,18446744073709551615],"a":{"k":null},"t":"x","b":true}"#;
    let outside: serde_json::Value = serde_json::from_str(text).expect("must parse");
    let value = json_from_outside(outside.clone());
    assert_eq!(json_to_outside(&value), outside);
    assert_eq!(json_to_outside(&value).to_string(), text);
}

/// What keeps to the kinds of JSON numbers, and what does not.
#[test]
fn numbers_are_valid() {
    assert_eq!(Number::new(NumberKind::NegInt(0)), None);
    assert_eq!(Number::new(NumberKind::Float(f64::NAN.to_bits())), None);
    assert_eq!(Number::new(NumberKind::Float(f64::INFINITY.to_bits())), None);
    let half = Number::new(NumberKind::Float(0.5f64.to_bits())).expect("finite");
    assert_eq!(half.as_i64(), None);
    assert_eq!(half.as_u64(), None);
    assert_eq!(Number::from_unsigned(u64::MAX).as_i64(), None);
    assert_eq!(Number::from_unsigned(u64::MAX).as_u64(), Some(u64::MAX));
    assert_eq!(Number::from_signed(-1).as_u64(), None);
    assert_eq!(Number::from_signed(-1).as_i64(), Some(-1));
}

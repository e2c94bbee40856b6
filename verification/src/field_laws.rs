//! What the fields of a configuration give: documents and lists of documents.
use vstd::prelude::*;

use crate::bson::BsonView;
use crate::calls::json_text;
use crate::collect::collected;
use crate::collect::lemma_collected_all;
use crate::collect::lemma_collected_each;
use crate::collect::lemma_collected_first_error;
use crate::fields::distinct_keys;
use crate::fields::lemma_lookup;
use crate::fields::lemma_position;
use crate::fields::position;
use crate::i18n::naming;
use crate::i18n::naming_cause;
use crate::i18n::said;
use crate::json::FieldViews;
use crate::json::bson_of;
use crate::json::elements_of;
use crate::json::json_array_field;
use crate::json::json_field;
use crate::text::blank;
use crate::value::JsonView;
use crate::value::member;

verus! {

/// A field of an object is found under its key with the value that stands there, and a key that
/// no field has is not found; what is no object has no fields.
pub proof fn law_fields_are_found(
    fields: Seq<(Seq<char>, JsonView)>,
    key: Seq<char>,
    value: JsonView,
)
    requires
        distinct_keys(fields),
    ensures
        member(JsonView::Object(fields), key) == Some(value) <==> exists|i: int|
            0 <= i < fields.len() && #[trigger] fields[i] == (key, value),
        value !is Object ==> member(value, key) is None,
{
    lemma_position(fields, key);
    lemma_lookup(fields, key);
    if member(JsonView::Object(fields), key) == Some(value) {
        let at = position(fields, key) as int;
        assert(fields[at] == (key, value));
    }
}

/// The field `key` holds this value: as an object, or as a text that writes it.
pub open spec fn stands_in(config: JsonView, key: Seq<char>, value: JsonView) -> bool {
    ||| member(config, key) == Some(value) && value is Object
    ||| member(config, key) matches Some(JsonView::String(text)) && !blank(text) && json_text(text)
        == Ok::<JsonView, Seq<char>>(value) && value !is Array
}

/// The field `key` holds this array: as it stands, or as a text that writes it.
pub open spec fn lists(config: JsonView, key: Seq<char>, items: Seq<JsonView>) -> bool {
    ||| member(config, key) == Some(JsonView::Array(items))
    ||| member(config, key) matches Some(JsonView::String(text)) && !blank(text) && json_text(text)
        == Ok::<JsonView, Seq<char>>(JsonView::Array(items))
}

/// The field `key` stands for nothing: it is missing, null, or a text of white space alone.
pub open spec fn is_not_given(config: JsonView, key: Seq<char>) -> bool {
    ||| member(config, key) is None
    ||| member(config, key) == Some(JsonView::Null)
    ||| member(config, key) matches Some(JsonView::String(text)) && blank(text)
}

/// A field gives a document exactly when a value stands in it that is this document in BSON, and
/// nothing exactly when it is not given. Else it is refused: for what keeps its value from being
/// converted, for being no JSON, or for being no document.
pub proof fn law_a_field_gives_the_document_in_it(
    config: JsonView,
    key: Seq<char>,
    doc: FieldViews,
    chinese: bool,
)
    ensures
        json_field(config, key, chinese) == Ok::<Option<FieldViews>, Seq<char>>(Some(doc))
            <==> exists|value: JsonView| #[trigger]
            stands_in(config, key, value) && bson_of(value, chinese) == Ok::<BsonView, Seq<char>>(
                BsonView::Document(doc),
            ),
        json_field(config, key, chinese) == Ok::<Option<FieldViews>, Seq<char>>(None)
            <==> is_not_given(config, key),
        forall|value: JsonView| #[trigger]
            stands_in(config, key, value) ==> match bson_of(value, chinese) {
                Ok(BsonView::Document(fields)) => json_field(config, key, chinese) == Ok::<
                    Option<FieldViews>,
                    Seq<char>,
                >(Some(fields)),
                Ok(_) => json_field(config, key, chinese) == Err::<Option<FieldViews>, Seq<char>>(
                    naming(
                        said(
                            "字段 {key} 必须是 JSON 文本或对象"@,
                            "field {key} must be a JSON text or object"@,
                            chinese,
                        ),
                        key,
                    ),
                ),
                Err(err) => json_field(config, key, chinese) == Err::<
                    Option<FieldViews>,
                    Seq<char>,
                >(err),
            },
        (forall|value: JsonView| !#[trigger] stands_in(config, key, value)) && !is_not_given(
            config,
            key,
        ) ==> json_field(config, key, chinese) == Err::<Option<FieldViews>, Seq<char>>(
            match member(config, key) {
                Some(JsonView::String(text)) => match json_text(text) {
                    Err(err) => naming_cause(
                        said(
                            "字段 {key} 不是合法 JSON: {err}"@,
                            "field {key} is not valid JSON: {err}"@,
                            chinese,
                        ),
                        key,
                        err,
                    ),
                    Ok(_) => naming(
                        said(
                            "字段 {key} 必须是 JSON 文本或对象"@,
                            "field {key} must be a JSON text or object"@,
                            chinese,
                        ),
                        key,
                    ),
                },
                _ => naming(
                    said(
                        "字段 {key} 必须是 JSON 文本或对象"@,
                        "field {key} must be a JSON text or object"@,
                        chinese,
                    ),
                    key,
                ),
            },
        ),
{
    match member(config, key) {
        Some(JsonView::String(text)) => {
            if !blank(text) {
                match json_text(text) {
                    Ok(value) => {
                        if value !is Array {
                            assert(stands_in(config, key, value));
                        }
                    },
                    Err(_) => {},
                }
            }
        },
        Some(value) => {
            if value is Object {
                assert(stands_in(config, key, value));
            }
        },
        None => {},
    }
}

/// Two configurations that agree on a field get the same from it, whatever their other fields.
pub proof fn law_a_field_depends_on_itself_alone(
    a: JsonView,
    b: JsonView,
    key: Seq<char>,
    chinese: bool,
)
    requires
        member(a, key) == member(b, key),
    ensures
        json_field(a, key, chinese) == json_field(b, key, chinese),
        json_array_field(a, key, chinese) == json_array_field(b, key, chinese),
{
}

/// A list of documents is, one for one and in order, what the elements of an array are in BSON.
pub open spec fn converted(
    items: Seq<JsonView>,
    docs: Seq<FieldViews>,
    chinese: bool,
) -> bool {
    &&& docs.len() == items.len()
    &&& forall|i: int|
        0 <= i < items.len() ==> bson_of(#[trigger] items[i], chinese) == Ok::<
            BsonView,
            Seq<char>,
        >(BsonView::Document(docs[i]))
}

/// What an element of a list is refused for.
pub open spec fn element_refusal(
    item: JsonView,
    err: Seq<char>,
    key: Seq<char>,
    chinese: bool,
) -> bool {
    let not_an_object = naming(
        said(
            "字段 {key} 的数组元素必须是 JSON 对象"@,
            "field {key} array elements must be JSON objects"@,
            chinese,
        ),
        key,
    );
    if item is Object {
        match bson_of(item, chinese) {
            Ok(bson) => bson !is Document && err == not_an_object,
            Err(cause) => err == naming_cause(
                said(
                    "字段 {key} 数组元素无法转换为 BSON: {err}"@,
                    "field {key} array element could not be converted to BSON: {err}"@,
                    chinese,
                ),
                key,
                cause,
            ),
        }
    } else {
        err == not_an_object
    }
}

/// A field gives a list of documents exactly when it holds an array whose elements are these
/// documents, one for one and in order, and nothing exactly when it is not given. An array with
/// another element is refused for the first such.
pub proof fn law_a_field_gives_the_documents_in_it(
    config: JsonView,
    key: Seq<char>,
    docs: Seq<FieldViews>,
    chinese: bool,
)
    ensures
        json_array_field(config, key, chinese) == Ok::<Option<Seq<FieldViews>>, Seq<char>>(
            Some(docs),
        ) <==> exists|items: Seq<JsonView>| #[trigger]
            lists(config, key, items) && converted(items, docs, chinese),
        json_array_field(config, key, chinese) == Ok::<Option<Seq<FieldViews>>, Seq<char>>(None)
            <==> is_not_given(config, key),
        forall|items: Seq<JsonView>|
            #![trigger lists(config, key, items)]
            lists(config, key, items) ==> match json_array_field(config, key, chinese) {
                Ok(Some(given)) => converted(items, given, chinese),
                Ok(None) => false,
                Err(err) => exists|i: int|
                    0 <= i < items.len() && element_refusal(
                        #[trigger] items[i],
                        err,
                        key,
                        chinese,
                    ) && forall|j: int|
                        0 <= j < i ==> (bson_of(#[trigger] items[j], chinese) matches Ok(
                            BsonView::Document(_),
                        )),
            },
        (forall|items: Seq<JsonView>| !#[trigger] lists(config, key, items)) && !is_not_given(
            config,
            key,
        ) ==> json_array_field(config, key, chinese) == Err::<Option<Seq<FieldViews>>, Seq<char>>(
            match member(config, key) {
                Some(JsonView::String(text)) => match json_text(text) {
                    Err(err) => naming_cause(
                        said(
                            "字段 {key} 不是合法 JSON: {err}"@,
                            "field {key} is not valid JSON: {err}"@,
                            chinese,
                        ),
                        key,
                        err,
                    ),
                    Ok(_) => naming(
                        said(
                            "字段 {key} 必须是 JSON 数组"@,
                            "field {key} must be a JSON array"@,
                            chinese,
                        ),
                        key,
                    ),
                },
                _ => naming(
                    said(
                        "字段 {key} 必须是 JSON 数组或文本"@,
                        "field {key} must be a JSON array or text"@,
                        chinese,
                    ),
                    key,
                ),
            },
        ),
{
    assert forall|items: Seq<JsonView>| #[trigger] lists(config, key, items) implies {
        &&& json_array_field(config, key, chinese) is Ok ==> json_array_field(
            config,
            key,
            chinese,
        )->Ok_0 == Some(collected(elements_of(items, key, chinese))->Ok_0)
        &&& json_array_field(config, key, chinese) is Ok <==> collected(
            elements_of(items, key, chinese),
        ) is Ok
        &&& json_array_field(config, key, chinese) is Err ==> json_array_field(
            config,
            key,
            chinese,
        )->Err_0 == collected(elements_of(items, key, chinese))->Err_0
    } by {}
    assert forall|items: Seq<JsonView>| #[trigger] lists(config, key, items) implies match json_array_field(
        config,
        key,
        chinese,
    ) {
        Ok(Some(given)) => converted(items, given, chinese),
        Ok(None) => false,
        Err(err) => exists|i: int|
            0 <= i < items.len() && element_refusal(#[trigger] items[i], err, key, chinese)
                && forall|j: int|
                0 <= j < i ==> (bson_of(#[trigger] items[j], chinese) matches Ok(
                    BsonView::Document(_),
                )),
    } by {
        lemma_elements(items, key, chinese);
    }
    match member(config, key) {
        Some(JsonView::String(text)) => {
            if !blank(text) {
                match json_text(text) {
                    Ok(JsonView::Array(items)) => {
                        assert(lists(config, key, items));
                        lemma_taken(items, docs, key, chinese);
                    },
                    _ => {},
                }
            }
        },
        Some(JsonView::Array(items)) => {
            assert(lists(config, key, items));
            lemma_taken(items, docs, key, chinese);
        },
        _ => {},
    }
}

/// What the elements of an array come to.
proof fn lemma_elements(items: Seq<JsonView>, key: Seq<char>, chinese: bool)
    ensures
        match collected(elements_of(items, key, chinese)) {
            Ok(given) => converted(items, given, chinese),
            Err(err) => exists|i: int|
                0 <= i < items.len() && element_refusal(#[trigger] items[i], err, key, chinese)
                    && forall|j: int|
                    0 <= j < i ==> (bson_of(#[trigger] items[j], chinese) matches Ok(
                        BsonView::Document(_),
                    )),
        },
{
    let results = elements_of(items, key, chinese);
    lemma_collected_each(results);
    lemma_collected_first_error(results);
    match collected(results) {
        Ok(given) => {
            assert forall|i: int| 0 <= i < items.len() implies bson_of(
                #[trigger] items[i],
                chinese,
            ) == Ok::<BsonView, Seq<char>>(BsonView::Document(given[i])) by {
                assert(results[i] == Ok::<FieldViews, Seq<char>>(given[i]));
            }
        },
        Err(err) => {
            let i = choose|i: int|
                0 <= i < results.len() && #[trigger] results[i] == Err::<FieldViews, Seq<char>>(err)
                    && forall|j: int| 0 <= j < i ==> (#[trigger] results[j]) is Ok;
            assert(element_refusal(items[i], err, key, chinese));
            assert forall|j: int| 0 <= j < i implies (bson_of(
                #[trigger] items[j],
                chinese,
            ) matches Ok(BsonView::Document(_))) by {
                assert(results[j] is Ok);
            }
        },
    }
}

/// Elements that are documents are taken as those documents.
proof fn lemma_taken(
    items: Seq<JsonView>,
    docs: Seq<FieldViews>,
    key: Seq<char>,
    chinese: bool,
)
    ensures
        converted(items, docs, chinese) ==> collected(elements_of(items, key, chinese)) == Ok::<
            Seq<FieldViews>,
            Seq<char>,
        >(docs),
{
    if converted(items, docs, chinese) {
        let results = elements_of(items, key, chinese);
        assert forall|i: int| 0 <= i < results.len() implies #[trigger] results[i] == Ok::<
            FieldViews,
            Seq<char>,
        >(docs[i]) by {
            assert(bson_of(items[i], chinese) == Ok::<BsonView, Seq<char>>(
                BsonView::Document(docs[i]),
            ));
        }
        lemma_collected_all(results, docs);
    }
}

} // verus!

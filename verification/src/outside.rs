//! Values of the JSON crate and of the driver: what they hold, and the passage to and from the
//! library's own.
use vstd::prelude::*;

use mongodb::bson::Binary;
use mongodb::bson::Bson as DriverBson;
use mongodb::bson::DateTime;
use mongodb::bson::JavaScriptCodeWithScope;
use mongodb::bson::oid::ObjectId;
use mongodb::bson::spec::BinarySubtype;
use serde_json::Value as OutsideJson;

use crate::bson::BsonValue;
use crate::bson::BsonView;
use crate::bson::Carried;
use crate::bson::Document;
use crate::bson::bson_tree;
use crate::bson::document_tree;
use crate::double::finite;
use crate::double::lemma_told;
use crate::double::told;
use crate::fields::Fields;
use crate::fields::distinct_keys;
use crate::fields::lemma_position_is;
use crate::value::Json;
use crate::value::JsonView;
use crate::value::Number;
use crate::value::NumberKind;
use crate::value::of_signed;
use crate::value::signed;
use crate::value::unsigned;
use crate::value::valid_number;

verus! {

/// A value of the JSON crate, opaque.
#[verifier::external_type_specification]
#[verifier::external_body]
pub struct ExOutsideJson(serde_json::Value);

/// What a value of the JSON crate holds.
pub uninterp spec fn json_tree(value: OutsideJson) -> JsonView;

/// One layer of a value of the JSON crate. A number stays as it is.
pub enum JsonLayer {
    Null,
    Bool(bool),
    Number(OutsideJson),
    String(String),
    Array(Vec<OutsideJson>),
    Object(Vec<(String, OutsideJson)>),
}

/// A value of the JSON crate that is a number, and what every JSON number keeps to.
pub open spec fn is_number(value: OutsideJson) -> bool {
    json_tree(value) matches JsonView::Number(kind) && valid_number(kind)
}

/// The pairs of a layer by the views of their keys.
pub open spec fn by_key<V>(pairs: Seq<(String, V)>) -> Seq<(Seq<char>, V)> {
    Seq::new(pairs.len(), |i: int| (pairs[i].0@, pairs[i].1))
}

/// What the value with this layer holds.
pub open spec fn json_of_layer(layer: JsonLayer) -> JsonView {
    match layer {
        JsonLayer::Null => JsonView::Null,
        JsonLayer::Bool(b) => JsonView::Bool(b),
        JsonLayer::Number(number) => json_tree(number),
        JsonLayer::String(s) => JsonView::String(s@),
        JsonLayer::Array(items) => JsonView::Array(
            Seq::new(items@.len(), |i: int| json_tree(items@[i])),
        ),
        JsonLayer::Object(pairs) => JsonView::Object(
            Seq::new(pairs@.len(), |i: int| (pairs@[i].0@, json_tree(pairs@[i].1))),
        ),
    }
}

/// Whether a value of the JSON crate has this layer: its numbers are JSON numbers, and its keys
/// are distinct.
pub open spec fn is_json_layer(layer: JsonLayer) -> bool {
    match layer {
        JsonLayer::Number(number) => is_number(number),
        JsonLayer::Object(pairs) => distinct_keys(by_key(pairs@)),
        _ => true,
    }
}

/// Takes a `serde_json::Value` apart by its variants. The layer holds what the value held; a whole
/// number that is told from the unsigned ones is below zero, a double is finite, and the keys of
/// an object are distinct.
#[verifier::external_body]
pub(crate) fn open_json(value: OutsideJson) -> (layer: JsonLayer)
    ensures
        json_of_layer(layer) == json_tree(value),
        is_json_layer(layer),
{
    match value {
        OutsideJson::Null => JsonLayer::Null,
        OutsideJson::Bool(b) => JsonLayer::Bool(b),
        OutsideJson::Number(n) => JsonLayer::Number(OutsideJson::Number(n)),
        OutsideJson::String(s) => JsonLayer::String(s),
        OutsideJson::Array(items) => JsonLayer::Array(items),
        OutsideJson::Object(map) => JsonLayer::Object(map.into_iter().collect()),
    }
}

/// Puts a layer together into a `serde_json::Value` by its variants, an object by collecting its
/// pairs. The value holds what the layer holds.
#[verifier::external_body]
pub(crate) fn seal_json(layer: JsonLayer) -> (value: OutsideJson)
    requires
        is_json_layer(layer),
    ensures
        json_tree(value) == json_of_layer(layer),
{
    match layer {
        JsonLayer::Null => OutsideJson::Null,
        JsonLayer::Bool(b) => OutsideJson::Bool(b),
        JsonLayer::Number(number) => number,
        JsonLayer::String(s) => OutsideJson::String(s),
        JsonLayer::Array(items) => OutsideJson::Array(items),
        JsonLayer::Object(pairs) => OutsideJson::Object(pairs.into_iter().collect()),
    }
}

/// `serde_json::Value::as_u64` reads a number that is whole and not below zero, and no other.
#[verifier::external_body]
fn read_unsigned(number: &OutsideJson) -> (r: Option<u64>)
    requires
        is_number(*number),
    ensures
        r == unsigned(json_tree(*number)->Number_0),
{
    number.as_u64()
}

/// `serde_json::Value::as_i64` reads a number that is whole and fits, and no other.
#[verifier::external_body]
fn read_signed(number: &OutsideJson) -> (r: Option<i64>)
    requires
        is_number(*number),
    ensures
        r == signed(json_tree(*number)->Number_0),
{
    number.as_i64()
}

/// `serde_json::Value::as_f64` reads a number as a double, which is handed out as a value of the
/// driver: a number that is a double is read as that double. What a whole number is read as, is
/// not said.
#[verifier::external_body]
fn read_fraction(number: &OutsideJson) -> (r: Option<DriverBson>)
    requires
        is_number(*number),
    ensures
        json_tree(*number)->Number_0 is Float ==> r is Some && bson_tree(r->0) == BsonView::Double(
            json_tree(*number)->Number_0->Float_0,
        ),
{
    number.as_f64().map(DriverBson::Double)
}

/// The `From` of `serde_json::Value` for an unsigned integer gives that number.
#[verifier::external_body]
fn unsigned_json(n: u64) -> (r: OutsideJson)
    ensures
        json_tree(r) == JsonView::Number(NumberKind::PosInt(n)),
{
    OutsideJson::from(n)
}

/// The `From` of `serde_json::Value` for a signed integer gives that number.
#[verifier::external_body]
fn signed_json(n: i64) -> (r: OutsideJson)
    ensures
        json_tree(r) == JsonView::Number(of_signed(n)),
{
    OutsideJson::from(n)
}

/// The `From` of `serde_json::Value` for the double in a value of the driver, which the driver's
/// `as_f64` reads, gives that number where the double is finite.
#[verifier::external_body]
fn fraction_json(value: &DriverBson) -> (r: OutsideJson)
    requires
        bson_tree(*value) matches BsonView::Double(bits) && finite(bits),
    ensures
        json_tree(r) == JsonView::Number(NumberKind::Float(bson_tree(*value)->Double_0)),
{
    OutsideJson::from(value.as_f64())
}

/// One layer of a value of the driver. What is none of these stays as it is.
pub enum BsonLayer {
    String(String),
    Array(Vec<DriverBson>),
    Document(Vec<(String, DriverBson)>),
    Boolean(bool),
    Null,
    Int32(i32),
    Int64(i64),
    ObjectId([u8; 12]),
    DateTime(i64),
    Rest(DriverBson),
}

/// What some pairs of the driver hold.
pub open spec fn pair_trees(pairs: Seq<(String, DriverBson)>) -> Seq<(Seq<char>, BsonView)> {
    Seq::new(pairs.len(), |i: int| (pairs[i].0@, bson_tree(pairs[i].1)))
}

/// What the value with this layer holds.
pub open spec fn bson_of_layer(layer: BsonLayer) -> BsonView {
    match layer {
        BsonLayer::String(s) => BsonView::String(s@),
        BsonLayer::Array(items) => BsonView::Array(
            Seq::new(items@.len(), |i: int| bson_tree(items@[i])),
        ),
        BsonLayer::Document(pairs) => BsonView::Document(pair_trees(pairs@)),
        BsonLayer::Boolean(b) => BsonView::Boolean(b),
        BsonLayer::Null => BsonView::Null,
        BsonLayer::Int32(n) => BsonView::Int32(n),
        BsonLayer::Int64(n) => BsonView::Int64(n),
        BsonLayer::ObjectId(bytes) => BsonView::ObjectId(bytes@),
        BsonLayer::DateTime(millis) => BsonView::DateTime(millis),
        BsonLayer::Rest(value) => bson_tree(value),
    }
}

/// Takes a `mongodb::bson::Bson` apart by its variants, an object id by its method `bytes` and a
/// date by its method `timestamp_millis`. The layer holds what the value held; the keys of a
/// document are distinct; what is left as it is, is none of the types that are taken apart.
#[verifier::external_body]
pub(crate) fn open_bson(value: DriverBson) -> (layer: BsonLayer)
    ensures
        bson_of_layer(layer) == bson_tree(value),
        layer matches BsonLayer::Document(pairs) ==> distinct_keys(by_key(pairs@)),
        layer matches BsonLayer::Rest(rest) ==> (bson_tree(rest) is Double || bson_tree(
            rest,
        ) is Bytes || bson_tree(rest) is CodeWithScope || bson_tree(rest) == BsonView::Other(rest)),
{
    match value {
        DriverBson::String(s) => BsonLayer::String(s),
        DriverBson::Array(items) => BsonLayer::Array(items),
        DriverBson::Document(doc) => BsonLayer::Document(doc.into_iter().collect()),
        DriverBson::Boolean(b) => BsonLayer::Boolean(b),
        DriverBson::Null => BsonLayer::Null,
        DriverBson::Int32(n) => BsonLayer::Int32(n),
        DriverBson::Int64(n) => BsonLayer::Int64(n),
        DriverBson::ObjectId(id) => BsonLayer::ObjectId(id.bytes()),
        DriverBson::DateTime(date) => BsonLayer::DateTime(date.timestamp_millis()),
        rest => BsonLayer::Rest(rest),
    }
}

/// What is left of a value of the driver: bytes, code with the pairs of its scope, or the value.
pub enum RestLayer {
    Bytes(Vec<u8>),
    CodeWithScope(String, Vec<(String, DriverBson)>),
    Rest(DriverBson),
}

/// Takes a `mongodb::bson::Bson` apart where it is binary data of the generic subtype, by its field
/// `bytes`, or code with a scope, by its two fields; any other value stays as it is. The keys of a
/// scope are distinct.
#[verifier::external_body]
pub(crate) fn open_rest(value: DriverBson) -> (layer: RestLayer)
    ensures
        match layer {
            RestLayer::Bytes(bytes) => bson_tree(value) == BsonView::Bytes(bytes@),
            RestLayer::CodeWithScope(code, scope) => bson_tree(value) == BsonView::CodeWithScope(
                code@,
                pair_trees(scope@),
            ) && distinct_keys(by_key(scope@)),
            RestLayer::Rest(rest) => rest == value && bson_tree(rest) !is Bytes && bson_tree(
                rest,
            ) !is CodeWithScope,
        },
{
    match value {
        DriverBson::Binary(Binary { subtype: BinarySubtype::Generic, bytes }) => RestLayer::Bytes(
            bytes,
        ),
        DriverBson::JavaScriptCodeWithScope(code) => RestLayer::CodeWithScope(
            code.code,
            code.scope.into_iter().collect(),
        ),
        rest => RestLayer::Rest(rest),
    }
}

/// Puts bytes into a `mongodb::bson::Binary` of the generic subtype.
#[verifier::external_body]
fn seal_bytes(bytes: Vec<u8>) -> (value: DriverBson)
    ensures
        bson_tree(value) == BsonView::Bytes(bytes@),
{
    DriverBson::Binary(Binary { subtype: BinarySubtype::Generic, bytes })
}

/// Puts code and the pairs of its scope into a `mongodb::bson::JavaScriptCodeWithScope`, the scope
/// by collecting them.
#[verifier::external_body]
fn seal_code(code: String, scope: Vec<(String, DriverBson)>) -> (value: DriverBson)
    requires
        distinct_keys(by_key(scope@)),
    ensures
        bson_tree(value) == BsonView::CodeWithScope(code@, pair_trees(scope@)),
{
    DriverBson::JavaScriptCodeWithScope(
        JavaScriptCodeWithScope { code, scope: scope.into_iter().collect() },
    )
}

/// Reads a double of the driver with `mongodb::bson::Bson::as_f64` and takes its bits. There are
/// bits exactly where the value is a double, and they are its bits, but for which of the forms of
/// what is not a number.
#[verifier::external_body]
pub(crate) fn double_bits(value: &DriverBson) -> (r: Option<u64>)
    ensures
        r is Some <==> bson_tree(*value) is Double,
        r matches Some(bits) ==> bson_tree(*value) == BsonView::Double(told(bits)),
{
    value.as_f64().map(|double| double.to_bits())
}

/// Puts a layer together into a `mongodb::bson::Bson`: by its variants, an object id with
/// `ObjectId::from_bytes`, a date with `DateTime::from_millis`, a document by collecting its
/// pairs. The value holds what the layer holds.
#[verifier::external_body]
pub(crate) fn seal_bson(layer: BsonLayer) -> (value: DriverBson)
    requires
        layer matches BsonLayer::Document(pairs) ==> distinct_keys(by_key(pairs@)),
    ensures
        bson_tree(value) == bson_of_layer(layer),
{
    match layer {
        BsonLayer::String(s) => DriverBson::String(s),
        BsonLayer::Array(items) => DriverBson::Array(items),
        BsonLayer::Document(pairs) => DriverBson::Document(pairs.into_iter().collect()),
        BsonLayer::Boolean(b) => DriverBson::Boolean(b),
        BsonLayer::Null => DriverBson::Null,
        BsonLayer::Int32(n) => DriverBson::Int32(n),
        BsonLayer::Int64(n) => DriverBson::Int64(n),
        BsonLayer::ObjectId(bytes) => DriverBson::ObjectId(ObjectId::from_bytes(bytes)),
        BsonLayer::DateTime(millis) => DriverBson::DateTime(DateTime::from_millis(millis)),
        BsonLayer::Rest(value) => value,
    }
}

/// Has `mongodb::bson::from_slice` read the wire form of the document whose one field `v` is the
/// double with these bits, and hands the field out: a double with these bits, but for which of
/// the forms of what is not a number.
#[verifier::external_body]
pub(crate) fn double_from_bits(bits: u64) -> (value: DriverBson)
    ensures
        bson_tree(value) == BsonView::Double(told(bits)),
{
    let mut wire: Vec<u8> = vec![16, 0, 0, 0, 1, 118, 0];
    wire.extend(bits.to_le_bytes());
    wire.push(0);
    let read: Option<mongodb::bson::Document> = mongodb::bson::from_slice(&wire).ok();
    read.and_then(|mut doc| doc.remove("v")).unwrap_or(DriverBson::Null)
}

/// `mongodb::bson::Bson::clone` gives the same value.
pub assume_specification[ <mongodb::bson::Bson as Clone>::clone ](
    value: &mongodb::bson::Bson,
) -> (r: mongodb::bson::Bson)
    ensures
        r == *value,
;

/// The library's form of a value of the driver.
pub fn bson_from_driver(value: DriverBson) -> (r: BsonValue)
    ensures
        r@ == bson_tree(value),
    decreases bson_tree(value),
{
    match open_bson(value) {
        BsonLayer::String(s) => BsonValue::String(s),
        BsonLayer::Array(items) => {
            let mut out: Vec<BsonValue> = Vec::new();
            for item in it: items
                invariant
                    bson_tree(value) == bson_of_layer(BsonLayer::Array(items)),
                    it.seq() == items@,
                    out@.len() == it.index(),
                    forall|j: int|
                        0 <= j < out@.len() ==> (#[trigger] out@[j])@ == bson_tree(items@[j]),
            {
                assert(bson_tree(value)->Array_0[it.index() as int] == bson_tree(item));
                out.push(bson_from_driver(item));
            }
            let r = BsonValue::Array(out);
            assert(r@->Array_0 =~= bson_tree(value)->Array_0);
            r
        },
        BsonLayer::Document(pairs) => {
            assert(bson_tree(value)->Document_0 == pair_trees(pairs@));
            let r = BsonValue::Document(document_from_pairs(pairs));
            assert(r@->Document_0 =~= bson_tree(value)->Document_0);
            r
        },
        BsonLayer::Boolean(b) => BsonValue::Boolean(b),
        BsonLayer::Null => BsonValue::Null,
        BsonLayer::Int32(n) => BsonValue::Int32(n),
        BsonLayer::Int64(n) => BsonValue::Int64(n),
        BsonLayer::ObjectId(bytes) => BsonValue::ObjectId(bytes),
        BsonLayer::DateTime(millis) => BsonValue::DateTime(millis),
        BsonLayer::Rest(rest) => match open_rest(rest) {
            RestLayer::Bytes(bytes) => BsonValue::Bytes(bytes),
            RestLayer::CodeWithScope(code, scope) => {
                assert(bson_tree(value)->CodeWithScope_1 == pair_trees(scope@));
                let r = BsonValue::CodeWithScope(code, document_from_pairs(scope));
                assert(r@->CodeWithScope_1 =~= bson_tree(value)->CodeWithScope_1);
                r
            },
            RestLayer::Rest(rest) => match double_bits(&rest) {
                Some(bits) => BsonValue::Double(bits),
                None => BsonValue::Other(Carried::new(rest)),
            },
        },
    }
}

/// The library's form of a document of the driver, given its pairs.
fn document_from_pairs(pairs: Vec<(String, DriverBson)>) -> (doc: Document)
    requires
        distinct_keys(by_key(pairs@)),
    ensures
        document_tree(doc) == pair_trees(pairs@),
    decreases pair_trees(pairs@),
{
    let ghost trees = pair_trees(pairs@);
    let mut out: Document = Fields::new();
    for pair in it: pairs
        invariant
            trees == pair_trees(pairs@),
            distinct_keys(by_key(pairs@)),
            it.seq() == pairs@,
            out@.len() == it.index(),
            forall|j: int|
                0 <= j < out@.len() ==> (#[trigger] out@[j]).0 == pairs@[j].0@ && out@[j].1@
                    == bson_tree(pairs@[j].1),
    {
        let ghost at = it.index() as int;
        assert(trees[at].1 == bson_tree(pair.1));
        proof {
            assert(decreases_to!(trees => trees[at]));
            assert(decreases_to!(trees[at] => trees[at].1));
        }
        let (key, inner) = pair;
        proof {
            assert forall|j: int| 0 <= j < out@.len() implies (#[trigger] out@[j]).0 != key@ by {
                assert(by_key(pairs@)[j].0 != by_key(pairs@)[at].0);
            }
            lemma_position_is(out@, key@, out@.len() as int);
        }
        out.insert(key, bson_from_driver(inner));
    }
    assert(document_tree(out) =~= trees);
    out
}

/// The driver's form of a BSON value.
pub fn bson_to_driver(value: &BsonValue) -> (r: DriverBson)
    ensures
        bson_tree(r) == value@,
    decreases value@,
{
    match value {
        BsonValue::Double(bits) => double_from_bits(*bits),
        BsonValue::String(s) => seal_bson(BsonLayer::String(s.clone())),
        BsonValue::Array(items) => {
            let mut out: Vec<DriverBson> = Vec::new();
            let mut i: usize = 0;
            while i < items.len()
                invariant
                    value == BsonValue::Array(*items),
                    i <= items@.len(),
                    out@.len() == i,
                    forall|j: int| 0 <= j < i ==> bson_tree(#[trigger] out@[j]) == items@[j]@,
                decreases items.len() - i,
            {
                assert(value@->Array_0[i as int] == items@[i as int]@);
                out.push(bson_to_driver(&items[i]));
                i = i + 1;
            }
            assert(bson_of_layer(BsonLayer::Array(out))->Array_0 =~= value@->Array_0);
            seal_bson(BsonLayer::Array(out))
        },
        BsonValue::Document(doc) => {
            assert(value@->Document_0 =~= document_tree(*doc));
            seal_bson(BsonLayer::Document(document_to_pairs(doc)))
        },
        BsonValue::Boolean(b) => seal_bson(BsonLayer::Boolean(*b)),
        BsonValue::Null => seal_bson(BsonLayer::Null),
        BsonValue::Int32(n) => seal_bson(BsonLayer::Int32(*n)),
        BsonValue::Int64(n) => seal_bson(BsonLayer::Int64(*n)),
        BsonValue::ObjectId(bytes) => seal_bson(BsonLayer::ObjectId(*bytes)),
        BsonValue::DateTime(millis) => seal_bson(BsonLayer::DateTime(*millis)),
        BsonValue::Bytes(bytes) => {
            let mut copy: Vec<u8> = Vec::new();
            let mut i: usize = 0;
            while i < bytes.len()
                invariant
                    i <= bytes@.len(),
                    copy@ == bytes@.take(i as int),
                decreases bytes.len() - i,
            {
                copy.push(bytes[i]);
                assert(copy@ =~= bytes@.take(i + 1));
                i = i + 1;
            }
            assert(bytes@.take(i as int) =~= bytes@);
            seal_bytes(copy)
        },
        BsonValue::CodeWithScope(code, scope) => {
            assert(value@->CodeWithScope_1 =~= document_tree(*scope));
            seal_code(code.clone(), document_to_pairs(scope))
        },
        BsonValue::Other(carried) => carried.value().clone(),
    }
}

/// The pairs of the driver's form of a document.
fn document_to_pairs(doc: &Document) -> (pairs: Vec<(String, DriverBson)>)
    ensures
        pair_trees(pairs@) == document_tree(*doc),
        distinct_keys(by_key(pairs@)),
    decreases document_tree(*doc),
{
    let ghost trees = document_tree(*doc);
    let mut out: Vec<(String, DriverBson)> = Vec::new();
    let count: usize = doc.len();
    let mut i: usize = 0;
    while i < count
        invariant
            i <= count,
            count == doc@.len(),
            trees == document_tree(*doc),
            out@.len() == i,
            forall|j: int|
                0 <= j < i ==> (#[trigger] out@[j]).0@ == doc@[j].0 && bson_tree(out@[j].1)
                    == doc@[j].1@,
        decreases count - i,
    {
        proof {
            assert(decreases_to!(trees => trees[i as int]));
            assert(decreases_to!(trees[i as int] => trees[i as int].1));
        }
        out.push((doc.key_at(i).clone(), bson_to_driver(doc.value_at(i))));
        i = i + 1;
    }
    proof {
        assert forall|a: int, b: int| 0 <= a < b < out@.len() implies (#[trigger] by_key(
            out@,
        )[a]).0 != (#[trigger] by_key(out@)[b]).0 by {
            assert(doc@[a].0 != doc@[b].0);
        }
        assert(pair_trees(out@) =~= trees);
    }
    out
}

/// The driver's form of a document.
pub fn document_to_driver(doc: &Document) -> (r: DriverBson)
    ensures
        bson_tree(r) == BsonView::Document(document_tree(*doc)),
{
    seal_bson(BsonLayer::Document(document_to_pairs(doc)))
}

/// The library's form of a number of the JSON crate.
fn number_from_outside(number: &OutsideJson) -> (r: Number)
    requires
        is_number(*number),
    ensures
        json_tree(*number) == JsonView::Number(r@),
{
    match read_unsigned(number) {
        Some(n) => {
            return Number::from_unsigned(n);
        },
        None => {},
    }
    match read_signed(number) {
        Some(n) => {
            return Number::from_signed(n);
        },
        None => {},
    }
    let bits: u64 = match read_fraction(number) {
        Some(fraction) => match double_bits(&fraction) {
            Some(bits) => bits,
            None => 0,
        },
        None => 0,
    };
    proof {
        lemma_told(bits);
    }
    match Number::new(NumberKind::Float(bits)) {
        Some(number) => number,
        None => Number::from_unsigned(0),
    }
}

/// The library's form of a value of the JSON crate.
pub fn json_from_outside(value: OutsideJson) -> (r: Json)
    ensures
        r@ == json_tree(value),
    decreases json_tree(value),
{
    match open_json(value) {
        JsonLayer::Null => Json::Null,
        JsonLayer::Bool(b) => Json::Bool(b),
        JsonLayer::Number(number) => Json::Number(number_from_outside(&number)),
        JsonLayer::String(s) => Json::String(s),
        JsonLayer::Array(items) => {
            let mut out: Vec<Json> = Vec::new();
            for item in it: items
                invariant
                    json_tree(value) == json_of_layer(JsonLayer::Array(items)),
                    it.seq() == items@,
                    out@.len() == it.index(),
                    forall|j: int|
                        0 <= j < out@.len() ==> (#[trigger] out@[j])@ == json_tree(items@[j]),
            {
                assert(json_tree(value)->Array_0[it.index() as int] == json_tree(item));
                out.push(json_from_outside(item));
            }
            let r = Json::Array(out);
            assert(r@->Array_0 =~= json_tree(value)->Array_0);
            r
        },
        JsonLayer::Object(pairs) => {
            let mut out: Fields<Json> = Fields::new();
            for pair in it: pairs
                invariant
                    json_tree(value) == json_of_layer(JsonLayer::Object(pairs)),
                    distinct_keys(by_key(pairs@)),
                    it.seq() == pairs@,
                    out@.len() == it.index(),
                    forall|j: int|
                        0 <= j < out@.len() ==> (#[trigger] out@[j]).0 == pairs@[j].0@
                            && out@[j].1@ == json_tree(pairs@[j].1),
            {
                assert(json_tree(value)->Object_0[it.index() as int].1 == json_tree(pair.1));
                let (key, inner) = pair;
                proof {
                    assert forall|j: int| 0 <= j < out@.len() implies (#[trigger] out@[j]).0
                        != key@ by {
                        assert(by_key(pairs@)[j].0 != by_key(pairs@)[it.index() as int].0);
                    }
                    lemma_position_is(out@, key@, out@.len() as int);
                }
                out.insert(key, json_from_outside(inner));
            }
            let r = Json::Object(out);
            assert(r@->Object_0 =~= json_tree(value)->Object_0);
            r
        },
    }
}

/// The JSON crate's form of a number.
pub fn number_to_outside(number: &Number) -> (r: OutsideJson)
    ensures
        json_tree(r) == JsonView::Number(number@),
{
    match number.kind() {
        NumberKind::PosInt(n) => unsigned_json(n),
        NumberKind::NegInt(n) => signed_json(n),
        NumberKind::Float(bits) => fraction_json(&double_from_bits(bits)),
    }
}

/// The JSON crate's form of a JSON value.
pub fn json_to_outside(value: &Json) -> (r: OutsideJson)
    ensures
        json_tree(r) == value@,
    decreases value@,
{
    match value {
        Json::Null => seal_json(JsonLayer::Null),
        Json::Bool(b) => seal_json(JsonLayer::Bool(*b)),
        Json::Number(number) => number_to_outside(number),
        Json::String(s) => seal_json(JsonLayer::String(s.clone())),
        Json::Array(items) => {
            let mut out: Vec<OutsideJson> = Vec::new();
            let mut i: usize = 0;
            while i < items.len()
                invariant
                    value == Json::Array(*items),
                    i <= items@.len(),
                    out@.len() == i,
                    forall|j: int| 0 <= j < i ==> json_tree(#[trigger] out@[j]) == items@[j]@,
                decreases items.len() - i,
            {
                assert(value@->Array_0[i as int] == items@[i as int]@);
                out.push(json_to_outside(&items[i]));
                i = i + 1;
            }
            assert(json_of_layer(JsonLayer::Array(out))->Array_0 =~= value@->Array_0);
            seal_json(JsonLayer::Array(out))
        },
        Json::Object(fields) => {
            let mut out: Vec<(String, OutsideJson)> = Vec::new();
            let count: usize = fields.len();
            let mut i: usize = 0;
            while i < count
                invariant
                    value == Json::Object(*fields),
                    i <= count,
                    count == fields@.len(),
                    out@.len() == i,
                    forall|j: int|
                        0 <= j < i ==> (#[trigger] out@[j]).0@ == fields@[j].0 && json_tree(
                            out@[j].1,
                        ) == fields@[j].1@,
                decreases count - i,
            {
                assert(value@->Object_0[i as int].1 == fields@[i as int].1@);
                out.push((fields.key_at(i).clone(), json_to_outside(fields.value_at(i))));
                i = i + 1;
            }
            proof {
                assert forall|a: int, b: int| 0 <= a < b < out@.len() implies (#[trigger] by_key(
                    out@,
                )[a]).0 != (#[trigger] by_key(out@)[b]).0 by {
                    assert(fields@[a].0 != fields@[b].0);
                }
                assert(json_of_layer(JsonLayer::Object(out))->Object_0 =~= value@->Object_0);
            }
            seal_json(JsonLayer::Object(out))
        },
    }
}

} // verus!

//! BSON values.
use vstd::prelude::*;

use mongodb::bson::Bson as DriverBson;

use crate::double::told;
use crate::fields::Fields;
use crate::fields::lemma_value_is_part;

verus! {

/// A value of the driver, opaque.
#[verifier::external_type_specification]
#[verifier::external_body]
pub struct ExDriverBson(mongodb::bson::Bson);

/// What a value of the driver holds. Of a double that is not a number it does not say which bits
/// it has.
pub uninterp spec fn bson_tree(value: DriverBson) -> BsonView;

/// What a BSON value holds.
pub enum BsonView {
    Double(u64),
    String(Seq<char>),
    Array(Seq<BsonView>),
    Document(Seq<(Seq<char>, BsonView)>),
    Boolean(bool),
    Null,
    Int32(i32),
    Int64(i64),
    ObjectId(Seq<u8>),
    DateTime(i64),
    Bytes(Seq<u8>),
    CodeWithScope(Seq<char>, Seq<(Seq<char>, BsonView)>),
    Other(DriverBson),
}

/// A value of the driver whose type is none that the library looks into.
#[derive(Debug, PartialEq)]
pub struct Carried {
    value: DriverBson,
}

impl View for Carried {
    type V = DriverBson;

    closed spec fn view(&self) -> DriverBson {
        self.value
    }
}

impl Carried {
    #[verifier::type_invariant]
    spec fn is_carried(self) -> bool {
        bson_tree(self@) == BsonView::Other(self@)
    }

    /// Carries a value that is not to be looked into.
    pub(crate) fn new(value: DriverBson) -> (carried: Carried)
        requires
            bson_tree(value) == BsonView::Other(value),
        ensures
            carried@ == value,
    {
        Carried { value }
    }

    /// The carried value.
    pub fn value(&self) -> (value: &DriverBson)
        ensures
            *value == self@,
            bson_tree(*value) == BsonView::Other(*value),
    {
        proof {
            use_type_invariant(self);
        }
        &self.value
    }
}

/// A BSON value. A double is given by its bits, an object id by its twelve bytes, a date by its
/// milliseconds since the epoch; `Bytes` are binary data of the generic subtype; code has the
/// document of its scope beside it. A value of any other type is carried as the driver made it.
#[derive(Debug, PartialEq)]
pub enum BsonValue {
    Double(u64),
    String(String),
    Array(Vec<BsonValue>),
    Document(Document),
    Boolean(bool),
    Null,
    Int32(i32),
    Int64(i64),
    ObjectId([u8; 12]),
    DateTime(i64),
    Bytes(Vec<u8>),
    CodeWithScope(String, Document),
    Other(Carried),
}

/// A BSON document.
pub type Document = Fields<BsonValue>;

impl BsonValue {
    /// What the value holds.
    pub open spec fn tree(self) -> BsonView
        decreases self,
    {
        match self {
            BsonValue::Double(bits) => BsonView::Double(told(bits)),
            BsonValue::String(s) => BsonView::String(s@),
            BsonValue::Array(items) => BsonView::Array(
                Seq::new(
                    items@.len(),
                    |i: int|
                        if 0 <= i < items@.len() {
                            items@[i].tree()
                        } else {
                            BsonView::Null
                        },
                ),
            ),
            BsonValue::Document(doc) => {
                proof {
                    lemma_value_is_part(doc);
                }
                BsonView::Document(
                    Seq::new(
                        doc@.len(),
                        |i: int|
                            if 0 <= i < doc@.len() {
                                (doc@[i].0, doc@[i].1.tree())
                            } else {
                                (doc@[i].0, BsonView::Null)
                            },
                    ),
                )
            },
            BsonValue::Boolean(b) => BsonView::Boolean(b),
            BsonValue::Null => BsonView::Null,
            BsonValue::Int32(n) => BsonView::Int32(n),
            BsonValue::Int64(n) => BsonView::Int64(n),
            BsonValue::ObjectId(bytes) => BsonView::ObjectId(bytes@),
            BsonValue::DateTime(millis) => BsonView::DateTime(millis),
            BsonValue::Bytes(bytes) => BsonView::Bytes(bytes@),
            BsonValue::CodeWithScope(code, scope) => {
                proof {
                    lemma_value_is_part(scope);
                }
                BsonView::CodeWithScope(
                    code@,
                    Seq::new(
                        scope@.len(),
                        |i: int|
                            if 0 <= i < scope@.len() {
                                (scope@[i].0, scope@[i].1.tree())
                            } else {
                                (scope@[i].0, BsonView::Null)
                            },
                    ),
                )
            },
            BsonValue::Other(carried) => BsonView::Other(carried@),
        }
    }
}

impl View for BsonValue {
    type V = BsonView;

    open spec fn view(&self) -> BsonView {
        self.tree()
    }
}

/// What a document holds: its fields, each with what its value holds.
pub open spec fn document_tree(doc: Document) -> Seq<(Seq<char>, BsonView)> {
    Seq::new(doc@.len(), |i: int| (doc@[i].0, doc@[i].1@))
}

} // verus!

//! What the views of the library's values show: the values themselves, part by part.
use vstd::prelude::*;

use crate::bson::BsonValue;
use crate::bson::BsonView;
use crate::bson::Document;
use crate::bson::document_tree;
use crate::double::finite;
use crate::double::told;
use crate::fields::distinct_keys;
use crate::fields::lemma_position;
use crate::fields::lemma_put;
use crate::fields::lookup;
use crate::fields::put;
use crate::json::document_trees;
use crate::nodes::aggregate::AggregateRequest;
use crate::nodes::connect::ConnectRequest;
use crate::nodes::cursor::Progress;
use crate::nodes::cursor::ProgressView;
use crate::nodes::cursor::Taken;
use crate::nodes::cursor::TakenView;
use crate::nodes::delete::DeleteRequest;
use crate::nodes::find::FindRequest;
use crate::nodes::insert::InsertRequest;
use crate::nodes::update::UpdateRequest;
use crate::plugin::Step;
use crate::plugin::StepView;
use crate::result::ExecuteResult;
use crate::result::Report;
use crate::value::Json;
use crate::value::JsonView;

verus! {

/// A request to read shows the connection, the collection, the filter, the projection and the limit
/// that go to the driver.
pub proof fn law_requests_to_read_are_shown(find: FindRequest, aggregate: AggregateRequest)
    ensures
        find@.connection == find.connection,
        find@.collection == find.collection@,
        find@.filter == document_tree(find.filter),
        match find.project {
            Some(project) => find@.project == Some(document_tree(project)),
            None => find@.project is None,
        },
        find@.limit == find.limit,
        aggregate@.connection == aggregate.connection,
        aggregate@.collection == aggregate.collection@,
        aggregate@.pipeline == document_trees(aggregate.pipeline@),
        aggregate@.limit == aggregate.limit,
{
}

/// A request to write shows the connection, the collection, the documents and the flags that go to
/// the driver.
pub proof fn law_requests_to_write_are_shown(
    insert: InsertRequest,
    update: UpdateRequest,
    delete: DeleteRequest,
)
    ensures
        insert@.connection == insert.connection,
        insert@.collection == insert.collection@,
        insert@.documents == document_trees(insert.documents@),
        update@.connection == update.connection,
        update@.collection == update.collection@,
        update@.filter == document_tree(update.filter),
        update@.update == document_tree(update.update),
        update@.upsert == update.upsert,
        update@.many == update.many,
        delete@.connection == delete.connection,
        delete@.collection == delete.collection@,
        delete@.filter == document_tree(delete.filter),
        delete@.many == delete.many,
{
}

/// A request to connect shows the server, the database and the time that go to the driver.
pub proof fn law_requests_to_connect_are_shown(connect: ConnectRequest)
    ensures
        connect@.uri == connect.uri@,
        connect@.database == connect.database@,
        connect@.timeout_ms == connect.timeout_ms,
{
}

/// A step shows what it is, and what is in it.
pub proof fn law_steps_are_shown(step: Step, progress: Progress, taken: Taken)
    ensures
        match step {
            Step::Done(report) => step@ == StepView::Done(report@),
            Step::Connect(request) => step@ == StepView::Connect(request@),
            Step::Find(request) => step@ == StepView::Find(request@),
            Step::Insert(request) => step@ == StepView::Insert(request@),
            Step::Update(request) => step@ == StepView::Update(request@),
            Step::Delete(request) => step@ == StepView::Delete(request@),
            Step::Aggregate(request) => step@ == StepView::Aggregate(request@),
        },
        match progress {
            Progress::More(gathering) => progress@ == ProgressView::More(gathering@),
            Progress::Done(report) => progress@ == ProgressView::Done(report@),
        },
        match taken {
            Taken::More(gathering) => taken@ == TakenView::More(gathering@),
            Taken::Full(docs) => taken@ == TakenView::Full(document_trees(docs@)),
        },
{
}

/// A report shows the result and the line of the log, and a result its verdict, its output, its
/// ports and its errors.
pub proof fn law_reports_are_shown(report: Report, result: ExecuteResult)
    ensures
        report@.result == report.result@,
        match report.log {
            Some(line) => report@.log == Some((line.level@, line.message@)),
            None => report@.log is None,
        },
        result@.success == result.success,
        match result.output_data {
            Some(output) => result@.output_data == Some(output@),
            None => result@.output_data is None,
        },
        result@.next_ports.len() == result.next_ports@.len(),
        forall|i: int|
            0 <= i < result.next_ports@.len() ==> (#[trigger] result@.next_ports[i])
                == result.next_ports@[i]@,
        result@.errors.len() == result.errors@.len(),
        forall|i: int|
            0 <= i < result.errors@.len() ==> (#[trigger] result@.errors[i]) == result.errors@[i]@,
{
}

/// A JSON value shows what kind it is and what it holds, its parts in their order.
pub proof fn law_json_values_are_shown(value: Json)
    ensures
        match value {
            Json::Null => value@ == JsonView::Null,
            Json::Bool(b) => value@ == JsonView::Bool(b),
            Json::Number(number) => value@ == JsonView::Number(number@),
            Json::String(text) => value@ == JsonView::String(text@),
            Json::Array(items) => {
                &&& value@ matches JsonView::Array(all)
                &&& all.len() == items@.len()
                &&& forall|i: int| 0 <= i < all.len() ==> (#[trigger] all[i]) == items@[i]@
            },
            Json::Object(fields) => {
                &&& value@ matches JsonView::Object(all)
                &&& all.len() == fields@.len()
                &&& forall|i: int|
                    0 <= i < all.len() ==> (#[trigger] all[i]) == (fields@[i].0, fields@[i].1@)
            },
        },
{
}

/// A document shows its fields in their order, each with its key and what its value holds, and so
/// does every document of a list.
pub proof fn law_documents_are_shown(doc: Document, docs: Seq<Document>)
    ensures
        document_tree(doc).len() == doc@.len(),
        forall|i: int|
            0 <= i < doc@.len() ==> (#[trigger] document_tree(doc)[i]) == (
                doc@[i].0,
                doc@[i].1@,
            ),
        document_trees(docs).len() == docs.len(),
        forall|i: int|
            0 <= i < docs.len() ==> (#[trigger] document_trees(docs)[i]) == document_tree(docs[i]),
{
}

/// A BSON value shows what type it is of and what it holds, its parts in their order.
pub proof fn law_bson_values_are_shown(value: BsonValue)
    ensures
        match value {
            BsonValue::Double(bits) => value@ == BsonView::Double(told(bits)) && (finite(bits)
                ==> value@ == BsonView::Double(bits)),
            BsonValue::String(text) => value@ == BsonView::String(text@),
            BsonValue::Array(items) => {
                &&& value@ matches BsonView::Array(all)
                &&& all.len() == items@.len()
                &&& forall|i: int| 0 <= i < all.len() ==> (#[trigger] all[i]) == items@[i]@
            },
            BsonValue::Document(doc) => value@ matches BsonView::Document(fields) && fields
                =~= document_tree(doc),
            BsonValue::Boolean(b) => value@ == BsonView::Boolean(b),
            BsonValue::Null => value@ == BsonView::Null,
            BsonValue::Int32(n) => value@ == BsonView::Int32(n),
            BsonValue::Int64(n) => value@ == BsonView::Int64(n),
            BsonValue::ObjectId(bytes) => value@ == BsonView::ObjectId(bytes@),
            BsonValue::DateTime(millis) => value@ == BsonView::DateTime(millis),
            BsonValue::Bytes(bytes) => value@ == BsonView::Bytes(bytes@),
            BsonValue::CodeWithScope(code, scope) => value@ matches BsonView::CodeWithScope(
                text,
                fields,
            ) && text == code@ && fields =~= document_tree(scope),
            BsonValue::Other(carried) => value@ == BsonView::Other(carried@),
        },
{
}

/// A field that is set is read back, and every other field has the value and the place that it had:
/// a key that was there keeps its place, and a new one comes last.
pub proof fn law_fields_are_set_in_place<V>(
    fields: Seq<(Seq<char>, V)>,
    key: Seq<char>,
    value: V,
)
    requires
        distinct_keys(fields),
    ensures
        ({
            let after = put(fields, key, value);
            &&& distinct_keys(after)
            &&& lookup(after, key) == Some(value)
            &&& forall|i: int|
                0 <= i < fields.len() ==> (#[trigger] after[i]) == if fields[i].0 == key {
                    (key, value)
                } else {
                    fields[i]
                }
            &&& (exists|i: int| 0 <= i < fields.len() && (#[trigger] fields[i]).0 == key)
                ==> after.len() == fields.len()
            &&& (forall|i: int| 0 <= i < fields.len() ==> (#[trigger] fields[i]).0 != key)
                ==> after == fields.push((key, value))
        }),
{
    lemma_put(fields, key, value);
    lemma_position(fields, key);
}

} // verus!

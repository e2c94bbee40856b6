//! `mongo:insert`: inserts documents into a collection.
//!
//! Configuration: `collection` and `documents`, both required; the documents are an array of
//! objects, or its JSON text, and not empty. Output: `{"inserted_count": n}`.
use vstd::prelude::*;

use std::sync::Arc;

use crate::bson::Document;
use crate::i18n::Locale;
use crate::i18n::caused;
use crate::i18n::message_of;
use crate::i18n::said;
use crate::json::FieldViews;
use crate::json::document_trees;
use crate::nodes::collection_name;
use crate::nodes::collection_of;
use crate::nodes::id_of;
use crate::nodes::id_or_default;
use crate::nodes::parse_required_documents;
use crate::nodes::required_documents;
use crate::nodes::resolve_connection;
use crate::nodes::selected_connection;
use crate::pool::MongoConnection;
use crate::pool::MongoPool;
use crate::pool::PoolView;
use crate::result::Report;
use crate::result::ResultView;
use crate::result::first_step;
use crate::result::ok_result;
use crate::result::reported;
use crate::result::succeeded;
use crate::result::viewed_count;
use crate::value::Json;
use crate::value::JsonView;
use crate::value::Number;
use crate::value::NumberKind;
use crate::value::json_object;

verus! {

/// What the driver is asked for.
pub struct InsertRequest {
    pub connection: Arc<MongoConnection>,
    pub collection: String,
    pub documents: Vec<Document>,
}

/// What a request holds.
pub struct InsertView {
    pub connection: Arc<MongoConnection>,
    pub collection: Seq<char>,
    pub documents: Seq<FieldViews>,
}

impl View for InsertRequest {
    type V = InsertView;

    open spec fn view(&self) -> InsertView {
        InsertView {
            connection: self.connection,
            collection: self.collection@,
            documents: document_trees(self.documents@),
        }
    }
}

/// What a configuration asks of the driver. What is wrong with the configuration comes before a
/// missing connection.
pub open spec fn request_of(
    pool: PoolView,
    execution_id: Seq<char>,
    config: JsonView,
    chinese: bool,
) -> Result<InsertView, Seq<char>> {
    match collection_of(config, chinese) {
        Ok(collection) => match required_documents(
            config,
            "documents"@,
            said("documents 不能为空"@, "documents must not be empty"@, chinese),
            chinese,
        ) {
            Ok(documents) => match selected_connection(pool, execution_id, config, chinese) {
                Ok(connection) => Ok(InsertView { connection, collection, documents }),
                Err(err) => Err(err),
            },
            Err(err) => Err(err),
        },
        Err(err) => Err(err),
    }
}

/// Reads the configuration into what the driver is asked for.
pub fn insert_core(pool: &MongoPool, exec_id: &str, config: &Json, locale: &Locale) -> (r: Result<
    InsertRequest,
    String,
>)
    ensures
        request_of(pool@, exec_id@, config@, locale.chinese()) == match r {
            Ok(request) => Ok(request@),
            Err(err) => Err(err@),
        },
{
    let collection: String = match collection_name(config, locale) {
        Ok(collection) => collection,
        Err(err) => {
            return Err(err);
        },
    };
    let documents: Vec<Document> = match parse_required_documents(
        config,
        "documents",
        "documents 不能为空",
        "documents must not be empty",
        locale,
    ) {
        Ok(documents) => documents,
        Err(err) => {
            return Err(err);
        },
    };
    match resolve_connection(pool, exec_id, config, locale) {
        Ok(connection) => Ok(InsertRequest { connection, collection, documents }),
        Err(err) => Err(err),
    }
}

/// The first step of the node: what the driver is asked for, or the report of what is wrong.
pub fn execute(
    pool: &MongoPool,
    execution_id: Option<&str>,
    config: &Json,
    locale: &Locale,
) -> (r: Result<InsertRequest, Report>)
    ensures
        first_step(
            request_of(pool@, id_or_default(execution_id), config@, locale.chinese()),
        ) == match r {
            Ok(request) => Ok(request@),
            Err(report) => Err(report@),
        },
{
    match insert_core(pool, id_of(execution_id), config, locale) {
        Ok(request) => Ok(request),
        Err(err) => Err(Report::failure(err)),
    }
}

/// The outcome for an answer of the driver: the number of inserted documents, or its error.
pub open spec fn outcome_of(answer: Result<u64, Seq<char>>, chinese: bool) -> Result<
    ResultView,
    Seq<char>,
> {
    match answer {
        Ok(count) => Ok(
            succeeded(
                JsonView::Object(
                    seq![("inserted_count"@, JsonView::Number(NumberKind::PosInt(count)))],
                ),
                "true"@,
            ),
        ),
        Err(err) => Err(caused(said("插入文档失败"@, "Failed to insert documents"@, chinese), err)),
    }
}

/// The last step of the node: turns the driver's answer into the node's report.
pub fn finish(answer: Result<u64, String>, locale: &Locale) -> (r: Report)
    ensures
        r@ == reported(outcome_of(viewed_count(answer), locale.chinese())),
{
    match answer {
        Ok(count) => {
            let output: Json = json_object(
                vec![("inserted_count", Json::Number(Number::from_unsigned(count)))],
            );
            assert(output@->Object_0 =~= seq![
                ("inserted_count"@, JsonView::Number(NumberKind::PosInt(count))),
            ]);
            Report::of(Ok(ok_result(output)))
        },
        Err(err) => Report::of(
            Err(message_of("插入文档失败", "Failed to insert documents", err.as_str(), locale)),
        ),
    }
}

} // verus!

//! `mongo:delete`: deletes documents that a filter matches.
//!
//! Configuration: `collection` and `filter`, both required; `delete_many`, off unless set, for all
//! matches in place of one. Output: `{"deleted_count": n}`.
use vstd::prelude::*;

use std::sync::Arc;

use crate::bson::Document;
use crate::bson::document_tree;
use crate::i18n::Locale;
use crate::i18n::caused;
use crate::i18n::message_of;
use crate::i18n::said;
use crate::json::FieldViews;
use crate::nodes::collection_name;
use crate::nodes::collection_of;
use crate::nodes::flag;
use crate::nodes::id_of;
use crate::nodes::id_or_default;
use crate::nodes::parse_required_filter;
use crate::nodes::read_flag;
use crate::nodes::required_filter;
use crate::nodes::resolve_connection;
use crate::nodes::selected_connection;
use crate::pool::MongoConnection;
use crate::pool::MongoPool;
use crate::pool::PoolView;
use crate::result::Report;
use crate::result::ResultView;
use crate::result::first_step;
use crate::result::ok_result;
use crate::result::reported;
use crate::result::succeeded;
use crate::result::viewed_count;
use crate::value::Json;
use crate::value::JsonView;
use crate::value::Number;
use crate::value::NumberKind;
use crate::value::json_object;

verus! {

/// What the driver is asked for.
pub struct DeleteRequest {
    pub connection: Arc<MongoConnection>,
    pub collection: String,
    pub filter: Document,
    pub many: bool,
}

/// What a request holds.
pub struct DeleteView {
    pub connection: Arc<MongoConnection>,
    pub collection: Seq<char>,
    pub filter: FieldViews,
    pub many: bool,
}

impl View for DeleteRequest {
    type V = DeleteView;

    open spec fn view(&self) -> DeleteView {
        DeleteView {
            connection: self.connection,
            collection: self.collection@,
            filter: document_tree(self.filter),
            many: self.many,
        }
    }
}

/// Whether all matching documents are deleted: only where `delete_many` is `true`.
pub fn parse_delete_many(config: &Json) -> (many: bool)
    ensures
        many == flag(config@, "delete_many"@),
{
    read_flag(config, "delete_many")
}

/// What a configuration asks of the driver. What is wrong with the configuration comes before a
/// missing connection.
pub open spec fn request_of(
    pool: PoolView,
    execution_id: Seq<char>,
    config: JsonView,
    chinese: bool,
) -> Result<DeleteView, Seq<char>> {
    match collection_of(config, chinese) {
        Ok(collection) => match required_filter(config, chinese) {
            Ok(filter) => match selected_connection(pool, execution_id, config, chinese) {
                Ok(connection) => Ok(
                    DeleteView {
                        connection,
                        collection,
                        filter,
                        many: flag(config, "delete_many"@),
                    },
                ),
                Err(err) => Err(err),
            },
            Err(err) => Err(err),
        },
        Err(err) => Err(err),
    }
}

/// Reads the configuration into what the driver is asked for.
pub fn delete_core(pool: &MongoPool, exec_id: &str, config: &Json, locale: &Locale) -> (r: Result<
    DeleteRequest,
    String,
>)
    ensures
        request_of(pool@, exec_id@, config@, locale.chinese()) == match r {
            Ok(request) => Ok(request@),
            Err(err) => Err(err@),
        },
{
    let collection: String = match collection_name(config, locale) {
        Ok(collection) => collection,
        Err(err) => {
            return Err(err);
        },
    };
    let filter: Document = match parse_required_filter(config, locale) {
        Ok(filter) => filter,
        Err(err) => {
            return Err(err);
        },
    };
    let many: bool = parse_delete_many(config);
    match resolve_connection(pool, exec_id, config, locale) {
        Ok(connection) => Ok(DeleteRequest { connection, collection, filter, many }),
        Err(err) => Err(err),
    }
}

/// The first step of the node: what the driver is asked for, or the report of what is wrong.
pub fn execute(
    pool: &MongoPool,
    execution_id: Option<&str>,
    config: &Json,
    locale: &Locale,
) -> (r: Result<DeleteRequest, Report>)
    ensures
        first_step(
            request_of(pool@, id_or_default(execution_id), config@, locale.chinese()),
        ) == match r {
            Ok(request) => Ok(request@),
            Err(report) => Err(report@),
        },
{
    match delete_core(pool, id_of(execution_id), config, locale) {
        Ok(request) => Ok(request),
        Err(err) => Err(Report::failure(err)),
    }
}

/// The outcome for an answer of the driver: the number of deleted documents, or its error.
pub open spec fn outcome_of(answer: Result<u64, Seq<char>>, chinese: bool) -> Result<
    ResultView,
    Seq<char>,
> {
    match answer {
        Ok(count) => Ok(
            succeeded(
                JsonView::Object(
                    seq![("deleted_count"@, JsonView::Number(NumberKind::PosInt(count)))],
                ),
                "true"@,
            ),
        ),
        Err(err) => Err(caused(said("删除失败"@, "Delete failed"@, chinese), err)),
    }
}

/// The last step of the node: turns the driver's answer into the node's report.
pub fn finish(answer: Result<u64, String>, locale: &Locale) -> (r: Report)
    ensures
        r@ == reported(outcome_of(viewed_count(answer), locale.chinese())),
{
    match answer {
        Ok(count) => {
            let output: Json = json_object(
                vec![("deleted_count", Json::Number(Number::from_unsigned(count)))],
            );
            assert(output@->Object_0 =~= seq![
                ("deleted_count"@, JsonView::Number(NumberKind::PosInt(count))),
            ]);
            Report::of(Ok(ok_result(output)))
        },
        Err(err) => Report::of(Err(message_of("删除失败", "Delete failed", err.as_str(), locale))),
    }
}

} // verus!

//! `mongo:update`: updates documents that a filter matches.
//!
//! Configuration: `collection`, `filter` and `update`, all required; `update_many`, off unless
//! set, for all matches in place of one; `upsert`, off unless set, to insert where nothing
//! matches. The update goes to the driver as it is. Output:
//! `{"matched_count": n, "modified_count": n}`.
use vstd::prelude::*;

use std::sync::Arc;

use crate::bson::Document;
use crate::bson::document_tree;
use crate::i18n::Locale;
use crate::i18n::caused;
use crate::i18n::message;
use crate::i18n::message_of;
use crate::i18n::said;
use crate::json::FieldViews;
use crate::json::json_field;
use crate::json::parse_json_field;
use crate::nodes::collection_name;
use crate::nodes::collection_of;
use crate::nodes::flag;
use crate::nodes::id_of;
use crate::nodes::id_or_default;
use crate::nodes::parse_required_filter;
use crate::nodes::read_flag;
use crate::nodes::required_filter;
use crate::nodes::resolve_connection;
use crate::nodes::selected_connection;
use crate::pool::MongoConnection;
use crate::pool::MongoPool;
use crate::pool::PoolView;
use crate::result::Report;
use crate::result::ResultView;
use crate::result::first_step;
use crate::result::ok_result;
use crate::result::reported;
use crate::result::succeeded;
use crate::value::Json;
use crate::value::JsonView;
use crate::value::Number;
use crate::value::NumberKind;
use crate::value::json_object;
use crate::value::pair_views;

verus! {

/// What the driver is asked for.
pub struct UpdateRequest {
    pub connection: Arc<MongoConnection>,
    pub collection: String,
    pub filter: Document,
    pub update: Document,
    pub upsert: bool,
    pub many: bool,
}

/// What a request holds.
pub struct UpdateView {
    pub connection: Arc<MongoConnection>,
    pub collection: Seq<char>,
    pub filter: FieldViews,
    pub update: FieldViews,
    pub upsert: bool,
    pub many: bool,
}

impl View for UpdateRequest {
    type V = UpdateView;

    open spec fn view(&self) -> UpdateView {
        UpdateView {
            connection: self.connection,
            collection: self.collection@,
            filter: document_tree(self.filter),
            update: document_tree(self.update),
            upsert: self.upsert,
            many: self.many,
        }
    }
}

/// Whether all matching documents are updated: only where `update_many` is `true`.
pub fn parse_update_many(config: &Json) -> (many: bool)
    ensures
        many == flag(config@, "update_many"@),
{
    read_flag(config, "update_many")
}

/// The update of a configuration.
pub open spec fn required_update(config: JsonView, chinese: bool) -> Result<
    FieldViews,
    Seq<char>,
> {
    match json_field(config, "update"@, chinese) {
        Ok(Some(update)) => Ok(update),
        Ok(None) => Err(said("缺少 update 字段"@, "Missing update field"@, chinese)),
        Err(err) => Err(err),
    }
}

/// What a configuration asks of the driver. What is wrong with the configuration comes before a
/// missing connection.
pub open spec fn request_of(
    pool: PoolView,
    execution_id: Seq<char>,
    config: JsonView,
    chinese: bool,
) -> Result<UpdateView, Seq<char>> {
    match collection_of(config, chinese) {
        Ok(collection) => match required_filter(config, chinese) {
            Ok(filter) => match required_update(config, chinese) {
                Ok(update) => match selected_connection(pool, execution_id, config, chinese) {
                    Ok(connection) => Ok(
                        UpdateView {
                            connection,
                            collection,
                            filter,
                            update,
                            upsert: flag(config, "upsert"@),
                            many: flag(config, "update_many"@),
                        },
                    ),
                    Err(err) => Err(err),
                },
                Err(err) => Err(err),
            },
            Err(err) => Err(err),
        },
        Err(err) => Err(err),
    }
}

/// Reads the configuration into what the driver is asked for.
pub fn update_core(pool: &MongoPool, exec_id: &str, config: &Json, locale: &Locale) -> (r: Result<
    UpdateRequest,
    String,
>)
    ensures
        request_of(pool@, exec_id@, config@, locale.chinese()) == match r {
            Ok(request) => Ok(request@),
            Err(err) => Err(err@),
        },
{
    let collection: String = match collection_name(config, locale) {
        Ok(collection) => collection,
        Err(err) => {
            return Err(err);
        },
    };
    let filter: Document = match parse_required_filter(config, locale) {
        Ok(filter) => filter,
        Err(err) => {
            return Err(err);
        },
    };
    let update: Document = match parse_json_field(config, "update", locale) {
        Ok(Some(update)) => update,
        Ok(None) => {
            return Err(message("缺少 update 字段", "Missing update field", locale));
        },
        Err(err) => {
            return Err(err);
        },
    };
    let upsert: bool = read_flag(config, "upsert");
    let many: bool = parse_update_many(config);
    match resolve_connection(pool, exec_id, config, locale) {
        Ok(connection) => Ok(UpdateRequest { connection, collection, filter, update, upsert, many }),
        Err(err) => Err(err),
    }
}

/// The first step of the node: what the driver is asked for, or the report of what is wrong.
pub fn execute(
    pool: &MongoPool,
    execution_id: Option<&str>,
    config: &Json,
    locale: &Locale,
) -> (r: Result<UpdateRequest, Report>)
    ensures
        first_step(
            request_of(pool@, id_or_default(execution_id), config@, locale.chinese()),
        ) == match r {
            Ok(request) => Ok(request@),
            Err(report) => Err(report@),
        },
{
    match update_core(pool, id_of(execution_id), config, locale) {
        Ok(request) => Ok(request),
        Err(err) => Err(Report::failure(err)),
    }
}

/// What the driver says of an update.
pub struct UpdateCounts {
    pub matched: u64,
    pub modified: u64,
}

/// The outcome for an answer of the driver: the numbers of matched and modified documents, or its
/// error.
pub open spec fn outcome_of(answer: Result<UpdateCounts, Seq<char>>, chinese: bool) -> Result<
    ResultView,
    Seq<char>,
> {
    match answer {
        Ok(counts) => Ok(
            succeeded(
                JsonView::Object(
                    seq![
                        ("matched_count"@, JsonView::Number(NumberKind::PosInt(counts.matched))),
                        ("modified_count"@, JsonView::Number(NumberKind::PosInt(counts.modified))),
                    ],
                ),
                "true"@,
            ),
        ),
        Err(err) => Err(caused(said("更新文档失败"@, "Failed to update documents"@, chinese), err)),
    }
}

/// The last step of the node: turns the driver's answer into the node's report.
pub fn finish(answer: Result<UpdateCounts, String>, locale: &Locale) -> (r: Report)
    ensures
        r@ == reported(
            outcome_of(
                match answer {
                    Ok(counts) => Ok(counts),
                    Err(err) => Err(err@),
                },
                locale.chinese(),
            ),
        ),
{
    match answer {
        Ok(counts) => {
            proof {
                reveal_strlit("matched_count");
                reveal_strlit("modified_count");
                assert("matched_count"@.len() != "modified_count"@.len());
            }
            let pairs: Vec<(&'static str, Json)> = vec![
                ("matched_count", Json::Number(Number::from_unsigned(counts.matched))),
                ("modified_count", Json::Number(Number::from_unsigned(counts.modified))),
            ];
            assert(pair_views(pairs@) =~= seq![
                ("matched_count"@, JsonView::Number(NumberKind::PosInt(counts.matched))),
                ("modified_count"@, JsonView::Number(NumberKind::PosInt(counts.modified))),
            ]);
            Report::of(Ok(ok_result(json_object(pairs))))
        },
        Err(err) => Report::of(
            Err(message_of("更新文档失败", "Failed to update documents", err.as_str(), locale)),
        ),
    }
}

} // verus!

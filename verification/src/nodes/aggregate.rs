//! `mongo:aggregate`: runs an aggregation pipeline.
//!
//! Configuration: `collection` and `pipeline`, both required; the pipeline is an array of
//! objects, or its JSON text, and not empty; `limit`, at most so many documents; `timeout_ms`, at
//! most so long. Output: `{"documents": [..]}`.
use vstd::prelude::*;

use std::sync::Arc;

use crate::bson::Document;
use crate::bson::document_tree;
use crate::i18n::Locale;
use crate::i18n::caused;
use crate::i18n::message_of;
use crate::i18n::said;
use crate::json::FieldViews;
use crate::json::all_tame;
use crate::json::any_non_finite;
use crate::json::document_trees;
use crate::json::non_finite_message;
use crate::json::viewed_documents;
use crate::json::viewed_json;
use crate::nodes::collection_name;
use crate::nodes::collection_of;
use crate::nodes::cursor::Gathering;
use crate::nodes::cursor::GatheringView;
use crate::nodes::cursor::Progress;
use crate::nodes::cursor::ProgressView;
use crate::nodes::cursor::Taken;
use crate::nodes::cursor::TakenView;
use crate::nodes::cursor::array_of;
use crate::nodes::cursor::bounded_array;
use crate::nodes::cursor::first_of;
use crate::nodes::cursor::gathered;
use crate::nodes::cursor::law_the_first_documents_are_gathered;
use crate::nodes::cursor::taken;
use crate::nodes::id_of;
use crate::nodes::id_or_default;
use crate::nodes::limit_of;
use crate::nodes::parse_limit;
use crate::nodes::parse_required_documents;
use crate::nodes::required_documents;
use crate::nodes::resolve_connection;
use crate::nodes::selected_connection;
use crate::pool::MongoConnection;
use crate::pool::MongoPool;
use crate::pool::PoolView;
use crate::result::Report;
use crate::result::ReportView;
use crate::result::ResultView;
use crate::result::failure;
use crate::result::first_step;
use crate::result::ok_result;
use crate::result::reported;
use crate::result::succeeded;
use crate::text::decimal;
use crate::text::decimal_text;
use crate::value::Json;
use crate::value::JsonView;
use crate::value::json_object;
use crate::value::member_u64;

verus! {

/// The time that the node takes at most, in milliseconds, where its configuration gives none.
pub const DEFAULT_TIMEOUT_MS: u64 = 5000;

/// The shortest time that the node waits, in milliseconds.
pub const SHORTEST_WAIT_MS: u64 = 100;

/// The most bytes of JSON documents that the node gives back. A frame of the host holds two
/// mebibytes, and this leaves room for what stands around the documents.
pub const MAX_RESULT_BYTES: usize = 1500000;

/// What the driver is asked for.
pub struct AggregateRequest {
    pub connection: Arc<MongoConnection>,
    pub collection: String,
    pub pipeline: Vec<Document>,
    pub limit: i64,
}

/// What a request holds.
pub struct AggregateView {
    pub connection: Arc<MongoConnection>,
    pub collection: Seq<char>,
    pub pipeline: Seq<FieldViews>,
    pub limit: i64,
}

impl View for AggregateRequest {
    type V = AggregateView;

    open spec fn view(&self) -> AggregateView {
        AggregateView {
            connection: self.connection,
            collection: self.collection@,
            pipeline: document_trees(self.pipeline@),
            limit: self.limit,
        }
    }
}

/// The pipeline of a configuration, with at least one stage.
pub open spec fn pipeline_of(config: JsonView, chinese: bool) -> Result<
    Seq<FieldViews>,
    Seq<char>,
> {
    required_documents(
        config,
        "pipeline"@,
        said("pipeline 不能为空"@, "pipeline must not be empty"@, chinese),
        chinese,
    )
}

/// The pipeline of a configuration. A missing one and an empty one are refused alike.
pub fn parse_pipeline(config: &Json, locale: &Locale) -> (r: Result<Vec<Document>, String>)
    ensures
        viewed_documents(r) == pipeline_of(config@, locale.chinese()),
{
    parse_required_documents(
        config,
        "pipeline",
        "pipeline 不能为空",
        "pipeline must not be empty",
        locale,
    )
}

/// What a configuration asks of the driver. What is wrong with the configuration comes before a
/// missing connection.
pub open spec fn request_of(
    pool: PoolView,
    execution_id: Seq<char>,
    config: JsonView,
    chinese: bool,
) -> Result<AggregateView, Seq<char>> {
    match collection_of(config, chinese) {
        Ok(collection) => match pipeline_of(config, chinese) {
            Ok(pipeline) => match selected_connection(pool, execution_id, config, chinese) {
                Ok(connection) => Ok(
                    AggregateView { connection, collection, pipeline, limit: limit_of(config) },
                ),
                Err(err) => Err(err),
            },
            Err(err) => Err(err),
        },
        Err(err) => Err(err),
    }
}

/// Reads the configuration into what the driver is asked for. The limit is above zero.
pub fn aggregate_core(pool: &MongoPool, exec_id: &str, config: &Json, locale: &Locale) -> (r:
    Result<AggregateRequest, String>)
    ensures
        request_of(pool@, exec_id@, config@, locale.chinese()) == match r {
            Ok(request) => Ok(request@),
            Err(err) => Err(err@),
        },
        r matches Ok(request) ==> request.limit > 0,
{
    let collection: String = match collection_name(config, locale) {
        Ok(collection) => collection,
        Err(err) => {
            return Err(err);
        },
    };
    let pipeline: Vec<Document> = match parse_pipeline(config, locale) {
        Ok(pipeline) => pipeline,
        Err(err) => {
            return Err(err);
        },
    };
    let limit: i64 = parse_limit(config);
    match resolve_connection(pool, exec_id, config, locale) {
        Ok(connection) => Ok(AggregateRequest { connection, collection, pipeline, limit }),
        Err(err) => Err(err),
    }
}

/// The first step of the node: what the driver is asked for, or the report of what is wrong.
pub fn execute(
    pool: &MongoPool,
    execution_id: Option<&str>,
    config: &Json,
    locale: &Locale,
) -> (r: Result<AggregateRequest, Report>)
    ensures
        first_step(
            request_of(pool@, id_or_default(execution_id), config@, locale.chinese()),
        ) == match r {
            Ok(request) => Ok(request@),
            Err(report) => Err(report@),
        },
        r matches Ok(request) ==> request.limit > 0,
{
    match aggregate_core(pool, id_of(execution_id), config, locale) {
        Ok(request) => Ok(request),
        Err(err) => Err(Report::failure(err)),
    }
}

/// The time that a configuration gives the node, in milliseconds.
pub open spec fn timeout_of(config: JsonView) -> u64 {
    match member_u64(config, "timeout_ms"@) {
        Some(millis) => millis,
        None => DEFAULT_TIMEOUT_MS,
    }
}

/// The time that a configuration gives the node, in milliseconds.
pub fn parse_timeout(config: &Json) -> (millis: u64)
    ensures
        millis == timeout_of(config@),
{
    match config.u64_at("timeout_ms") {
        Some(millis) => millis,
        None => DEFAULT_TIMEOUT_MS,
    }
}

/// The time after which the node is given up, in milliseconds: what its configuration gives it,
/// and never less than the shortest wait.
pub open spec fn wait_of(config: JsonView) -> u64 {
    if timeout_of(config) < SHORTEST_WAIT_MS {
        SHORTEST_WAIT_MS
    } else {
        timeout_of(config)
    }
}

/// The time after which the node is given up, in milliseconds: what its configuration gives it,
/// and never less than the shortest wait.
pub fn parse_wait(config: &Json) -> (millis: u64)
    ensures
        millis == wait_of(config@),
        millis == if timeout_of(config@) < SHORTEST_WAIT_MS {
            SHORTEST_WAIT_MS
        } else {
            timeout_of(config@)
        },
{
    let millis: u64 = parse_timeout(config);
    if millis < SHORTEST_WAIT_MS {
        SHORTEST_WAIT_MS
    } else {
        millis
    }
}

/// The report of a node that was given up. The message names the time of the configuration.
pub open spec fn timeout_report(config: JsonView, chinese: bool) -> ReportView {
    failure(
        caused(
            said("Mongo 操作超时"@, "Mongo operation timed out"@, chinese),
            decimal(timeout_of(config) as nat) + "ms"@,
        ),
    )
}

/// The report of a node that was given up. The message names the time of the configuration.
pub fn timed_out(config: &Json, locale: &Locale) -> (r: Report)
    ensures
        r@ == timeout_report(config@, locale.chinese()),
        r@ == failure(
            caused(
                said("Mongo 操作超时"@, "Mongo operation timed out"@, locale.chinese()),
                decimal(timeout_of(config@) as nat) + "ms"@,
            ),
        ),
{
    let mut time: String = decimal_text(parse_timeout(config));
    time.append("ms");
    Report::failure(
        message_of("Mongo 操作超时", "Mongo operation timed out", time.as_str(), locale),
    )
}

/// What the driver answers while the node reads.
pub enum AggregateEvent {
    /// The pipeline was refused.
    Refused(String),
    /// The cursor gave a document.
    Found(Document),
    /// The cursor could not be read.
    Unread(String),
    /// What the cursor gave is no document.
    Undecoded(String),
    /// The cursor has no more documents.
    Ended,
}

/// The outcome for the documents that were read, given their JSON.
pub open spec fn outcome_of(array: Result<JsonView, Seq<char>>) -> Result<ResultView, Seq<char>> {
    match array {
        Ok(documents) => Ok(
            succeeded(JsonView::Object(seq![("documents"@, documents)]), "true"@),
        ),
        Err(err) => Err(err),
    }
}

/// The report for the documents that were read, given their JSON.
pub fn finish(array: Result<Json, String>) -> (r: Report)
    ensures
        r@ == reported(outcome_of(viewed_json(array))),
{
    match array {
        Ok(documents) => {
            let output: Json = json_object(vec![("documents", documents)]);
            assert(output@->Object_0 =~= seq![("documents"@, documents@)]);
            Report::of(Ok(ok_result(output)))
        },
        Err(err) => Report::of(Err(err)),
    }
}

/// The report for the documents that were read.
pub open spec fn report_of(docs: Seq<FieldViews>, chinese: bool) -> ReportView {
    reported(outcome_of(array_of(docs, MAX_RESULT_BYTES, chinese)))
}

/// Where the node stands after an answer of the driver.
pub open spec fn progress_of(
    gathering: GatheringView,
    event: AggregateEvent,
    chinese: bool,
) -> ProgressView {
    match event {
        AggregateEvent::Refused(err) => ProgressView::Done(
            failure(caused(said("聚合失败"@, "Aggregation failed"@, chinese), err@)),
        ),
        AggregateEvent::Unread(err) => ProgressView::Done(
            failure(caused(said("聚合读取失败"@, "Failed to read aggregation results"@, chinese), err@)),
        ),
        AggregateEvent::Undecoded(err) => ProgressView::Done(
            failure(caused(said("聚合结果反序列化失败"@, "Failed to deserialize aggregation result"@, chinese), err@)),
        ),
        AggregateEvent::Ended => ProgressView::Done(report_of(gathering.docs, chinese)),
        AggregateEvent::Found(doc) => found(gathering, document_tree(doc), chinese),
    }
}

/// Where the node stands after a document.
pub open spec fn found(gathering: GatheringView, doc: FieldViews, chinese: bool) -> ProgressView {
    match taken(gathering, doc) {
        TakenView::More(more) => ProgressView::More(more),
        TakenView::Full(docs) => ProgressView::Done(report_of(docs, chinese)),
    }
}

/// The report of the node whose cursor gives these documents and ends.
pub open spec fn report_of_reading(
    gathering: GatheringView,
    given: Seq<FieldViews>,
    chinese: bool,
) -> ReportView
    decreases given.len(),
{
    if given.len() == 0 {
        report_of(gathering.docs, chinese)
    } else {
        match found(gathering, given[0], chinese) {
            ProgressView::More(more) => report_of_reading(more, given.drop_first(), chinese),
            ProgressView::Done(report) => report,
        }
    }
}

/// The documents on which the node reports after an answer, where it is done reading.
pub open spec fn reported_on(gathering: GatheringView, event: AggregateEvent) -> Option<Seq<FieldViews>> {
    match event {
        AggregateEvent::Ended => Some(gathering.docs),
        AggregateEvent::Found(doc) => match taken(gathering, document_tree(doc)) {
            TakenView::More(_) => None,
            TakenView::Full(docs) => Some(docs),
        },
        _ => None,
    }
}

/// Goes on with an answer of the driver. The node is done once the pipeline fails, the cursor
/// cannot be read or ends, or as many documents as the limit are there.
pub fn on_event(gathering: Gathering, event: AggregateEvent, locale: &Locale) -> (r: Progress)
    ensures
        r@ == progress_of(gathering@, event, locale.chinese()),
        reported_on(gathering@, event) matches Some(docs) ==> all_tame(docs) && any_non_finite(docs)
            ==> r@ == ProgressView::Done(failure(non_finite_message(locale.chinese()))),
{
    match event {
        AggregateEvent::Refused(err) => Progress::Done(
            Report::failure(message_of("聚合失败", "Aggregation failed", err.as_str(), locale)),
        ),
        AggregateEvent::Unread(err) => Progress::Done(
            Report::failure(
                message_of(
                    "聚合读取失败",
                    "Failed to read aggregation results",
                    err.as_str(),
                    locale,
                ),
            ),
        ),
        AggregateEvent::Undecoded(err) => Progress::Done(
            Report::failure(
                message_of(
                    "聚合结果反序列化失败",
                    "Failed to deserialize aggregation result",
                    err.as_str(),
                    locale,
                ),
            ),
        ),
        AggregateEvent::Ended => {
            let docs: Vec<Document> = gathering.into_docs();
            Progress::Done(finish(bounded_array(&docs, MAX_RESULT_BYTES, locale)))
        },
        AggregateEvent::Found(doc) => match gathering.take(doc) {
            Taken::More(more) => Progress::More(more),
            Taken::Full(docs) => Progress::Done(finish(bounded_array(&docs, MAX_RESULT_BYTES, locale))),
        },
    }
}

/// Reading a cursor comes to the report for what is gathered of it.
proof fn lemma_reading(gathering: GatheringView, given: Seq<FieldViews>, chinese: bool)
    ensures
        report_of_reading(gathering, given, chinese) == report_of(
            gathered(gathering, given),
            chinese,
        ),
    decreases given.len(),
{
    if given.len() > 0 {
        match taken(gathering, given[0]) {
            TakenView::More(more) => {
                lemma_reading(more, given.drop_first(), chinese);
            },
            TakenView::Full(_) => {},
        }
    }
}

/// The node reports on the first documents of its cursor, in their order: as many as its limit,
/// or all where there are fewer.
pub proof fn law_the_first_documents_are_reported(
    limit: i64,
    given: Seq<FieldViews>,
    chinese: bool,
)
    requires
        limit > 0,
    ensures
        report_of_reading(GatheringView { limit, docs: Seq::empty() }, given, chinese)
            == report_of(first_of(given, limit), chinese),
{
    lemma_reading(GatheringView { limit, docs: Seq::empty() }, given, chinese);
    law_the_first_documents_are_gathered(limit, given);
}

} // verus!

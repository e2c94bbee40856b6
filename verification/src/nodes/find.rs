//! `mongo:find`: reads documents that a filter matches.
//!
//! Configuration: `collection`, required; `filter`, everything where it is not given; `project`,
//! no projection where it is not given; `limit`, at most so many documents. Output:
//! `{"count": n, "documents": [..]}`, where the count is that of the documents given back, not of
//! all that match.
use vstd::prelude::*;

use std::sync::Arc;

use crate::bson::Document;
use crate::bson::document_tree;
use crate::fields::Fields;
use crate::i18n::Locale;
use crate::i18n::caused;
use crate::i18n::message_of;
use crate::i18n::said;
use crate::json::FieldViews;
use crate::json::all_tame;
use crate::json::any_non_finite;
use crate::json::json_field;
use crate::json::non_finite_message;
use crate::json::parse_json_field;
use crate::json::viewed_document;
use crate::json::viewed_json;
use crate::nodes::collection_name;
use crate::nodes::collection_of;
use crate::nodes::cursor::Gathering;
use crate::nodes::cursor::GatheringView;
use crate::nodes::cursor::Progress;
use crate::nodes::cursor::ProgressView;
use crate::nodes::cursor::Taken;
use crate::nodes::cursor::TakenView;
use crate::nodes::cursor::array_of;
use crate::nodes::cursor::bounded_array;
use crate::nodes::cursor::first_of;
use crate::nodes::cursor::gathered;
use crate::nodes::cursor::law_the_first_documents_are_gathered;
use crate::nodes::cursor::taken;
use crate::nodes::id_of;
use crate::nodes::id_or_default;
use crate::nodes::limit_of;
use crate::nodes::parse_limit;
use crate::nodes::resolve_connection;
use crate::nodes::selected_connection;
use crate::pool::MongoConnection;
use crate::pool::MongoPool;
use crate::pool::PoolView;
use crate::result::Report;
use crate::result::ReportView;
use crate::result::ResultView;
use crate::result::failure;
use crate::result::first_step;
use crate::result::ok_result;
use crate::result::reported;
use crate::result::succeeded;
use crate::value::Json;
use crate::value::JsonView;
use crate::value::Number;
use crate::value::NumberKind;
use crate::value::json_object;
use crate::value::pair_views;

verus! {

/// The most bytes of JSON documents that the node gives back: one and a half mebibytes. A frame of
/// the host holds two, and this leaves room for what stands around the documents.
pub const MAX_OUTPUT_BYTES: usize = 1572864;

/// What the driver is asked for.
pub struct FindRequest {
    pub connection: Arc<MongoConnection>,
    pub collection: String,
    pub filter: Document,
    pub project: Option<Document>,
    pub limit: i64,
}

/// What a request holds.
pub struct FindView {
    pub connection: Arc<MongoConnection>,
    pub collection: Seq<char>,
    pub filter: FieldViews,
    pub project: Option<FieldViews>,
    pub limit: i64,
}

impl View for FindRequest {
    type V = FindView;

    open spec fn view(&self) -> FindView {
        FindView {
            connection: self.connection,
            collection: self.collection@,
            filter: document_tree(self.filter),
            project: match self.project {
                Some(project) => Some(document_tree(project)),
                None => None,
            },
            limit: self.limit,
        }
    }
}

/// The filter of a configuration: the empty one, which matches everything, where none is given.
pub open spec fn filter_of(config: JsonView, chinese: bool) -> Result<FieldViews, Seq<char>> {
    match json_field(config, "filter"@, chinese) {
        Ok(Some(filter)) => Ok(filter),
        Ok(None) => Ok(Seq::empty()),
        Err(err) => Err(err),
    }
}

/// The filter of a configuration: the empty one where none is given.
pub fn parse_filter(config: &Json, locale: &Locale) -> (r: Result<Document, String>)
    ensures
        viewed_document(r) == filter_of(config@, locale.chinese()),
{
    match parse_json_field(config, "filter", locale) {
        Ok(Some(filter)) => Ok(filter),
        Ok(None) => {
            let all: Document = Fields::new();
            assert(document_tree(all) =~= Seq::empty());
            Ok(all)
        },
        Err(err) => Err(err),
    }
}

/// What a configuration asks of the driver. What is wrong with the configuration comes before a
/// missing connection.
pub open spec fn request_of(
    pool: PoolView,
    execution_id: Seq<char>,
    config: JsonView,
    chinese: bool,
) -> Result<FindView, Seq<char>> {
    match collection_of(config, chinese) {
        Ok(collection) => match filter_of(config, chinese) {
            Ok(filter) => match json_field(config, "project"@, chinese) {
                Ok(project) => match selected_connection(pool, execution_id, config, chinese) {
                    Ok(connection) => Ok(
                        FindView {
                            connection,
                            collection,
                            filter,
                            project,
                            limit: limit_of(config),
                        },
                    ),
                    Err(err) => Err(err),
                },
                Err(err) => Err(err),
            },
            Err(err) => Err(err),
        },
        Err(err) => Err(err),
    }
}

/// Reads the configuration into what the driver is asked for. The limit is above zero.
pub fn find_core(pool: &MongoPool, exec_id: &str, config: &Json, locale: &Locale) -> (r: Result<
    FindRequest,
    String,
>)
    ensures
        request_of(pool@, exec_id@, config@, locale.chinese()) == match r {
            Ok(request) => Ok(request@),
            Err(err) => Err(err@),
        },
        r matches Ok(request) ==> request.limit > 0,
{
    let collection: String = match collection_name(config, locale) {
        Ok(collection) => collection,
        Err(err) => {
            return Err(err);
        },
    };
    let filter: Document = match parse_filter(config, locale) {
        Ok(filter) => filter,
        Err(err) => {
            return Err(err);
        },
    };
    let project: Option<Document> = match parse_json_field(config, "project", locale) {
        Ok(project) => project,
        Err(err) => {
            return Err(err);
        },
    };
    let limit: i64 = parse_limit(config);
    match resolve_connection(pool, exec_id, config, locale) {
        Ok(connection) => Ok(FindRequest { connection, collection, filter, project, limit }),
        Err(err) => Err(err),
    }
}

/// The first step of the node: what the driver is asked for, or the report of what is wrong.
pub fn execute(
    pool: &MongoPool,
    execution_id: Option<&str>,
    config: &Json,
    locale: &Locale,
) -> (r: Result<FindRequest, Report>)
    ensures
        first_step(
            request_of(pool@, id_or_default(execution_id), config@, locale.chinese()),
        ) == match r {
            Ok(request) => Ok(request@),
            Err(report) => Err(report@),
        },
        r matches Ok(request) ==> request.limit > 0,
{
    match find_core(pool, id_of(execution_id), config, locale) {
        Ok(request) => Ok(request),
        Err(err) => Err(Report::failure(err)),
    }
}

/// What the driver answers while the node reads.
pub enum FindEvent {
    /// The query was refused.
    Refused(String),
    /// The cursor gave a document.
    Found(Document),
    /// The cursor could not be read.
    Unread(String),
    /// The cursor has no more documents.
    Ended,
}

/// The output of the node: how many documents, and the documents.
pub open spec fn output_of(count: u64, documents: JsonView) -> JsonView {
    JsonView::Object(
        seq![
            ("count"@, JsonView::Number(NumberKind::PosInt(count))),
            ("documents"@, documents),
        ],
    )
}

/// The outcome for the documents that were read, given their JSON.
pub open spec fn outcome_of(count: u64, array: Result<JsonView, Seq<char>>) -> Result<
    ResultView,
    Seq<char>,
> {
    match array {
        Ok(documents) => Ok(succeeded(output_of(count, documents), "true"@)),
        Err(err) => Err(err),
    }
}

/// The report for the documents that were read, given their JSON.
pub fn finish(count: u64, array: Result<Json, String>) -> (r: Report)
    ensures
        r@ == reported(outcome_of(count, viewed_json(array))),
{
    match array {
        Ok(documents) => {
            proof {
                reveal_strlit("count");
                reveal_strlit("documents");
                assert("count"@.len() != "documents"@.len());
            }
            let pairs: Vec<(&'static str, Json)> = vec![
                ("count", Json::Number(Number::from_unsigned(count))),
                ("documents", documents),
            ];
            assert(JsonView::Object(pair_views(pairs@))->Object_0 =~= output_of(
                count,
                documents@,
            )->Object_0);
            Report::of(Ok(ok_result(json_object(pairs))))
        },
        Err(err) => Report::of(Err(err)),
    }
}

/// The report for the documents that were read.
pub open spec fn report_of(docs: Seq<FieldViews>, chinese: bool) -> ReportView {
    reported(outcome_of(docs.len() as u64, array_of(docs, MAX_OUTPUT_BYTES, chinese)))
}

/// Where the node stands after an answer of the driver.
pub open spec fn progress_of(
    gathering: GatheringView,
    event: FindEvent,
    chinese: bool,
) -> ProgressView {
    match event {
        FindEvent::Refused(err) => ProgressView::Done(
            failure(caused(said("查询失败"@, "Query failed"@, chinese), err@)),
        ),
        FindEvent::Unread(err) => ProgressView::Done(
            failure(caused(said("读取结果失败"@, "Failed to read results"@, chinese), err@)),
        ),
        FindEvent::Ended => ProgressView::Done(report_of(gathering.docs, chinese)),
        FindEvent::Found(doc) => found(gathering, document_tree(doc), chinese),
    }
}

/// Where the node stands after a document.
pub open spec fn found(gathering: GatheringView, doc: FieldViews, chinese: bool) -> ProgressView {
    match taken(gathering, doc) {
        TakenView::More(more) => ProgressView::More(more),
        TakenView::Full(docs) => ProgressView::Done(report_of(docs, chinese)),
    }
}

/// The report of the node whose cursor gives these documents and ends.
pub open spec fn report_of_reading(
    gathering: GatheringView,
    given: Seq<FieldViews>,
    chinese: bool,
) -> ReportView
    decreases given.len(),
{
    if given.len() == 0 {
        report_of(gathering.docs, chinese)
    } else {
        match found(gathering, given[0], chinese) {
            ProgressView::More(more) => report_of_reading(more, given.drop_first(), chinese),
            ProgressView::Done(report) => report,
        }
    }
}

/// The documents on which the node reports after an answer, where it is done reading.
pub open spec fn reported_on(gathering: GatheringView, event: FindEvent) -> Option<Seq<FieldViews>> {
    match event {
        FindEvent::Ended => Some(gathering.docs),
        FindEvent::Found(doc) => match taken(gathering, document_tree(doc)) {
            TakenView::More(_) => None,
            TakenView::Full(docs) => Some(docs),
        },
        _ => None,
    }
}

/// Goes on with an answer of the driver. The node is done once the query fails, the cursor cannot
/// be read or ends, or as many documents as the limit are there.
pub fn on_event(gathering: Gathering, event: FindEvent, locale: &Locale) -> (r: Progress)
    ensures
        r@ == progress_of(gathering@, event, locale.chinese()),
        reported_on(gathering@, event) matches Some(docs) ==> all_tame(docs) && any_non_finite(docs)
            ==> r@ == ProgressView::Done(failure(non_finite_message(locale.chinese()))),
{
    match event {
        FindEvent::Refused(err) => Progress::Done(
            Report::failure(message_of("查询失败", "Query failed", err.as_str(), locale)),
        ),
        FindEvent::Unread(err) => Progress::Done(
            Report::failure(
                message_of("读取结果失败", "Failed to read results", err.as_str(), locale),
            ),
        ),
        FindEvent::Ended => {
            let docs: Vec<Document> = gathering.into_docs();
            Progress::Done(finish(docs.len() as u64, bounded_array(&docs, MAX_OUTPUT_BYTES, locale)))
        },
        FindEvent::Found(doc) => match gathering.take(doc) {
            Taken::More(more) => Progress::More(more),
            Taken::Full(docs) => Progress::Done(
                finish(docs.len() as u64, bounded_array(&docs, MAX_OUTPUT_BYTES, locale)),
            ),
        },
    }
}

/// Reading a cursor comes to the report for what is gathered of it.
proof fn lemma_reading(gathering: GatheringView, given: Seq<FieldViews>, chinese: bool)
    ensures
        report_of_reading(gathering, given, chinese) == report_of(
            gathered(gathering, given),
            chinese,
        ),
    decreases given.len(),
{
    if given.len() > 0 {
        match taken(gathering, given[0]) {
            TakenView::More(more) => {
                lemma_reading(more, given.drop_first(), chinese);
            },
            TakenView::Full(_) => {},
        }
    }
}

/// The node reports on the first documents of its cursor, in their order: as many as its limit,
/// or all where there are fewer.
pub proof fn law_the_first_documents_are_reported(
    limit: i64,
    given: Seq<FieldViews>,
    chinese: bool,
)
    requires
        limit > 0,
    ensures
        report_of_reading(GatheringView { limit, docs: Seq::empty() }, given, chinese)
            == report_of(first_of(given, limit), chinese),
{
    lemma_reading(GatheringView { limit, docs: Seq::empty() }, given, chinese);
    law_the_first_documents_are_gathered(limit, given);
}

} // verus!

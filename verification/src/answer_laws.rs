//! What the nodes make of the driver's answers, as the host sees it.
use vstd::prelude::*;

use crate::bson::BsonView;
use crate::bson::document_tree;
use crate::calls::json_bytes;
use crate::calls::json_value;
use crate::calls::settled;
use crate::collect::collected;
use crate::collect::lemma_collected_each;
use crate::collect::lemma_collected_first_error;
use crate::double::finite;
use crate::extended::extended_json;
use crate::extended::non_finite;
use crate::i18n::said;
use crate::json::FieldViews;
use crate::json::doc_json;
use crate::json::docs_json;
use crate::json::stable_doc_json;
use crate::nodes::aggregate;
use crate::nodes::aggregate::AggregateEvent;
use crate::nodes::cursor::GatheringView;
use crate::nodes::cursor::ProgressView;
use crate::nodes::cursor::TakenView;
use crate::nodes::cursor::array_of;
use crate::nodes::cursor::taken;
use crate::nodes::delete;
use crate::nodes::find;
use crate::nodes::find::FindEvent;
use crate::nodes::insert;
use crate::nodes::update;
use crate::nodes::update::UpdateCounts;
use crate::result::ReportView;
use crate::result::ResultView;
use crate::result::first_step;
use crate::result::reported;
use crate::text::decimal;
use crate::text::lemma_decimal_reads_back;
use crate::text::whole_number;
use crate::value::JsonView;
use crate::value::NumberKind;
use crate::value::member;

verus! {

/// A success as the host sees it: this output, the port `true`, and nothing in the log.
pub open spec fn is_success(report: ReportView, output: JsonView) -> bool {
    &&& report.result.success
    &&& report.result.output_data == Some(output)
    &&& report.result.next_ports == seq!["true"@]
    &&& report.result.errors.len() == 0
    &&& report.log is None
}

/// A failure as the host sees it: this message, also in the log as an error, and neither an output
/// nor a port.
pub open spec fn is_failure(report: ReportView, message: Seq<char>) -> bool {
    &&& !report.result.success
    &&& report.result.output_data is None
    &&& report.result.next_ports.len() == 0
    &&& report.result.errors == seq![message]
    &&& report.log == Some(("error"@, message))
}

/// A node that cannot ask reports why, as a failure; one that can does not report yet.
pub proof fn law_what_is_wrong_is_reported<R>(request: Result<R, Seq<char>>)
    ensures
        match first_step(request) {
            Ok(asked) => request == Ok::<R, Seq<char>>(asked),
            Err(report) => request matches Err(message) && is_failure(report, message),
        },
{
}

/// An outcome is reported as it is: a result unchanged and unlogged, a message as a failure.
pub proof fn law_outcomes_are_reported(outcome: Result<ResultView, Seq<char>>)
    ensures
        match outcome {
            Ok(result) => reported(outcome).result == result && reported(outcome).log is None,
            Err(message) => is_failure(reported(outcome), message),
        },
{
}

/// `mongo:insert` and `mongo:delete` put out the number that the driver counted, and report its
/// error behind what failed.
pub proof fn law_counts_are_put_out(answer: Result<u64, Seq<char>>, chinese: bool)
    ensures
        match answer {
            Ok(n) => {
                &&& is_success(
                    reported(insert::outcome_of(answer, chinese)),
                    JsonView::Object(
                        seq![("inserted_count"@, JsonView::Number(NumberKind::PosInt(n)))],
                    ),
                )
                &&& is_success(
                    reported(delete::outcome_of(answer, chinese)),
                    JsonView::Object(
                        seq![("deleted_count"@, JsonView::Number(NumberKind::PosInt(n)))],
                    ),
                )
            },
            Err(err) => {
                &&& is_failure(
                    reported(insert::outcome_of(answer, chinese)),
                    said("插入文档失败"@, "Failed to insert documents"@, chinese) + ": "@ + err,
                )
                &&& is_failure(
                    reported(delete::outcome_of(answer, chinese)),
                    said("删除失败"@, "Delete failed"@, chinese) + ": "@ + err,
                )
            },
        },
{
}

/// `mongo:update` puts out how many documents matched and how many were changed, each under its
/// own name, and reports the driver's error behind what failed.
pub proof fn law_matches_and_changes_are_put_out(
    answer: Result<UpdateCounts, Seq<char>>,
    chinese: bool,
)
    ensures
        match answer {
            Ok(UpdateCounts { matched, modified }) => is_success(
                reported(update::outcome_of(answer, chinese)),
                JsonView::Object(
                    seq![
                        ("matched_count"@, JsonView::Number(NumberKind::PosInt(matched))),
                        ("modified_count"@, JsonView::Number(NumberKind::PosInt(modified))),
                    ],
                ),
            ),
            Err(err) => is_failure(
                reported(update::outcome_of(answer, chinese)),
                said("更新文档失败"@, "Failed to update documents"@, chinese) + ": "@ + err,
            ),
        },
{
}

/// JSON values that are, one for one and in order, the JSON of some documents.
pub open spec fn written_as(
    docs: Seq<FieldViews>,
    items: Seq<JsonView>,
    chinese: bool,
) -> bool {
    &&& items.len() == docs.len()
    &&& forall|i: int|
        0 <= i < docs.len() ==> doc_json(#[trigger] docs[i], chinese) == Ok::<JsonView, Seq<char>>(
            items[i],
        )
}

/// The first of some documents that cannot be written cannot be for this reason.
pub open spec fn first_unwritten(docs: Seq<FieldViews>, err: Seq<char>, chinese: bool) -> bool {
    exists|i: int|
        0 <= i < docs.len() && doc_json(#[trigger] docs[i], chinese) == Err::<JsonView, Seq<char>>(
            err,
        ) && forall|j: int| 0 <= j < i ==> doc_json(#[trigger] docs[j], chinese) is Ok
}

/// Documents are put out whole, one for one and in order, as an array that has at most so many
/// bytes. They are refused for the first of them that cannot be written, for an array that cannot
/// be written, and for one that is too large; and for nothing else.
pub proof fn law_documents_are_put_out_whole(docs: Seq<FieldViews>, most: usize, chinese: bool)
    ensures
        match array_of(docs, most, chinese) {
            Ok(array) => {
                &&& array matches JsonView::Array(items)
                &&& written_as(docs, items, chinese)
                &&& json_bytes(array) matches Ok(bytes)
                &&& bytes.len() <= most
            },
            Err(err) => first_unwritten(docs, err, chinese) || exists|items: Seq<JsonView>|
                #[trigger] written_as(docs, items, chinese) && match json_bytes(
                    JsonView::Array(items),
                ) {
                    Ok(bytes) => bytes.len() > most && err == said(
                        "结果过大，请减小 limit"@,
                        "Result too large; reduce the limit"@,
                        chinese,
                    ),
                    Err(cause) => err == said(
                        "结果序列化失败"@,
                        "Failed to serialize results"@,
                        chinese,
                    ) + ": "@ + cause,
                },
        },
{
    let results = docs_json(docs, chinese);
    lemma_collected_each(results);
    lemma_collected_first_error(results);
    match collected(results) {
        Ok(items) => {
            assert forall|i: int| 0 <= i < docs.len() implies doc_json(
                #[trigger] docs[i],
                chinese,
            ) == Ok::<JsonView, Seq<char>>(items[i]) by {
                assert(results[i] == Ok::<JsonView, Seq<char>>(items[i]));
            }
            assert(written_as(docs, items, chinese));
        },
        Err(err) => {
            let i = choose|i: int|
                0 <= i < results.len() && #[trigger] results[i] == Err::<JsonView, Seq<char>>(err)
                    && forall|j: int| 0 <= j < i ==> (#[trigger] results[j]) is Ok;
            assert(doc_json(docs[i], chinese) == Err::<JsonView, Seq<char>>(err));
            assert forall|j: int| 0 <= j < i implies doc_json(
                #[trigger] docs[j],
                chinese,
            ) is Ok by {
                assert(results[j] is Ok);
            }
        },
    }
}

/// A document is written as the driver's value of it is, unless there is none or it holds a double
/// that is not finite. A document of the types that the library looks into is written in its
/// extended-JSON form, unless it holds such a double.
pub proof fn law_documents_are_written(doc: FieldViews, chinese: bool)
    ensures
        match doc_json(doc, chinese) {
            Ok(json) => {
                &&& settled(BsonView::Document(doc)) matches Ok(value)
                &&& !non_finite(value)
                &&& json_value(value) == Ok::<JsonView, Seq<char>>(json)
            },
            Err(err) => match settled(BsonView::Document(doc)) {
                Ok(value) => if non_finite(value) {
                    err == said(
                        "结果含非有限浮点值"@,
                        "result contains a non-finite floating-point value"@,
                        chinese,
                    )
                } else {
                    json_value(value) matches Err(cause) && err == said(
                        "文档无法转换为 JSON"@,
                        "document could not be converted to JSON"@,
                        chinese,
                    ) + ": "@ + cause
                },
                Err(cause) => err == said(
                    "文档无法转换为 BSON 值"@,
                    "document could not be converted to a BSON value"@,
                    chinese,
                ) + ": "@ + cause,
            },
        },
        match stable_doc_json(doc, chinese) {
            Ok(json) => {
                &&& !non_finite(BsonView::Document(doc))
                &&& json == extended_json(BsonView::Document(doc))
            },
            Err(err) => non_finite(BsonView::Document(doc)) && err == said(
                "结果含非有限浮点值"@,
                "result contains a non-finite floating-point value"@,
                chinese,
            ),
        },
{
}

/// A double that is not finite is found wherever it stands: in an array, in a document, in the
/// scope of code, and so at any depth. Nothing else counts as one.
pub proof fn law_non_finite_doubles_are_found(
    bits: u64,
    items: Seq<BsonView>,
    fields: FieldViews,
    code: Seq<char>,
    value: BsonView,
)
    ensures
        non_finite(BsonView::Double(bits)) <==> !finite(bits),
        non_finite(BsonView::Array(items)) <==> exists|i: int|
            0 <= i < items.len() && non_finite(#[trigger] items[i]),
        non_finite(BsonView::Document(fields)) <==> exists|i: int|
            0 <= i < fields.len() && non_finite((#[trigger] fields[i]).1),
        non_finite(BsonView::CodeWithScope(code, fields)) <==> exists|i: int|
            0 <= i < fields.len() && non_finite((#[trigger] fields[i]).1),
        non_finite(value) ==> value is Double || value is Array || value is Document
            || value is CodeWithScope,
{
    let array = BsonView::Array(items);
    if non_finite(array) {
        let i = choose|i: int|
            0 <= i < array->Array_0.len() && non_finite(#[trigger] array->Array_0[i]);
        assert(non_finite(items[i]));
    }
    if exists|i: int| 0 <= i < items.len() && non_finite(#[trigger] items[i]) {
        let i = choose|i: int| 0 <= i < items.len() && non_finite(#[trigger] items[i]);
        assert(non_finite(array->Array_0[i]));
    }
    let document = BsonView::Document(fields);
    if non_finite(document) {
        let i = choose|i: int|
            0 <= i < document->Document_0.len() && non_finite(
                (#[trigger] document->Document_0[i]).1,
            );
        assert(non_finite(fields[i].1));
    }
    if exists|i: int| 0 <= i < fields.len() && non_finite((#[trigger] fields[i]).1) {
        let i = choose|i: int| 0 <= i < fields.len() && non_finite((#[trigger] fields[i]).1);
        assert(non_finite(document->Document_0[i].1));
    }
    let scoped = BsonView::CodeWithScope(code, fields);
    if non_finite(scoped) {
        let i = choose|i: int|
            0 <= i < scoped->CodeWithScope_1.len() && non_finite(
                (#[trigger] scoped->CodeWithScope_1[i]).1,
            );
        assert(non_finite(fields[i].1));
    }
    if exists|i: int| 0 <= i < fields.len() && non_finite((#[trigger] fields[i]).1) {
        let i = choose|i: int| 0 <= i < fields.len() && non_finite((#[trigger] fields[i]).1);
        assert(non_finite(scoped->CodeWithScope_1[i].1));
    }
}

/// A gathering takes in every document behind those it has, and is full exactly when it has as many
/// as its limit.
pub proof fn law_documents_are_taken_in_order(gathering: GatheringView, doc: FieldViews)
    requires
        gathering.docs.len() < gathering.limit,
    ensures
        match taken(gathering, doc) {
            TakenView::More(more) => {
                &&& more.limit == gathering.limit
                &&& more.docs == gathering.docs.push(doc)
                &&& more.docs.len() < gathering.limit
            },
            TakenView::Full(docs) => {
                &&& docs == gathering.docs.push(doc)
                &&& docs.len() == gathering.limit
            },
        },
{
}

/// The report of `mongo:find` for the documents that it read: their number and the documents, one
/// for one and in order, in at most one and a half mebibytes; or why they cannot be put out.
pub open spec fn find_reports(report: ReportView, docs: Seq<FieldViews>, chinese: bool) -> bool {
    match array_of(docs, 1572864, chinese) {
        Ok(array) => is_success(
            report,
            JsonView::Object(
                seq![
                    ("count"@, JsonView::Number(NumberKind::PosInt(docs.len() as u64))),
                    ("documents"@, array),
                ],
            ),
        ),
        Err(err) => is_failure(report, err),
    }
}

/// `mongo:find` reads on while it has fewer documents than its limit. It reports on what it read
/// once the cursor ends or the limit is reached, and on the driver's error as soon as there is one.
pub proof fn law_find_goes_by_the_answers(
    gathering: GatheringView,
    event: FindEvent,
    chinese: bool,
)
    ensures
        match event {
            FindEvent::Refused(err) => find::progress_of(
                gathering,
                event,
                chinese,
            ) matches ProgressView::Done(report) && is_failure(
                report,
                said("查询失败"@, "Query failed"@, chinese) + ": "@ + err@,
            ),
            FindEvent::Unread(err) => find::progress_of(
                gathering,
                event,
                chinese,
            ) matches ProgressView::Done(report) && is_failure(
                report,
                said("读取结果失败"@, "Failed to read results"@, chinese) + ": "@ + err@,
            ),
            FindEvent::Ended => find::progress_of(
                gathering,
                event,
                chinese,
            ) matches ProgressView::Done(report) && find_reports(
                report,
                gathering.docs,
                chinese,
            ),
            FindEvent::Found(doc) => match find::progress_of(gathering, event, chinese) {
                ProgressView::More(more) => {
                    &&& more.docs == gathering.docs.push(document_tree(doc))
                    &&& more.limit == gathering.limit
                    &&& more.docs.len() < more.limit
                },
                ProgressView::Done(report) => {
                    &&& gathering.docs.len() + 1 >= gathering.limit
                    &&& find_reports(
                        report,
                        gathering.docs.push(document_tree(doc)),
                        chinese,
                    )
                },
            },
        },
{
}

/// The report of `mongo:aggregate` for the documents that it read: the documents, one for one and
/// in order, within its bound of bytes; or why they cannot be put out.
pub open spec fn aggregate_reports(
    report: ReportView,
    docs: Seq<FieldViews>,
    chinese: bool,
) -> bool {
    match array_of(docs, 1500000, chinese) {
        Ok(array) => is_success(report, JsonView::Object(seq![("documents"@, array)])),
        Err(err) => is_failure(report, err),
    }
}

/// `mongo:aggregate` reads on while it has fewer documents than its limit. It reports on what it
/// read once the cursor ends or the limit is reached, and on the driver's error as soon as there is
/// one.
pub proof fn law_aggregate_goes_by_the_answers(
    gathering: GatheringView,
    event: AggregateEvent,
    chinese: bool,
)
    ensures
        match event {
            AggregateEvent::Refused(err) => aggregate::progress_of(
                gathering,
                event,
                chinese,
            ) matches ProgressView::Done(report) && is_failure(
                report,
                said("聚合失败"@, "Aggregation failed"@, chinese) + ": "@ + err@,
            ),
            AggregateEvent::Unread(err) => aggregate::progress_of(
                gathering,
                event,
                chinese,
            ) matches ProgressView::Done(report) && is_failure(
                report,
                said("聚合读取失败"@, "Failed to read aggregation results"@, chinese) + ": "@ + err@,
            ),
            AggregateEvent::Undecoded(err) => aggregate::progress_of(
                gathering,
                event,
                chinese,
            ) matches ProgressView::Done(report) && is_failure(
                report,
                said("聚合结果反序列化失败"@, "Failed to deserialize aggregation result"@, chinese) + ": "@
                    + err@,
            ),
            AggregateEvent::Ended => aggregate::progress_of(
                gathering,
                event,
                chinese,
            ) matches ProgressView::Done(report) && aggregate_reports(
                report,
                gathering.docs,
                chinese,
            ),
            AggregateEvent::Found(doc) => match aggregate::progress_of(gathering, event, chinese) {
                ProgressView::More(more) => {
                    &&& more.docs == gathering.docs.push(document_tree(doc))
                    &&& more.limit == gathering.limit
                    &&& more.docs.len() < more.limit
                },
                ProgressView::Done(report) => {
                    &&& gathering.docs.len() + 1 >= gathering.limit
                    &&& aggregate_reports(
                        report,
                        gathering.docs.push(document_tree(doc)),
                        chinese,
                    )
                },
            },
        },
{
}

/// `mongo:aggregate` waits as long as its configuration gives it, five seconds where it gives
/// nothing, and never less than a tenth of a second.
pub proof fn law_aggregate_waits_as_configured(config: JsonView)
    ensures
        aggregate::wait_of(config) >= 100,
        match member(config, "timeout_ms"@) {
            Some(JsonView::Number(NumberKind::PosInt(millis))) => {
                &&& aggregate::timeout_of(config) == millis
                &&& millis >= 100 ==> aggregate::wait_of(config) == millis
                &&& millis < 100 ==> aggregate::wait_of(config) == 100
            },
            _ => aggregate::timeout_of(config) == 5000 && aggregate::wait_of(config) == 5000,
        },
{
}

/// A node that was given up fails, and names in decimal the time that its configuration gave it.
pub proof fn law_aggregate_names_its_time(config: JsonView, chinese: bool)
    ensures
        is_failure(
            aggregate::timeout_report(config, chinese),
            said("Mongo 操作超时"@, "Mongo operation timed out"@, chinese) + ": "@ + (decimal(
                aggregate::timeout_of(config) as nat,
            ) + "ms"@),
        ),
        whole_number(decimal(aggregate::timeout_of(config) as nat)) == Some(
            aggregate::timeout_of(config) as int,
        ),
{
    lemma_decimal_reads_back(aggregate::timeout_of(config) as nat);
}

} // verus!

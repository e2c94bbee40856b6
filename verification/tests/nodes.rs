use std::future::Future;

use mpe_plugin_mongo::bson::BsonValue;
use mpe_plugin_mongo::bson::Document;
use mpe_plugin_mongo::fields::Fields;
use mpe_plugin_mongo::i18n::Locale;
use mpe_plugin_mongo::json::json_from_text;
use mpe_plugin_mongo::nodes::aggregate;
use mpe_plugin_mongo::nodes::aggregate::aggregate_core;
use mpe_plugin_mongo::nodes::aggregate::parse_pipeline;
use mpe_plugin_mongo::nodes::aggregate::AggregateEvent;
use mpe_plugin_mongo::nodes::aggregate::MAX_RESULT_BYTES;
use mpe_plugin_mongo::nodes::cursor::bounded_array;
use mpe_plugin_mongo::nodes::cursor::check_size;
use mpe_plugin_mongo::nodes::cursor::Gathering;
use mpe_plugin_mongo::nodes::cursor::Progress;
use mpe_plugin_mongo::nodes::delete;
use mpe_plugin_mongo::nodes::delete::delete_core;
use mpe_plugin_mongo::nodes::delete::parse_delete_many;
use mpe_plugin_mongo::nodes::find;
use mpe_plugin_mongo::nodes::find::find_core;
use mpe_plugin_mongo::nodes::find::parse_filter;
use mpe_plugin_mongo::nodes::find::FindEvent;
use mpe_plugin_mongo::nodes::find::MAX_OUTPUT_BYTES;
use mpe_plugin_mongo::nodes::insert;
use mpe_plugin_mongo::nodes::insert::insert_core;
use mpe_plugin_mongo::nodes::parse_limit;
use mpe_plugin_mongo::nodes::resolve_connection_uuid;
use mpe_plugin_mongo::nodes::update;
use mpe_plugin_mongo::nodes::update::parse_update_many;
use mpe_plugin_mongo::nodes::update::update_core;
use mpe_plugin_mongo::nodes::update::UpdateCounts;
use mpe_plugin_mongo::nodes::DEFAULT_LIMIT;
use mpe_plugin_mongo::pool::MongoPool;
use mpe_plugin_mongo::result::Report;
use mpe_plugin_mongo::value::Json;

const URI: &str = "mongodb://localhost:27017";

fn english() -> Locale {
    Locale { name: None }
}

fn chinese() -> Locale {
    Locale { name: Some("zh-CN".to_string()) }
}

fn json(text: &str) -> Json {
    json_from_text(text).expect("JSON must parse")
}

fn doc(key: &str, value: BsonValue) -> Document {
    let mut fields = Fields::new();
    fields.insert(key.to_string(), value);
    fields
}

fn numbered(n: i64) -> Document {
    doc("n", BsonValue::Int64(n))
}

/// `{"age": {"$gt": 18}}`.
fn older_than_18() -> Document {
    doc("age", BsonValue::Document(doc("$gt", BsonValue::Int64(18))))
}

fn run(test: impl Future<Output = ()>) {
    tokio::runtime::Runtime::new().expect("runtime must start").block_on(test);
}

/// A pool in which the execution `exec-1` has the connection `conn-1`.
async fn connected() -> MongoPool {
    let mut pool = MongoPool::default();
    let client = mongodb::Client::with_uri_str(URI).await.expect("lazy client must build");
    pool.connect("exec-1", "conn-1", URI, "db", client);
    pool
}

fn done(progress: Progress) -> Report {
    match progress {
        Progress::Done(report) => report,
        Progress::More(_) => panic!("the node must be done"),
    }
}

fn more(progress: Progress) -> Gathering {
    match progress {
        Progress::More(gathering) => gathering,
        Progress::Done(report) => panic!("the node must read on, got: {report:?}"),
    }
}

/// Without a connection nothing is asked of the driver, and the message speaks of connecting.
#[test]
fn find_without_connect_fails() {
    let pool = MongoPool::default();
    let err = find_core(&pool, "exec-1", &json(r#"{ "collection": "users" }"#), &english())
        .err()
        .expect("must fail without a connection");
    assert!(err.contains("connect"), "message must mention connect, got: {err}");
}

/// A missing limit, zero and numbers below zero are the default; others stay.
#[test]
fn find_limit_parsing() {
    for config in [json("{}"), json(r#"{ "limit": 0 }"#), json(r#"{ "limit": -5 }"#)] {
        assert_eq!(parse_limit(&config), DEFAULT_LIMIT, "config: {config:?}");
    }
    assert_eq!(parse_limit(&json(r#"{ "limit": 50 }"#)), 50);
    assert_eq!(DEFAULT_LIMIT, 100);
}

/// A filter as a text and as an object is the same; without one, everything matches.
#[test]
fn find_filter_string_parses() {
    let as_string = parse_filter(
        &json(r#"{ "filter": "{\"age\": {\"$gt\": 18}}" }"#),
        &english(),
    )
    .expect("string form must parse");
    let as_object = parse_filter(&json(r#"{ "filter": {"age": {"$gt": 18}} }"#), &english())
        .expect("object form must parse");
    assert_eq!(as_string, as_object);
    assert_eq!(as_string, older_than_18());
    assert_eq!(
        parse_filter(&json(r#"{ "collection": "users" }"#), &english()).expect("no error"),
        Fields::new()
    );
    assert_eq!(
        parse_filter(&json(r#"{ "filter": null }"#), &english()).expect("no error"),
        Fields::new()
    );
}

/// Without a collection the message names the field.
#[test]
fn find_missing_collection_errors() {
    let err = find_core(&MongoPool::default(), "exec-1", &json("{}"), &english())
        .err()
        .expect("missing collection must error");
    assert!(
        err.contains("collection"),
        "error must name the collection field, got: {err}"
    );
}

/// What is asked of the driver.
#[test]
fn find_asks_for_what_is_configured() {
    run(async {
        let pool = connected().await;
        let config = json(
            r#"{"connection_uuid": "conn-1", "collection": "users",
                "filter": "{\"age\": {\"$gt\": 18}}", "project": {"_id": 0}, "limit": 3}"#,
        );
        let request = match find::execute(&pool, Some("exec-1"), &config, &english()) {
            Ok(request) => request,
            Err(report) => panic!("must be asked, got: {report:?}"),
        };
        assert_eq!(request.collection, "users");
        assert_eq!(request.filter, older_than_18());
        assert_eq!(request.project, Some(doc("_id", BsonValue::Int64(0))));
        assert_eq!(request.limit, 3);
        assert_eq!(request.connection.database, "db");

        let report = match find::execute(&pool, None, &config, &english()) {
            Err(report) => report,
            Ok(_) => panic!("another execution has no connection"),
        };
        assert_eq!(report.result.errors, vec!["Please connect first".to_string()]);
        assert_eq!(report.log.expect("a failure is logged").level, "error");
    });
}

/// The documents are gathered up to the limit.
#[test]
fn find_gathers_up_to_the_limit() {
    let locale = english();
    let gathering = Gathering::new(2);
    let gathering = more(find::on_event(gathering, FindEvent::Found(numbered(1)), &locale));
    let report = done(find::on_event(gathering, FindEvent::Found(numbered(2)), &locale));
    assert_eq!(
        report.result.output_data,
        Some(json(r#"{"count": 2, "documents": [{"n": 1}, {"n": 2}]}"#))
    );
    assert_eq!(report.result.next_ports, vec!["true".to_string()]);

    let gathering = more(find::on_event(
        Gathering::new(3),
        FindEvent::Found(numbered(1)),
        &locale,
    ));
    let report = done(find::on_event(gathering, FindEvent::Ended, &locale));
    assert_eq!(
        report.result.output_data,
        Some(json(r#"{"count": 1, "documents": [{"n": 1}]}"#))
    );

    let report = done(find::on_event(Gathering::new(3), FindEvent::Ended, &locale));
    assert_eq!(report.result.output_data, Some(json(r#"{"count": 0, "documents": []}"#)));
}

#[test]
fn find_messages() {
    let report = |event: FindEvent, locale: &Locale| {
        let report = done(find::on_event(Gathering::new(1), event, locale));
        assert!(!report.result.success);
        assert_eq!(report.result.next_ports.len(), 0);
        report.result.errors.join("; ")
    };
    assert_eq!(
        report(FindEvent::Refused("why".to_string()), &english()),
        "Query failed: why"
    );
    assert_eq!(report(FindEvent::Refused("why".to_string()), &chinese()), "查询失败: why");
    assert_eq!(
        report(FindEvent::Unread("why".to_string()), &english()),
        "Failed to read results: why"
    );
    assert_eq!(
        report(FindEvent::Unread("why".to_string()), &chinese()),
        "读取结果失败: why"
    );
    assert_eq!(
        report(
            FindEvent::Found(doc("v", BsonValue::Double(f64::NAN.to_bits()))),
            &english()
        ),
        "result contains a non-finite floating-point value"
    );
}

/// A result that has more bytes than its bound is refused.
#[test]
fn large_results_are_refused() {
    let locale = english();
    for most in [MAX_OUTPUT_BYTES, MAX_RESULT_BYTES] {
        assert_eq!(check_size(Ok(vec![0; most]), most, &locale), Ok(()));
        assert_eq!(
            check_size(Ok(vec![0; most + 1]), most, &locale),
            Err("Result too large; reduce the limit".to_string())
        );
        assert_eq!(
            check_size(Ok(vec![0; most + 1]), most, &chinese()),
            Err("结果过大，请减小 limit".to_string())
        );
        assert_eq!(
            check_size(Err("why".to_string()), most, &locale),
            Err("Failed to serialize results: why".to_string())
        );
        assert_eq!(
            check_size(Err("why".to_string()), most, &chinese()),
            Err("结果序列化失败: why".to_string())
        );
        // `[{"s":"` and `"}]` stand around the text.
        let fits = "x".repeat(most - 10);
        let docs = vec![doc("s", BsonValue::String(fits.clone()))];
        assert!(bounded_array(&docs, most, &locale).is_ok());
        let docs = vec![doc("s", BsonValue::String(fits + "x"))];
        assert_eq!(
            bounded_array(&docs, most, &locale),
            Err("Result too large; reduce the limit".to_string())
        );
    }
}

/// `mongo:find` gives back up to one and a half mebibytes, `mongo:aggregate` somewhat less.
#[test]
fn each_node_has_its_bound() {
    let locale = english();
    assert_eq!(MAX_OUTPUT_BYTES, 3 * 1024 * 1024 / 2);
    assert_eq!(MAX_RESULT_BYTES, 1_500_000);
    let found = |size: usize| {
        let document = doc("s", BsonValue::String("x".repeat(size - 10)));
        done(find::on_event(Gathering::new(1), FindEvent::Found(document), &locale)).result
    };
    let aggregated = |size: usize| {
        let document = doc("s", BsonValue::String("x".repeat(size - 10)));
        done(aggregate::on_event(Gathering::new(1), AggregateEvent::Found(document), &locale)).result
    };
    assert!(found(1_500_001).success);
    assert!(found(1_572_864).success);
    assert_eq!(found(1_572_865).errors, vec!["Result too large; reduce the limit".to_string()]);
    assert!(aggregated(1_500_000).success);
    assert_eq!(
        aggregated(1_500_001).errors,
        vec!["Result too large; reduce the limit".to_string()]
    );
}

fn valid_pipeline() -> Json {
    json(
        r#"{ "collection": "users", "pipeline": "[{\"$match\": {\"age\": {\"$gt\": 18}}}]" }"#,
    )
}

#[test]
fn aggregate_without_connect_fails() {
    let pool = MongoPool::default();
    let err = aggregate_core(&pool, "exec-1", &valid_pipeline(), &english())
        .err()
        .expect("aggregate without connect must fail");
    assert!(err.contains("connect"), "got: {err}");
}

/// A pipeline that is missing or empty is refused before anything is asked.
#[test]
fn aggregate_empty_pipeline_fails() {
    let pool = MongoPool::default();
    for config in [
        json(r#"{ "collection": "users" }"#),
        json(r#"{ "collection": "users", "pipeline": [] }"#),
        json(r#"{ "collection": "users", "pipeline": "[]" }"#),
    ] {
        let err = aggregate_core(&pool, "exec-1", &config, &english())
            .err()
            .expect("empty pipeline must fail");
        assert!(err.contains("pipeline"), "got: {err}");
        assert_eq!(err, "pipeline must not be empty");
    }
}

#[test]
fn aggregate_pipeline_parses() {
    let as_string = parse_pipeline(&valid_pipeline(), &english()).expect("string form must parse");
    let as_object = parse_pipeline(
        &json(r#"{ "pipeline": [{"$match": {"age": {"$gt": 18}}}] }"#),
        &english(),
    )
    .expect("object form must parse");
    assert_eq!(as_string, as_object);
    assert_eq!(
        as_object,
        vec![doc("$match", BsonValue::Document(older_than_18()))]
    );
}

#[test]
fn aggregate_parses_limit() {
    assert_eq!(parse_limit(&json(r#"{ "limit": 0 }"#)), 100);
    assert_eq!(parse_limit(&json(r#"{ "limit": -5 }"#)), 100);
    assert_eq!(parse_limit(&json(r#"{ "limit": 50 }"#)), 50);
    assert_eq!(parse_limit(&json("{}")), 100);
    assert_eq!(parse_limit(&json(r#"{ "limit": "many" }"#)), 100);
}

#[test]
fn aggregate_asks_for_what_is_configured() {
    run(async {
        let pool = connected().await;
        let config = json(
            r#"{"connection_uuid": "conn-1", "collection": "users",
                "pipeline": [{"$count": "total"}], "limit": -1}"#,
        );
        let request = match aggregate::execute(&pool, Some("exec-1"), &config, &english()) {
            Ok(request) => request,
            Err(report) => panic!("must be asked, got: {report:?}"),
        };
        assert_eq!(request.collection, "users");
        assert_eq!(
            request.pipeline,
            vec![doc("$count", BsonValue::String("total".to_string()))]
        );
        assert_eq!(request.limit, 100);
    });
}

#[test]
fn aggregate_gathers_up_to_the_limit() {
    let locale = english();
    let report = done(aggregate::on_event(
        Gathering::new(1),
        AggregateEvent::Found(numbered(7)),
        &locale,
    ));
    assert_eq!(report.result.output_data, Some(json(r#"{"documents": [{"n": 7}]}"#)));
    let gathering = more(aggregate::on_event(
        Gathering::new(2),
        AggregateEvent::Found(numbered(7)),
        &locale,
    ));
    let report = done(aggregate::on_event(gathering, AggregateEvent::Ended, &locale));
    assert_eq!(report.result.output_data, Some(json(r#"{"documents": [{"n": 7}]}"#)));
}

#[test]
fn aggregate_messages() {
    let report = |event: AggregateEvent, locale: &Locale| {
        let report = done(aggregate::on_event(Gathering::new(1), event, locale));
        assert!(!report.result.success);
        report.result.errors.join("; ")
    };
    let why = || "why".to_string();
    assert_eq!(report(AggregateEvent::Refused(why()), &english()), "Aggregation failed: why");
    assert_eq!(report(AggregateEvent::Refused(why()), &chinese()), "聚合失败: why");
    assert_eq!(
        report(AggregateEvent::Unread(why()), &english()),
        "Failed to read aggregation results: why"
    );
    assert_eq!(report(AggregateEvent::Unread(why()), &chinese()), "聚合读取失败: why");
    assert_eq!(
        report(AggregateEvent::Undecoded(why()), &english()),
        "Failed to deserialize aggregation result: why"
    );
    assert_eq!(
        report(AggregateEvent::Undecoded(why()), &chinese()),
        "聚合结果反序列化失败: why"
    );
}

/// The node waits for as long as it is given, and never too short; the message names the time
/// that it was given.
#[test]
fn aggregate_times_out() {
    assert_eq!(aggregate::parse_wait(&json("{}")), 5000);
    assert_eq!(aggregate::parse_wait(&json(r#"{"timeout_ms": 99}"#)), 100);
    assert_eq!(aggregate::parse_wait(&json(r#"{"timeout_ms": 101}"#)), 101);
    assert_eq!(aggregate::parse_wait(&json(r#"{"timeout_ms": -1}"#)), 5000);
    let report = aggregate::timed_out(&json(r#"{"timeout_ms": 20}"#), &english());
    assert_eq!(report.result.errors, vec!["Mongo operation timed out: 20ms".to_string()]);
    let report = aggregate::timed_out(&json("{}"), &chinese());
    assert_eq!(report.result.errors, vec!["Mongo 操作超时: 5000ms".to_string()]);
    assert_eq!(report.log.expect("logged").message, "Mongo 操作超时: 5000ms");
}

#[test]
fn delete_parses_many_flag() {
    assert!(parse_delete_many(&json(r#"{ "delete_many": true }"#)));
    assert!(!parse_delete_many(&json(r#"{ "delete_many": false }"#)));
    assert!(!parse_delete_many(&json("{}")));
    assert!(!parse_delete_many(&json(r#"{ "delete_many": "yes" }"#)));
}

#[test]
fn delete_without_connect_fails() {
    let pool = MongoPool::default();
    let config = json(r#"{ "collection": "users", "filter": "{\"name\": \"Alice\"}" }"#);
    let err = delete_core(&pool, "exec-1", &config, &english())
        .err()
        .expect("delete without connect must fail");
    assert!(err.contains("connect"), "got: {err}");
}

#[test]
fn delete_missing_filter_fails() {
    let pool = MongoPool::default();
    let err = delete_core(&pool, "exec-1", &json(r#"{ "collection": "users" }"#), &english())
        .err()
        .expect("delete without filter must fail");
    assert!(err.contains("filter"), "got: {err}");
    assert_eq!(err, "Missing filter field");
}

#[test]
fn delete_asks_and_answers() {
    run(async {
        let pool = connected().await;
        let config = json(
            r#"{"connection_uuid": "conn-1", "collection": "users", "filter": {"n": 1},
                "delete_many": true}"#,
        );
        let request = match delete::execute(&pool, Some("exec-1"), &config, &english()) {
            Ok(request) => request,
            Err(report) => panic!("must be asked, got: {report:?}"),
        };
        assert_eq!(request.filter, numbered(1));
        assert!(request.many);
    });
    let report = delete::finish(Ok(4), &english());
    assert_eq!(report.result.output_data, Some(json(r#"{"deleted_count": 4}"#)));
    let report = delete::finish(Err("why".to_string()), &english());
    assert_eq!(report.result.errors, vec!["Delete failed: why".to_string()]);
    let report = delete::finish(Err("why".to_string()), &chinese());
    assert_eq!(report.result.errors, vec!["删除失败: why".to_string()]);
}

#[test]
fn insert_empty_documents_fails() {
    let pool = MongoPool::default();
    let err = insert_core(
        &pool,
        "exec-1",
        &json(r#"{ "collection": "users", "documents": [] }"#),
        &english(),
    )
    .err()
    .expect("empty documents must fail");
    assert!(err.contains("empty"), "error must mention emptiness, got: {err}");
}

#[test]
fn insert_missing_collection_fails() {
    let pool = MongoPool::default();
    let err = insert_core(
        &pool,
        "exec-1",
        &json(r#"{ "documents": [{ "name": "Alice" }] }"#),
        &english(),
    )
    .err()
    .expect("missing collection must fail");
    assert!(err.contains("collection"), "error must name the field, got: {err}");
}

#[test]
fn insert_without_connect_fails() {
    let pool = MongoPool::default();
    let err = insert_core(
        &pool,
        "exec-1",
        &json(r#"{ "collection": "users", "documents": [{ "name": "Alice", "age": 30 }] }"#),
        &english(),
    )
    .err()
    .expect("missing connection must fail");
    assert!(err.contains("connect"), "error must mention connect, got: {err}");
}

#[test]
fn insert_asks_and_answers() {
    run(async {
        let pool = connected().await;
        let config = json(
            r#"{"connection_uuid": "conn-1", "collection": "users",
                "documents": "[{\"n\": 1}, {\"n\": 2}]"}"#,
        );
        let request = match insert::execute(&pool, Some("exec-1"), &config, &english()) {
            Ok(request) => request,
            Err(report) => panic!("must be asked, got: {report:?}"),
        };
        assert_eq!(request.documents, vec![numbered(1), numbered(2)]);
    });
    let report = insert::finish(Ok(2), &english());
    assert_eq!(report.result.output_data, Some(json(r#"{"inserted_count": 2}"#)));
    let report = insert::finish(Err("why".to_string()), &english());
    assert_eq!(report.result.errors, vec!["Failed to insert documents: why".to_string()]);
    let report = insert::finish(Err("why".to_string()), &chinese());
    assert_eq!(report.result.errors, vec!["插入文档失败: why".to_string()]);
}

#[test]
fn update_without_connect_fails() {
    let pool = MongoPool::default();
    let err = update_core(
        &pool,
        "exec-1",
        &json(
            r#"{ "collection": "users", "filter": { "name": "Alice" },
                 "update": { "$set": { "age": 31 } } }"#,
        ),
        &english(),
    )
    .err()
    .expect("missing connection must fail");
    assert!(err.contains("connect"), "error must mention connect, got: {err}");
}

#[test]
fn update_missing_filter_fails() {
    let pool = MongoPool::default();
    let err = update_core(
        &pool,
        "exec-1",
        &json(r#"{ "collection": "users", "update": { "$set": { "age": 31 } } }"#),
        &english(),
    )
    .err()
    .expect("missing filter must fail");
    assert!(err.contains("filter"), "error must name the field, got: {err}");
}

#[test]
fn update_missing_update_fails() {
    let pool = MongoPool::default();
    let err = update_core(
        &pool,
        "exec-1",
        &json(r#"{ "collection": "users", "filter": { "name": "Alice" } }"#),
        &english(),
    )
    .err()
    .expect("missing update must fail");
    assert!(err.contains("update"), "error must name the field, got: {err}");
}

#[test]
fn update_parses_many_flag() {
    assert!(parse_update_many(&json(r#"{ "update_many": true }"#)));
    assert!(!parse_update_many(&json(r#"{ "update_many": false }"#)));
    assert!(!parse_update_many(&json("{}")));
    assert!(!parse_update_many(&json(r#"{ "update_many": "yes" }"#)));
}

#[test]
fn update_asks_and_answers() {
    run(async {
        let pool = connected().await;
        let config = json(
            r#"{"connection_uuid": "conn-1", "collection": "users", "filter": {"n": 1},
                "update": {"$set": {"n": 2}}, "upsert": true}"#,
        );
        let request = match update::execute(&pool, Some("exec-1"), &config, &english()) {
            Ok(request) => request,
            Err(report) => panic!("must be asked, got: {report:?}"),
        };
        assert_eq!(request.filter, numbered(1));
        assert_eq!(request.update, doc("$set", BsonValue::Document(numbered(2))));
        assert!(request.upsert);
        assert!(!request.many);
    });
    let report = update::finish(Ok(UpdateCounts { matched: 3, modified: 2 }), &english());
    assert_eq!(
        report.result.output_data,
        Some(json(r#"{"matched_count": 3, "modified_count": 2}"#))
    );
    let report = update::finish(Err("why".to_string()), &english());
    assert_eq!(report.result.errors, vec!["Failed to update documents: why".to_string()]);
    let report = update::finish(Err("why".to_string()), &chinese());
    assert_eq!(report.result.errors, vec!["更新文档失败: why".to_string()]);
}

/// A node that selects no connect node asks for a selection.
#[test]
fn a_selection_is_asked_for() {
    let locale = english();
    assert_eq!(
        resolve_connection_uuid(&json(r#"{"connection_uuid": "c"}"#), &locale),
        Ok("c".to_string())
    );
    let asked = "Please select a connection node (missing connection_uuid; add and select a mongo:connect node first)";
    for text in ["{}", r#"{"connection_uuid": ""}"#, r#"{"connection_uuid": 5}"#] {
        assert_eq!(resolve_connection_uuid(&json(text), &locale), Err(asked.to_string()));
        assert_eq!(
            resolve_connection_uuid(&json(text), &chinese()),
            Err("请选择连接节点（缺少 connection_uuid，需先添加 mongo:connect 节点并选择）".to_string())
        );
    }
}

/// What is wrong with the configuration comes before a missing connection.
#[test]
fn configuration_errors_come_first() {
    run(async {
        let empty = MongoPool::default();
        let pool = connected().await;
        let config = json(
            r#"{"connection_uuid": "conn-1", "collection": "users", "filter": "not json"}"#,
        );
        let a = find_core(&pool, "exec-1", &config, &english()).err();
        let b = find_core(&empty, "exec-1", &config, &english()).err();
        assert!(a.is_some());
        assert_eq!(a, b);
    });
}

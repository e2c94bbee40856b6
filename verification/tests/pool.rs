use std::future::Future;
use std::sync::Arc;

use mpe_plugin_mongo::i18n::Locale;
use mpe_plugin_mongo::json::json_from_text;
use mpe_plugin_mongo::nodes::close::close_core;
use mpe_plugin_mongo::nodes::close::execute as execute_close;
use mpe_plugin_mongo::nodes::connect::conclude;
use mpe_plugin_mongo::nodes::connect::connect_core;
use mpe_plugin_mongo::nodes::connect::execute as execute_connect;
use mpe_plugin_mongo::nodes::connect::finish;
use mpe_plugin_mongo::nodes::connect::ConnectRequest;
use mpe_plugin_mongo::nodes::connect::Opened;
use mpe_plugin_mongo::plugin::MongoPlugin;
use mpe_plugin_mongo::pool::pool_key;
use mpe_plugin_mongo::pool::MongoPool;
use mpe_plugin_mongo::value::Json;

const URI: &str = "mongodb://localhost:27017";

fn english() -> Locale {
    Locale { name: None }
}

fn json(text: &str) -> Json {
    json_from_text(text).expect("JSON must parse")
}

/// Runs a test that makes clients.
fn run(test: impl Future<Output = ()>) {
    tokio::runtime::Runtime::new().expect("runtime must start").block_on(test);
}

/// A client that has opened no socket: the driver opens them with the first operation.
async fn make_client(uri: &str) -> mongodb::Client {
    mongodb::Client::with_uri_str(uri).await.expect("lazy client must build")
}

#[test]
fn isolation_between_execution_ids() {
    run(async {
        let mut pool = MongoPool::default();
        let (a, replaced_a) =
            pool.connect("exec-1", "conn-a", URI, "db-a", make_client(URI).await);
        let (b, replaced_b) =
            pool.connect("exec-2", "conn-b", URI, "db-b", make_client(URI).await);
        assert!(!replaced_a);
        assert!(!replaced_b);
        assert!(
            !Arc::ptr_eq(&a, &b),
            "different execution_ids must not share a connection"
        );
        assert_eq!(a.database, "db-a");
        assert_eq!(b.database, "db-b");
    });
}

/// Two connect nodes of one execution do not share a connection.
#[test]
fn same_execution_different_uuids_do_not_share() {
    run(async {
        let mut pool = MongoPool::default();
        let (a, replaced_a) =
            pool.connect("exec-1", "conn-a", URI, "db-a", make_client(URI).await);
        let (b, replaced_b) =
            pool.connect("exec-1", "conn-b", URI, "db-b", make_client(URI).await);
        assert!(!replaced_a);
        assert!(!replaced_b);
        assert!(
            !Arc::ptr_eq(&a, &b),
            "different connection_uuids must not share a connection"
        );
        assert_eq!(a.database, "db-a");
        assert_eq!(b.database, "db-b");
    });
}

#[test]
fn reuse_same_key() {
    run(async {
        let mut pool = MongoPool::default();
        let (first, replaced_first) =
            pool.connect("exec-1", "conn-a", URI, "db", make_client(URI).await);
        let (second, replaced_second) =
            pool.connect("exec-1", "conn-a", URI, "db", make_client(URI).await);
        assert!(!replaced_first);
        assert!(
            Arc::ptr_eq(&first, &second),
            "same execution_id + same connection_uuid + same uri/database must reuse the connection"
        );
        assert!(!replaced_second, "reuse must not report replacement");
    });
}

/// `release` drops every connection of the execution and no other; again, it changes nothing.
#[test]
fn release_removes_all_of_execution() {
    run(async {
        let mut pool = MongoPool::default();
        pool.connect("exec-1", "conn-a", URI, "db", make_client(URI).await);
        pool.connect("exec-1", "conn-b", URI, "db", make_client(URI).await);
        pool.connect("exec-2", "conn-c", URI, "db", make_client(URI).await);
        assert!(pool.client("exec-1", "conn-a").is_some());
        assert!(pool.client("exec-1", "conn-b").is_some());

        pool.release("exec-1");
        assert!(pool.client("exec-1", "conn-a").is_none(), "all of exec-1 must be released");
        assert!(pool.client("exec-1", "conn-b").is_none(), "all of exec-1 must be released");
        assert!(pool.client("exec-2", "conn-c").is_some(), "other executions must survive");

        pool.release("exec-1");
        assert!(pool.client("exec-2", "conn-c").is_some(), "other executions must survive");
    });
}

/// `release_connection` drops one connection of the execution.
#[test]
fn release_connection_removes_single() {
    run(async {
        let mut pool = MongoPool::default();
        pool.connect("exec-1", "conn-a", URI, "db", make_client(URI).await);
        pool.connect("exec-1", "conn-b", URI, "db", make_client(URI).await);

        pool.release_connection("exec-1", "conn-a");
        assert!(
            pool.client("exec-1", "conn-a").is_none(),
            "selected connection must be released"
        );
        assert!(
            pool.client("exec-1", "conn-b").is_some(),
            "unselected connection must survive"
        );
        pool.release_connection("exec-1", "conn-a");
        pool.release_connection("exec-9", "conn-b");
        assert!(pool.client("exec-1", "conn-b").is_some());
    });
}

#[test]
fn different_uri_replaces() {
    run(async {
        let mut pool = MongoPool::default();
        let uri_a = "mongodb://a.example:27017";
        let uri_b = "mongodb://b.example:27017";

        let (first, replaced_first) =
            pool.connect("exec-1", "conn-a", uri_a, "db", make_client(uri_a).await);
        assert!(!replaced_first);

        let (second, replaced_second) =
            pool.connect("exec-1", "conn-a", uri_b, "db", make_client(uri_b).await);
        assert!(replaced_second, "different uri must report replacement");
        assert!(
            !Arc::ptr_eq(&first, &second),
            "a different target must yield a fresh connection"
        );
        assert_eq!(second.uri, uri_b);

        let (third, replaced_third) =
            pool.connect("exec-1", "conn-a", uri_a, "db", make_client(uri_a).await);
        assert!(replaced_third);
        assert_eq!(third.uri, uri_a);
    });
}

/// A different database replaces as well.
#[test]
fn different_database_replaces() {
    run(async {
        let mut pool = MongoPool::default();
        pool.connect("exec-1", "conn-a", URI, "one", make_client(URI).await);
        let (second, replaced) =
            pool.connect("exec-1", "conn-a", URI, "two", make_client(URI).await);
        assert!(replaced);
        assert_eq!(second.database, "two");
        pool.release("exec-1");
        assert!(pool.client("exec-1", "conn-a").is_none());
    });
}

#[test]
fn keys_of_pairs() {
    assert_eq!(pool_key("exec-1", "conn-a"), "exec-1:conn-a");
    assert_eq!(pool_key("", ""), ":");
    assert_ne!(pool_key("a", "bc"), pool_key("ab", "c"));
}

/// Close without a selection releases what the execution has.
#[test]
fn close_releases_pool_entry() {
    run(async {
        let mut pool = MongoPool::default();
        pool.connect("exec-1", "conn-a", URI, "db", make_client(URI).await);
        assert!(pool.client("exec-1", "conn-a").is_some(), "seeded entry must exist");

        let result = close_core(&mut pool, "exec-1", &json("{}"), &english());
        assert!(result.success, "close must succeed");
        assert_eq!(result.output_data, Some(json("{}")), "close outputs an empty object");
        assert!(
            pool.client("exec-1", "conn-a").is_none(),
            "close must release the pooled connection"
        );
    });
}

/// Close with a selection releases the selected connection alone.
#[test]
fn close_releases_only_selected_connection() {
    run(async {
        let mut pool = MongoPool::default();
        pool.connect("exec-1", "conn-a", URI, "db", make_client(URI).await);
        pool.connect("exec-1", "conn-b", URI, "db", make_client(URI).await);

        let result = close_core(
            &mut pool,
            "exec-1",
            &json(r#"{ "connection_uuid": "conn-a" }"#),
            &english(),
        );
        assert!(result.success, "close must succeed");
        assert!(
            pool.client("exec-1", "conn-a").is_none(),
            "selected connection must be released"
        );
        assert!(
            pool.client("exec-1", "conn-b").is_some(),
            "unselected connection must survive"
        );
    });
}

/// Close succeeds where there is nothing to release.
#[test]
fn close_without_connect_is_idempotent() {
    let mut pool = MongoPool::default();
    for _ in 0..2 {
        let result = close_core(&mut pool, "exec-1", &json("{}"), &english());
        assert!(result.success, "idempotent release must succeed");
    }
}

/// Close looks at nothing but the selection.
#[test]
fn close_ignores_config() {
    let mut pool = MongoPool::default();
    let result = close_core(&mut pool, "exec-1", &json(r#"{ "anything": 1 }"#), &english());
    assert!(result.success, "close must succeed regardless of config");
}

/// An empty selection is none: everything is released. The report goes on by `out`.
#[test]
fn close_with_an_empty_selection_releases_all() {
    run(async {
        let mut pool = MongoPool::default();
        pool.connect("default", "conn-a", URI, "db", make_client(URI).await);
        let report =
            execute_close(&mut pool, None, &json(r#"{ "connection_uuid": "" }"#), &english());
        assert_eq!(report.result.next_ports, vec!["out".to_string()]);
        assert_eq!(report.log, None);
        assert!(pool.client("default", "conn-a").is_none());
    });
}

/// A connection string that cannot be read is refused, and nothing is kept.
#[test]
fn connect_rejects_bad_uri() {
    run(async {
        let mut pool = MongoPool::default();
        let config = json(r#"{ "uri": "://bad" }"#);
        let request = match connect_core(&pool, "exec-1", "conn-1", &config) {
            Ok(request) => request,
            Err(result) => panic!("nothing is there to reuse, got: {result:?}"),
        };
        let cause = mongodb::options::ClientOptions::parse(&request.uri)
            .await
            .expect_err("an unparseable URI must error")
            .to_string();
        let err = conclude(
            &mut pool,
            "exec-1",
            "conn-1",
            &request,
            Opened::BadUri(cause.clone()),
            &english(),
        )
        .expect_err("an unparseable URI must error");
        assert!(
            err.contains("URI") && err.contains("parse"),
            "error must be readable and name the URI, got: {err}"
        );
        assert_eq!(err, format!("Failed to parse Mongo URI `://bad`: {cause}"));
        assert!(
            pool.client("exec-1", "conn-1").is_none(),
            "a failed connect must not register a connection"
        );
    });
}

/// Without `uri`, `database` and `timeout_ms` the defaults stand in, and a connection that is
/// there already is used again.
#[test]
fn defaults_reuse_existing_connection() {
    run(async {
        let mut pool = MongoPool::default();
        pool.connect("exec-1", "conn-1", URI, "test", make_client(URI).await);

        let result = match connect_core(&pool, "exec-1", "conn-1", &json("{}")) {
            Err(result) => result,
            Ok(_) => panic!("defaults must succeed via reuse"),
        };
        assert!(result.success, "reuse must succeed");
        assert_eq!(
            result.output_data,
            Some(json(r#"{ "connected": true, "database": "test" }"#)),
            "output must report the default database"
        );
        assert_eq!(result.next_ports, vec!["true".to_string()]);
    });
}

/// What the driver is asked for, with and without the defaults.
#[test]
fn connect_targets() {
    let pool = MongoPool::default();
    let asked = |text: &str| match connect_core(&pool, "e", "u", &json(text)) {
        Ok(request) => (request.uri, request.database, request.timeout_ms),
        Err(result) => panic!("nothing is there to reuse, got: {result:?}"),
    };
    assert_eq!(asked("{}"), (URI.to_string(), "test".to_string(), 5000));
    assert_eq!(
        asked(r#"{"uri": "mongodb://h", "database": "d", "timeout_ms": 7}"#),
        ("mongodb://h".to_string(), "d".to_string(), 7)
    );
    assert_eq!(
        asked(r#"{"uri": 1, "database": null, "timeout_ms": -7}"#),
        (URI.to_string(), "test".to_string(), 5000)
    );
}

/// A connection that was made is kept; one to another database takes its place, and the log says
/// so.
#[test]
fn connect_keeps_and_replaces() {
    run(async {
        let mut pool = MongoPool::default();
        let config = json(r#"{"database": "one"}"#);
        let request = match execute_connect(&pool, Some("e"), Some("u"), &config) {
            Ok(request) => request,
            Err(report) => panic!("nothing is there to reuse, got: {report:?}"),
        };
        let report = finish(
            &mut pool,
            Some("e"),
            Some("u"),
            &request,
            Opened::Ready(make_client(URI).await),
            &english(),
        );
        assert!(report.result.success);
        assert_eq!(report.log, None);
        assert_eq!(
            report.result.output_data,
            Some(json(r#"{"connected": true, "database": "one"}"#))
        );
        assert!(pool.client("e", "u").is_some());

        match execute_connect(&pool, Some("e"), Some("u"), &config) {
            Ok(_) => panic!("the connection is there"),
            Err(report) => {
                assert!(report.result.success);
                assert_eq!(report.log, None);
            }
        }

        let other = json(r#"{"database": "two"}"#);
        let request = match execute_connect(&pool, Some("e"), Some("u"), &other) {
            Ok(request) => request,
            Err(report) => panic!("another database, got: {report:?}"),
        };
        let report = finish(
            &mut pool,
            Some("e"),
            Some("u"),
            &request,
            Opened::Ready(make_client(URI).await),
            &english(),
        );
        assert!(report.result.success);
        let line = report.log.expect("a replacement is logged");
        assert_eq!(line.level, "warn");
        assert_eq!(line.message, "Connection target changed; old connection replaced");
        assert_eq!(pool.client("e", "u").expect("connected").database, "two");
    });
}

/// The messages for a connection that was not made.
#[test]
fn connect_messages() {
    let mut pool = MongoPool::default();
    let request = ConnectRequest {
        uri: "mongodb://h".to_string(),
        database: "d".to_string(),
        timeout_ms: 1,
    };
    let chinese = Locale { name: Some("zh-CN".to_string()) };
    let cases = [
        (
            Opened::BadUri("why".to_string()),
            Opened::BadUri("why".to_string()),
            "Failed to parse Mongo URI `mongodb://h`: why",
            "无法解析 Mongo URI `mongodb://h`: why",
        ),
        (
            Opened::NoClient("why".to_string()),
            Opened::NoClient("why".to_string()),
            "Failed to create Mongo client (`mongodb://h`): why",
            "创建 Mongo 客户端失败 (`mongodb://h`): why",
        ),
        (
            Opened::NoAnswer("why".to_string()),
            Opened::NoAnswer("why".to_string()),
            "Mongo ping failed (cannot connect to `mongodb://h`): why",
            "Mongo ping 失败（无法连接 `mongodb://h`): why",
        ),
    ];
    for (first, second, en, zh) in cases {
        let report = finish(&mut pool, None, None, &request, first, &english());
        assert!(!report.result.success);
        assert_eq!(report.result.errors, vec![en.to_string()]);
        let line = report.log.expect("a failure is logged");
        assert_eq!((line.level.as_str(), line.message.as_str()), ("error", en));
        let report = finish(&mut pool, None, None, &request, second, &chinese);
        assert_eq!(report.result.errors, vec![zh.to_string()]);
        assert!(pool.client("default", "default").is_none());
    }
}

/// The end of a flow releases every connection of its execution.
#[test]
fn flow_ended_releases_pool_entries() {
    run(async {
        let mut plugin = MongoPlugin::default();
        plugin.pool.connect("exec-1", "conn-a", URI, "db", make_client(URI).await);
        plugin.pool.connect("exec-1", "conn-b", URI, "db", make_client(URI).await);
        assert!(plugin.pool.client("exec-1", "conn-a").is_some(), "seeded entry must exist");
        assert!(plugin.pool.client("exec-1", "conn-b").is_some(), "seeded entry must exist");

        plugin.flow_ended("exec-1");
        assert!(
            plugin.pool.client("exec-1", "conn-a").is_none(),
            "flow_ended must release the pooled connection"
        );
        assert!(
            plugin.pool.client("exec-1", "conn-b").is_none(),
            "flow_ended must release every pooled connection"
        );
    });
}

/// A flow may close a connection and end, in either order.
#[test]
fn close_and_flow_end_in_either_order() {
    run(async {
        for close_first in [true, false] {
            let mut plugin = MongoPlugin::default();
            plugin.pool.connect("e", "a", URI, "db", make_client(URI).await);
            plugin.pool.connect("e", "b", URI, "db", make_client(URI).await);
            plugin.pool.connect("f", "a", URI, "db", make_client(URI).await);
            if close_first {
                plugin.pool.release_connection("e", "a");
                plugin.flow_ended("e");
            } else {
                plugin.flow_ended("e");
                plugin.pool.release_connection("e", "a");
            }
            assert!(plugin.pool.client("e", "a").is_none());
            assert!(plugin.pool.client("e", "b").is_none());
            assert!(plugin.pool.client("f", "a").is_some());
        }
    });
}

use std::future::Future;

use mpe_plugin_mongo::describe::PortKind;
use mpe_plugin_mongo::i18n::Locale;
use mpe_plugin_mongo::json::json_from_text;
use mpe_plugin_mongo::nodes::connect;
use mpe_plugin_mongo::plugin::MongoPlugin;
use mpe_plugin_mongo::plugin::Step;
use mpe_plugin_mongo::result::close_ok_result;
use mpe_plugin_mongo::result::ok_result;
use mpe_plugin_mongo::result::ExecuteResult;
use mpe_plugin_mongo::result::Report;
use mpe_plugin_mongo::value::Json;

const URI: &str = "mongodb://localhost:27017";

const COMPLEX_FIELDS: &[(&str, &[&str])] = &[
    ("mongo:find", &["filter", "project"]),
    ("mongo:insert", &["documents"]),
    ("mongo:update", &["filter", "update"]),
    ("mongo:delete", &["filter"]),
    ("mongo:aggregate", &["pipeline"]),
];

fn english() -> Locale {
    Locale { name: None }
}

fn json(text: &str) -> Json {
    json_from_text(text).expect("JSON must parse")
}

fn run(test: impl Future<Output = ()>) {
    tokio::runtime::Runtime::new().expect("runtime must start").block_on(test);
}

fn text<'a>(value: Option<&'a Json>) -> Option<&'a str> {
    match value {
        Some(Json::String(text)) => Some(text),
        _ => None,
    }
}

/// The report of a call that asks nothing of the driver.
fn done(step: Step) -> Report {
    match step {
        Step::Done(report) => report,
        _ => panic!("the call must be done"),
    }
}

/// Every node carries what the host relies on.
#[test]
fn describe_metadata_shapes() {
    let nodes = MongoPlugin::default().describe(&english());
    assert_eq!(nodes.len(), 7, "all 7 mongo nodes must be described");
    for (i, node) in nodes.iter().enumerate() {
        for other in &nodes[i + 1..] {
            assert_ne!(node.type_id, other.type_id, "type_ids must be unique");
        }
    }

    for node in &nodes {
        assert_eq!(node.category, "MongoDB");
        assert!(!node.icon.is_empty(), "{} must declare an icon", node.type_id);
        assert_eq!(node.color, "#10b981");
        assert!(
            node.default_config.get("type").is_none(),
            "{} default_config must not contain a `type` key",
            node.type_id
        );
        if node.type_id != "mongo:connect" {
            assert!(
                node.default_config.get("database").is_none(),
                "{} must not carry `database` (pool-owned, connect-only)",
                node.type_id
            );
        }

        let ports: Vec<(&str, PortKind)> =
            node.ports.iter().map(|port| (port.id.as_str(), port.kind)).collect();
        if node.type_id == "mongo:close" {
            assert_eq!(ports, vec![("in", PortKind::In), ("out", PortKind::Out)]);
        } else {
            assert_eq!(
                ports,
                vec![("in", PortKind::In), ("true", PortKind::Out), ("false", PortKind::Out)]
            );
        }

        let schema = &node.config_schema;
        assert_eq!(text(schema.get("type")), Some("object"));
        let properties = schema.get("properties").expect("properties");
        match properties {
            Json::Object(fields) => {
                for i in 0..fields.len() {
                    assert!(
                        fields.value_at(i).get("type").is_some(),
                        "{} schema property `{}` must declare a type",
                        node.type_id,
                        fields.key_at(i)
                    );
                }
            }
            _ => panic!("{} schema must declare a `properties` map", node.type_id),
        }

        if node.type_id != "mongo:connect" {
            let selector = properties.get("connection_uuid").expect("connection_uuid");
            assert_eq!(text(selector.get("type")), Some("string"));
            assert_eq!(
                text(selector.get("x-node-selector").and_then(|s| s.get("node_type"))),
                Some("mongo:connect"),
                "{} connection_uuid must select mongo:connect nodes",
                node.type_id
            );
        }

        if let Some((_, complex)) = COMPLEX_FIELDS.iter().find(|(id, _)| *id == node.type_id) {
            for &field in *complex {
                let property = properties.get(field).expect("complex field");
                assert_eq!(text(property.get("type")), Some("string"));
                assert_eq!(text(property.get("format")), Some("json"));
            }
        }
    }

    let defaults = |type_id: &str| {
        &nodes.iter().find(|node| node.type_id == type_id).expect("described").default_config
    };
    assert_eq!(
        defaults("mongo:connect"),
        &json(r#"{ "uri": "mongodb://localhost:27017", "database": "mydb", "timeout_ms": 5000 }"#)
    );
    assert_eq!(
        defaults("mongo:find"),
        &json(
            r#"{ "collection": "users", "filter": null, "project": null, "limit": 100,
                 "timeout_ms": 5000 }"#
        )
    );
    assert_eq!(
        defaults("mongo:update"),
        &json(
            r#"{ "collection": "users", "filter": null, "update": null, "upsert": false,
                 "update_many": false, "timeout_ms": 5000 }"#
        )
    );
}

/// One description in full, in each language.
#[test]
fn description_of_find() {
    let nodes = MongoPlugin::default().describe(&english());
    let node = &nodes[1];
    assert_eq!(node.display_name, "Mongo Find");
    assert_eq!(node.icon, "search");
    assert!(!node.capabilities.single_node);
    assert_eq!(node.ports[1].name, "Success");
    assert_eq!(
        node.config_schema,
        json(
            r#"{ "type": "object", "properties": {
                "connection_uuid": { "type": "string", "title": "Mongo Connection",
                    "x-node-selector": { "node_type": "mongo:connect" } },
                "collection": { "type": "string", "description": "Collection name" },
                "filter": { "type": "string", "format": "json",
                    "description": "JSON text, e.g. {\"age\": {\"$gt\": 18}}" },
                "project": { "type": "string", "format": "json",
                    "description": "JSON text, e.g. {\"name\": 1, \"_id\": 0}; null means no projection" },
                "limit": { "type": "integer", "description": "Maximum documents to return" },
                "timeout_ms": { "type": "integer", "description": "Operation timeout (ms)" } },
                "required": ["collection"] }"#
        )
    );
    let nodes = MongoPlugin::default()
        .describe(&Locale { name: Some("zh-CN".to_string()) });
    assert!(nodes[0].capabilities.single_node);
    assert_eq!(nodes[6].ports[1].name, "输出");
    assert_eq!(
        text(nodes[5].config_schema.get("properties").and_then(|p| p.get("limit")).and_then(|l| l.get("description"))),
        Some("返回条数上限")
    );
}

/// A success goes on by `true`, that of `mongo:close` by `out`.
#[test]
fn ok_results_route_to_true() {
    assert_eq!(
        ok_result(json("{}")).next_ports,
        vec!["true".to_string()],
        "operation nodes must route success to the true port"
    );
    assert_eq!(
        close_ok_result(json("{}")).next_ports,
        vec!["out".to_string()],
        "close must route success to the out port"
    );
    let failed = ExecuteResult::fail("why".to_string());
    assert!(!failed.success);
    assert_eq!(failed.errors, vec!["why".to_string()]);
    assert!(failed.next_ports.is_empty());
}

#[test]
fn describe_returns_seven_nodes() {
    let nodes = MongoPlugin::default().describe(&english());
    assert_eq!(nodes.len(), 7);
    for expected in [
        "mongo:connect",
        "mongo:find",
        "mongo:insert",
        "mongo:update",
        "mongo:delete",
        "mongo:aggregate",
        "mongo:close",
    ] {
        assert!(
            nodes.iter().any(|node| node.type_id == expected),
            "missing node type `{expected}`"
        );
    }
}

#[test]
fn execute_close_without_execution_id_succeeds() {
    let mut plugin = MongoPlugin::default();
    let step = plugin.execute(None, None, &json(r#"{"type":"mongo:close"}"#), &english());
    assert!(done(step).result.success, "close without execution_id must succeed");
}

#[test]
fn execute_find_without_connect_fails() {
    let mut plugin = MongoPlugin::default();
    let config = json(r#"{"type":"mongo:find","collection":"users"}"#);
    let report = done(plugin.execute(None, None, &config, &english()));
    assert!(!report.result.success);
    let joined = report.result.errors.join(" ");
    assert!(joined.contains("connect"), "error must hint at connect, got: {joined}");
    assert!(report.log.is_some());
}

#[test]
fn execute_unknown_type_fails() {
    let mut plugin = MongoPlugin::default();
    let report =
        done(plugin.execute(None, None, &json(r#"{"type":"mongo:nope"}"#), &english()));
    assert!(!report.result.success, "unknown type must fail, not silently succeed");
    let joined = report.result.errors.join(" ");
    assert!(joined.contains("mongo:nope"), "error must name the offending type, got: {joined}");
    assert_eq!(joined, "Unknown node type `mongo:nope`");
    assert_eq!(report.log, None);
}

#[test]
fn execute_missing_type_fails() {
    let mut plugin = MongoPlugin::default();
    let report = done(plugin.execute(None, None, &json(r#"{"collection":"x"}"#), &english()));
    assert!(!report.result.success);
    let joined = report.result.errors.join(" ");
    assert!(!joined.is_empty(), "missing type must produce an error message");
    assert!(
        joined.contains("Unknown node type"),
        "error must be the unknown-node-type message, got: {joined}"
    );
    assert_eq!(joined, "Unknown node type ``");
}

/// Each described node is run.
#[test]
fn described_nodes_are_run() {
    let mut plugin = MongoPlugin::default();
    for node in plugin.describe(&english()) {
        let config = json(&format!(r#"{{"type": "{}"}}"#, node.type_id));
        match plugin.execute(None, None, &config, &english()) {
            Step::Done(report) => {
                for error in &report.result.errors {
                    assert!(!error.contains("Unknown node type"), "got: {error}");
                }
            }
            Step::Connect(_) => assert_eq!(node.type_id, "mongo:connect"),
            _ => panic!("{} asks the driver without a connection", node.type_id),
        }
    }
}

/// A flow: it connects, its nodes find the connection, and another execution does not; after
/// `mongo:close`, and after its end, nothing is found.
#[test]
fn a_flow_from_connect_to_close() {
    run(async {
        let mut plugin = MongoPlugin::default();
        let locale = english();
        let connect_config = json(r#"{"type": "mongo:connect", "database": "db"}"#);
        let find_config =
            json(r#"{"type": "mongo:find", "collection": "users", "connection_uuid": "c"}"#);
        for by_close in [true, false] {
            let request = match plugin.execute(Some("e"), Some("c"), &connect_config, &locale) {
                Step::Connect(request) => request,
                _ => panic!("a client must be asked for"),
            };
            let client = mongodb::Client::with_uri_str(URI).await.expect("lazy client");
            let report = connect::finish(
                &mut plugin.pool,
                Some("e"),
                Some("c"),
                &request,
                connect::Opened::Ready(client),
                &locale,
            );
            assert!(report.result.success);
            match plugin.execute(Some("e"), None, &find_config, &locale) {
                Step::Find(request) => assert_eq!(request.connection.database, "db"),
                _ => panic!("the connection must be found"),
            }
            let other = done(plugin.execute(Some("f"), None, &find_config, &locale));
            assert_eq!(other.result.errors, vec!["Please connect first".to_string()]);
            if by_close {
                let close = json(r#"{"type": "mongo:close"}"#);
                assert!(done(plugin.execute(Some("e"), None, &close, &locale)).result.success);
            } else {
                plugin.flow_ended("e");
            }
            let after = done(plugin.execute(Some("e"), None, &find_config, &locale));
            assert_eq!(after.result.errors, vec!["Please connect first".to_string()]);
        }
    });
}

/// Every kind of request comes out of the dispatch.
#[test]
fn requests_of_each_node() {
    run(async {
        let mut plugin = MongoPlugin::default();
        let client = mongodb::Client::with_uri_str(URI).await.expect("lazy client");
        plugin.pool.connect("e", "c", URI, "db", client);
        let mut step = |config: &str| plugin.execute(Some("e"), None, &json(config), &english());
        assert!(matches!(
            step(r#"{"type": "mongo:insert", "collection": "u", "connection_uuid": "c", "documents": [{}]}"#),
            Step::Insert(_)
        ));
        assert!(matches!(
            step(r#"{"type": "mongo:update", "collection": "u", "connection_uuid": "c", "filter": {}, "update": {}}"#),
            Step::Update(_)
        ));
        assert!(matches!(
            step(r#"{"type": "mongo:delete", "collection": "u", "connection_uuid": "c", "filter": {}}"#),
            Step::Delete(_)
        ));
        assert!(matches!(
            step(r#"{"type": "mongo:aggregate", "collection": "u", "connection_uuid": "c", "pipeline": [{}]}"#),
            Step::Aggregate(_)
        ));
    });
}

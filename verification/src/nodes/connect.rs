//! `mongo:connect`: makes a connection and keeps it for the execution.
//!
//! Configuration: `uri`, `database` and `timeout_ms`, each with a default. Output:
//! `{"connected": true, "database": name}`.
//!
//! Where the execution has the connection already, to the same server and database, it is used
//! again: no client is made and the server is not asked. Else a client is made and the server is
//! asked for a sign of life, and only then the connection is kept; it takes the place of one to
//! another server or database.
use vstd::prelude::*;

use crate::i18n::Locale;
use crate::i18n::message;
use crate::i18n::said;
use crate::nodes::id_of;
use crate::nodes::id_or_default;
use crate::pool::MongoPool;
use crate::pool::PoolView;
use crate::pool::connection_of;
use crate::pool::connects;
use crate::pool::replaces;
use crate::result::ExecuteResult;
use crate::result::LogLine;
use crate::result::Report;
use crate::result::ReportView;
use crate::result::ResultView;
use crate::result::failure;
use crate::result::ok_result;
use crate::result::reported;
use crate::result::succeeded;
use crate::text::same;
use crate::value::Json;
use crate::value::JsonView;
use crate::value::json_object;
use crate::value::json_string;
use crate::value::member_text;
use crate::value::member_u64;
use crate::value::pair_views;

verus! {

/// The time that making a connection takes at most, in milliseconds, where none is given.
pub const DEFAULT_TIMEOUT_MS: u64 = 5000;

/// What the driver is asked for: a client for this server that answers in time.
pub struct ConnectRequest {
    pub uri: String,
    pub database: String,
    pub timeout_ms: u64,
}

/// What a request holds.
pub struct ConnectView {
    pub uri: Seq<char>,
    pub database: Seq<char>,
    pub timeout_ms: u64,
}

impl View for ConnectRequest {
    type V = ConnectView;

    open spec fn view(&self) -> ConnectView {
        ConnectView { uri: self.uri@, database: self.database@, timeout_ms: self.timeout_ms }
    }
}

/// What a configuration asks for, with the defaults in for what it does not give.
pub open spec fn target_of(config: JsonView) -> ConnectView {
    ConnectView {
        uri: match member_text(config, "uri"@) {
            Some(uri) => uri,
            None => "mongodb://localhost:27017"@,
        },
        database: match member_text(config, "database"@) {
            Some(database) => database,
            None => "test"@,
        },
        timeout_ms: match member_u64(config, "timeout_ms"@) {
            Some(millis) => millis,
            None => DEFAULT_TIMEOUT_MS,
        },
    }
}

/// Reads what a configuration asks for.
pub fn parse_target(config: &Json) -> (target: ConnectRequest)
    ensures
        target@ == target_of(config@),
{
    let uri: String = match config.text_at("uri") {
        Some(uri) => uri.clone(),
        None => "mongodb://localhost:27017".to_owned(),
    };
    let database: String = match config.text_at("database") {
        Some(database) => database.clone(),
        None => "test".to_owned(),
    };
    let timeout_ms: u64 = match config.u64_at("timeout_ms") {
        Some(millis) => millis,
        None => DEFAULT_TIMEOUT_MS,
    };
    ConnectRequest { uri, database, timeout_ms }
}

/// The result of a connection to a database.
pub open spec fn connected_result(database: Seq<char>) -> ResultView {
    succeeded(
        JsonView::Object(
            seq![
                ("connected"@, JsonView::Bool(true)),
                ("database"@, JsonView::String(database)),
            ],
        ),
        "true"@,
    )
}

/// The result of a connection to a database.
fn connected(database: &str) -> (r: ExecuteResult)
    ensures
        r@ == connected_result(database@),
{
    proof {
        reveal_strlit("connected");
        reveal_strlit("database");
        assert("connected"@.len() != "database"@.len());
    }
    let pairs: Vec<(&'static str, Json)> = vec![
        ("connected", Json::Bool(true)),
        ("database", json_string(database)),
    ];
    assert(pair_views(pairs@) =~= seq![
        ("connected"@, JsonView::Bool(true)),
        ("database"@, JsonView::String(database@)),
    ]);
    ok_result(json_object(pairs))
}

/// What a configuration comes to first: the result where the connection is there, else what the
/// driver is asked for.
pub open spec fn step_of(
    pool: PoolView,
    execution_id: Seq<char>,
    connection_uuid: Seq<char>,
    config: JsonView,
) -> Result<ConnectView, ResultView> {
    let target = target_of(config);
    if connection_of(pool, execution_id, connection_uuid) matches Some(existing)
        && existing.targets(target.uri, target.database) {
        Err(connected_result(target.database))
    } else {
        Ok(target)
    }
}

/// Reads the configuration. Where the connection is there already, the result comes at once, as
/// the error; else comes what the driver is asked for.
pub fn connect_core(
    pool: &MongoPool,
    exec_id: &str,
    connection_uuid: &str,
    config: &Json,
) -> (r: Result<ConnectRequest, ExecuteResult>)
    ensures
        step_of(pool@, exec_id@, connection_uuid@, config@) == match r {
            Ok(request) => Ok(request@),
            Err(result) => Err(result@),
        },
{
    let target: ConnectRequest = parse_target(config);
    match pool.client(exec_id, connection_uuid) {
        Some(existing) => {
            if same(existing.uri.as_str(), target.uri.as_str()) && same(
                existing.database.as_str(),
                target.database.as_str(),
            ) {
                return Err(connected(target.database.as_str()));
            }
        },
        None => {},
    }
    Ok(target)
}

/// The first step of the node: what the driver is asked for, or the report where the connection
/// is there already. The connection is that of this node's instance.
pub fn execute(
    pool: &MongoPool,
    execution_id: Option<&str>,
    node_instance_id: Option<&str>,
    config: &Json,
) -> (r: Result<ConnectRequest, Report>)
    ensures
        match step_of(
            pool@,
            id_or_default(execution_id),
            id_or_default(node_instance_id),
            config@,
        ) {
            Ok(target) => r matches Ok(request) && request@ == target,
            Err(result) => r matches Err(report) && report@ == reported(Ok(result)),
        },
{
    match connect_core(pool, id_of(execution_id), id_of(node_instance_id), config) {
        Ok(request) => Ok(request),
        Err(result) => Err(Report::of(Ok(result))),
    }
}

/// What came of making a client.
pub enum Opened {
    /// The connection string could not be read.
    BadUri(String),
    /// The client could not be made.
    NoClient(String),
    /// The server gave no sign of life.
    NoAnswer(String),
    /// The client is ready.
    Ready(mongodb::Client),
}

/// A message about a server, with the signs that stand before and behind its connection string.
pub open spec fn about(
    message: Seq<char>,
    before: Seq<char>,
    uri: Seq<char>,
    behind: Seq<char>,
    err: Seq<char>,
) -> Seq<char> {
    message + before + uri + behind + err
}

/// The message for a connection that was not made.
pub open spec fn refusal(opened: Opened, uri: Seq<char>, chinese: bool) -> Seq<char> {
    match opened {
        Opened::BadUri(err) => about(
            said("无法解析 Mongo URI"@, "Failed to parse Mongo URI"@, chinese),
            " `"@,
            uri,
            "`: "@,
            err@,
        ),
        Opened::NoClient(err) => about(
            said("创建 Mongo 客户端失败"@, "Failed to create Mongo client"@, chinese),
            " (`"@,
            uri,
            "`): "@,
            err@,
        ),
        Opened::NoAnswer(err) => about(
            said("Mongo ping 失败（无法连接"@, "Mongo ping failed (cannot connect to"@, chinese),
            " `"@,
            uri,
            "`): "@,
            err@,
        ),
        Opened::Ready(_) => Seq::empty(),
    }
}

/// Writes a message about a server.
fn message_about(
    message: String,
    before: &str,
    uri: &str,
    behind: &str,
    err: &str,
) -> (r: String)
    ensures
        r@ == about(message@, before@, uri@, behind@, err@),
{
    let mut r: String = message;
    r.append(before);
    r.append(uri);
    r.append(behind);
    r.append(err);
    r
}

/// What the pool `before` becomes, and what is reported, for what came of making a client. Where no
/// client is ready, the pool stays as it was.
pub open spec fn concludes(
    before: PoolView,
    after: PoolView,
    execution_id: Seq<char>,
    connection_uuid: Seq<char>,
    target: ConnectView,
    opened: Opened,
    report: ReportView,
    chinese: bool,
) -> bool {
    match opened {
        Opened::Ready(client) => {
            &&& connects(
                before,
                after,
                execution_id,
                connection_uuid,
                target.uri,
                target.database,
                client,
            )
            &&& report == report_of(
                Ok(
                    (
                        connected_result(target.database),
                        replaces(
                            before,
                            execution_id,
                            connection_uuid,
                            target.uri,
                            target.database,
                        ),
                    ),
                ),
                chinese,
            )
        },
        _ => after == before && report == failure(refusal(opened, target.uri, chinese)),
    }
}

/// Keeps the connection for what came of making a client, and gives the node's result with
/// whether a connection was replaced. Where no client is ready, the pool stays as it was.
pub fn conclude(
    pool: &mut MongoPool,
    exec_id: &str,
    connection_uuid: &str,
    request: &ConnectRequest,
    opened: Opened,
    locale: &Locale,
) -> (r: Result<(ExecuteResult, bool), String>)
    ensures
        match opened {
            Opened::Ready(client) => r matches Ok(done) && done.0@ == connected_result(
                request@.database,
            ) && connects(
                old(pool)@,
                final(pool)@,
                exec_id@,
                connection_uuid@,
                request@.uri,
                request@.database,
                client,
            ) && done.1 == replaces(
                old(pool)@,
                exec_id@,
                connection_uuid@,
                request@.uri,
                request@.database,
            ),
            _ => r matches Err(err) && err@ == refusal(opened, request@.uri, locale.chinese())
                && final(pool)@ == old(pool)@,
        },
        concludes(
            old(pool)@,
            final(pool)@,
            exec_id@,
            connection_uuid@,
            request@,
            opened,
            report_of(
                match r {
                    Ok(done) => Ok((done.0@, done.1)),
                    Err(err) => Err(err@),
                },
                locale.chinese(),
            ),
            locale.chinese(),
        ),
{
    let uri: &str = request.uri.as_str();
    match opened {
        Opened::BadUri(err) => Err(
            message_about(
                message("无法解析 Mongo URI", "Failed to parse Mongo URI", locale),
                " `",
                uri,
                "`: ",
                err.as_str(),
            ),
        ),
        Opened::NoClient(err) => Err(
            message_about(
                message("创建 Mongo 客户端失败", "Failed to create Mongo client", locale),
                " (`",
                uri,
                "`): ",
                err.as_str(),
            ),
        ),
        Opened::NoAnswer(err) => Err(
            message_about(
                message(
                    "Mongo ping 失败（无法连接",
                    "Mongo ping failed (cannot connect to",
                    locale,
                ),
                " `",
                uri,
                "`): ",
                err.as_str(),
            ),
        ),
        Opened::Ready(client) => {
            let database: &str = request.database.as_str();
            let (_, replaced) = pool.connect(exec_id, connection_uuid, uri, database, client);
            Ok((connected(database), replaced))
        },
    }
}

/// The report of an outcome: where a connection was replaced, the log says so.
pub open spec fn report_of(
    outcome: Result<(ResultView, bool), Seq<char>>,
    chinese: bool,
) -> ReportView {
    match outcome {
        Ok((result, replaced)) => ReportView {
            result,
            log: if replaced {
                Some(
                    (
                        "warn"@,
                        said(
                            "连接目标变化，已替换旧连接"@,
                            "Connection target changed; old connection replaced"@,
                            chinese,
                        ),
                    ),
                )
            } else {
                None
            },
        },
        Err(err) => failure(err),
    }
}

/// Reports an outcome.
pub fn report(outcome: Result<(ExecuteResult, bool), String>, locale: &Locale) -> (r: Report)
    ensures
        r@ == report_of(
            match outcome {
                Ok(done) => Ok((done.0@, done.1)),
                Err(err) => Err(err@),
            },
            locale.chinese(),
        ),
{
    match outcome {
        Ok((result, replaced)) => {
            let log: Option<LogLine> = if replaced {
                Some(
                    LogLine {
                        level: "warn".to_owned(),
                        message: message(
                            "连接目标变化，已替换旧连接",
                            "Connection target changed; old connection replaced",
                            locale,
                        ),
                    },
                )
            } else {
                None
            };
            Report { result, log }
        },
        Err(err) => Report::failure(err),
    }
}

/// The last step of the node: keeps the connection for what came of making a client, and gives
/// the node's report.
pub fn finish(
    pool: &mut MongoPool,
    execution_id: Option<&str>,
    node_instance_id: Option<&str>,
    request: &ConnectRequest,
    opened: Opened,
    locale: &Locale,
) -> (r: Report)
    ensures
        match opened {
            Opened::Ready(client) => connects(
                old(pool)@,
                final(pool)@,
                id_or_default(execution_id),
                id_or_default(node_instance_id),
                request@.uri,
                request@.database,
                client,
            ) && r@ == report_of(
                Ok(
                    (
                        connected_result(request@.database),
                        replaces(
                            old(pool)@,
                            id_or_default(execution_id),
                            id_or_default(node_instance_id),
                            request@.uri,
                            request@.database,
                        ),
                    ),
                ),
                locale.chinese(),
            ),
            _ => final(pool)@ == old(pool)@ && r@ == failure(
                refusal(opened, request@.uri, locale.chinese()),
            ),
        },
        concludes(
            old(pool)@,
            final(pool)@,
            id_or_default(execution_id),
            id_or_default(node_instance_id),
            request@,
            opened,
            r@,
            locale.chinese(),
        ),
{
    report(
        conclude(
            pool,
            id_of(execution_id),
            id_of(node_instance_id),
            request,
            opened,
            locale,
        ),
        locale,
    )
}

} // verus!

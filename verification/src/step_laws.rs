//! What a call comes to: which node runs, for whom, and what becomes of the pool.
use vstd::prelude::*;

use crate::answer_laws::is_failure;
use crate::i18n::Locale;
use crate::i18n::said;
use crate::nodes::aggregate;
use crate::nodes::close::closed;
use crate::nodes::connect;
use crate::nodes::connect::Opened;
use crate::nodes::delete;
use crate::nodes::find;
use crate::nodes::id_or_default;
use crate::nodes::insert;
use crate::nodes::update;
use crate::plugin::StepView;
use crate::plugin::pool_after;
use crate::plugin::step_of;
use crate::plugin_laws::lemma_types;
use crate::pool::PoolView;
use crate::pool::connection_of;
use crate::pool::without_connection;
use crate::pool::without_execution;
use crate::result::ReportView;
use crate::result::ResultView;
use crate::value::JsonView;
use crate::value::NumberKind;
use crate::value::member;

verus! {

/// Chinese is spoken for the locale `zh-CN` and for no other.
pub proof fn law_the_language_is_the_locale(locale: Locale, zh: Seq<char>, en: Seq<char>)
    ensures
        locale.chinese() <==> (locale.name matches Some(name) && name@ == "zh-CN"@),
        said(zh, en, true) == zh,
        said(zh, en, false) == en,
{
}

/// A call that names no execution, or no instance, runs under the id `default`, and any other under
/// the id that it names.
pub proof fn law_ids_are_kept(id: &str)
    ensures
        id_or_default(Some(id)) == id@,
        id_or_default(None) == "default"@,
{
}

/// A configuration is that of this node.
pub open spec fn is_for(config: JsonView, node_type: Seq<char>) -> bool {
    member(config, "type"@) == Some(JsonView::String(node_type))
}

/// The node that the field `type` names is the one that runs, on the call's own execution and
/// configuration: what it asks of the driver is asked, and what is wrong is reported.
pub proof fn law_the_named_node_runs(
    pool: PoolView,
    execution_id: Seq<char>,
    node_instance_id: Seq<char>,
    config: JsonView,
    chinese: bool,
)
    ensures
        ({
            let step = step_of(pool, execution_id, node_instance_id, config, chinese);
            &&& is_for(config, "mongo:find"@) ==> match find::request_of(
                pool,
                execution_id,
                config,
                chinese,
            ) {
                Ok(request) => step == StepView::Find(request),
                Err(err) => step matches StepView::Done(report) && is_failure(report, err),
            }
            &&& is_for(config, "mongo:insert"@) ==> match insert::request_of(
                pool,
                execution_id,
                config,
                chinese,
            ) {
                Ok(request) => step == StepView::Insert(request),
                Err(err) => step matches StepView::Done(report) && is_failure(report, err),
            }
            &&& is_for(config, "mongo:update"@) ==> match update::request_of(
                pool,
                execution_id,
                config,
                chinese,
            ) {
                Ok(request) => step == StepView::Update(request),
                Err(err) => step matches StepView::Done(report) && is_failure(report, err),
            }
            &&& is_for(config, "mongo:delete"@) ==> match delete::request_of(
                pool,
                execution_id,
                config,
                chinese,
            ) {
                Ok(request) => step == StepView::Delete(request),
                Err(err) => step matches StepView::Done(report) && is_failure(report, err),
            }
            &&& is_for(config, "mongo:aggregate"@) ==> match aggregate::request_of(
                pool,
                execution_id,
                config,
                chinese,
            ) {
                Ok(request) => step == StepView::Aggregate(request),
                Err(err) => step matches StepView::Done(report) && is_failure(report, err),
            }
            &&& is_for(config, "mongo:connect"@) ==> match connect::step_of(
                pool,
                execution_id,
                node_instance_id,
                config,
            ) {
                Ok(request) => step == StepView::Connect(request),
                Err(result) => step matches StepView::Done(report) && report.result == result
                    && report.log is None,
            }
            &&& is_for(config, "mongo:close"@) ==> {
                &&& step matches StepView::Done(report)
                &&& report.result.success
                &&& report.result.output_data == Some(JsonView::Object(Seq::empty()))
                &&& report.result.next_ports == seq!["out"@]
                &&& report.result.errors.len() == 0
                &&& report.log is None
            }
        }),
{
    lemma_types();
}

/// Only a node asks what is its own to ask: a read, an insert, an update, a delete, a pipeline or a
/// connection comes of no other type.
pub proof fn law_nothing_is_asked_but_by_its_node(
    pool: PoolView,
    execution_id: Seq<char>,
    node_instance_id: Seq<char>,
    config: JsonView,
    chinese: bool,
)
    ensures
        match step_of(pool, execution_id, node_instance_id, config, chinese) {
            StepView::Find(_) => is_for(config, "mongo:find"@),
            StepView::Insert(_) => is_for(config, "mongo:insert"@),
            StepView::Update(_) => is_for(config, "mongo:update"@),
            StepView::Delete(_) => is_for(config, "mongo:delete"@),
            StepView::Aggregate(_) => is_for(config, "mongo:aggregate"@),
            StepView::Connect(_) => is_for(config, "mongo:connect"@),
            StepView::Done(_) => true,
        },
{
    lemma_types();
}

/// A call of another type, or of none, fails with a message that names the type, and is not logged.
pub proof fn law_other_types_are_unknown(
    pool: PoolView,
    execution_id: Seq<char>,
    node_instance_id: Seq<char>,
    config: JsonView,
    chinese: bool,
)
    requires
        !is_for(config, "mongo:connect"@),
        !is_for(config, "mongo:find"@),
        !is_for(config, "mongo:insert"@),
        !is_for(config, "mongo:update"@),
        !is_for(config, "mongo:delete"@),
        !is_for(config, "mongo:aggregate"@),
        !is_for(config, "mongo:close"@),
    ensures
        step_of(pool, execution_id, node_instance_id, config, chinese) matches StepView::Done(
            report,
        ) && {
            let named = match member(config, "type"@) {
                Some(JsonView::String(name)) => name,
                _ => Seq::empty(),
            };
            &&& !report.result.success
            &&& report.result.output_data is None
            &&& report.result.next_ports.len() == 0
            &&& report.result.errors == seq![
                said("未知节点类型"@, "Unknown node type"@, chinese) + " `"@ + named + "`"@,
            ]
            &&& report.log is None
        },
        pool_after(pool, execution_id, config, chinese) == pool,
{
    lemma_types();
}

/// Only `mongo:close` changes the pool in the first step of a call. It releases the connection that
/// its configuration selects, or every connection of the execution where it selects none.
pub proof fn law_only_close_releases(
    pool: PoolView,
    execution_id: Seq<char>,
    config: JsonView,
    chinese: bool,
)
    ensures
        !is_for(config, "mongo:close"@) ==> pool_after(pool, execution_id, config, chinese) == pool,
        is_for(config, "mongo:close"@) ==> pool_after(pool, execution_id, config, chinese)
            == closed(pool, execution_id, config, chinese),
        closed(pool, execution_id, config, chinese) == match member(config, "connection_uuid"@) {
            Some(JsonView::String(uuid)) => if uuid.len() > 0 {
                without_connection(pool, execution_id, uuid)
            } else {
                without_execution(pool, execution_id)
            },
            _ => without_execution(pool, execution_id),
        },
{
    lemma_types();
}

/// `mongo:connect` asks for the server and the database that its configuration names, within the
/// time that it gives; where it names none, for the local server, the database `test` and five
/// seconds.
pub proof fn law_connect_asks_for_what_is_configured(config: JsonView)
    ensures
        match member(config, "uri"@) {
            Some(JsonView::String(uri)) => connect::target_of(config).uri == uri,
            _ => connect::target_of(config).uri == "mongodb://localhost:27017"@,
        },
        match member(config, "database"@) {
            Some(JsonView::String(database)) => connect::target_of(config).database == database,
            _ => connect::target_of(config).database == "test"@,
        },
        match member(config, "timeout_ms"@) {
            Some(JsonView::Number(NumberKind::PosInt(millis))) => connect::target_of(
                config,
            ).timeout_ms == millis,
            _ => connect::target_of(config).timeout_ms == 5000,
        },
{
}

/// The result of a connection: it says that it is there, and names the database.
pub open spec fn is_connected(result: ResultView, database: Seq<char>) -> bool {
    &&& result.success
    &&& result.output_data == Some(
        JsonView::Object(
            seq![
                ("connected"@, JsonView::Bool(true)),
                ("database"@, JsonView::String(database)),
            ],
        ),
    )
    &&& result.next_ports == seq!["true"@]
    &&& result.errors.len() == 0
}

/// `mongo:connect` asks the driver for a client unless its own connection is there, to the same
/// server and the same database; then the result comes at once.
pub proof fn law_connect_reuses_its_own_connection(
    pool: PoolView,
    execution_id: Seq<char>,
    node_instance_id: Seq<char>,
    config: JsonView,
)
    ensures
        match connect::step_of(pool, execution_id, node_instance_id, config) {
            Ok(request) => request == connect::target_of(config) && !(connection_of(
                pool,
                execution_id,
                node_instance_id,
            ) matches Some(existing) && existing.uri@ == connect::target_of(config).uri
                && existing.database@ == connect::target_of(config).database),
            Err(result) => {
                &&& connection_of(pool, execution_id, node_instance_id) matches Some(existing)
                &&& existing.uri@ == connect::target_of(config).uri
                &&& existing.database@ == connect::target_of(config).database
                &&& is_connected(result, connect::target_of(config).database)
            },
        },
{
}

/// What came of making a client is reported: a connection as such, with a warning in the log where
/// it took the place of another; and a failure with the server and the driver's error.
pub proof fn law_connect_reports_what_came(
    opened: Opened,
    uri: Seq<char>,
    database: Seq<char>,
    replaced: bool,
    message: Seq<char>,
    chinese: bool,
)
    ensures
        is_connected(connect::connected_result(database), database),
        ({
            let report = connect::report_of(
                Ok((connect::connected_result(database), replaced)),
                chinese,
            );
            &&& is_connected(report.result, database)
            &&& report.log == if replaced {
                Some(
                    (
                        "warn"@,
                        said(
                            "连接目标变化，已替换旧连接"@,
                            "Connection target changed; old connection replaced"@,
                            chinese,
                        ),
                    ),
                )
            } else {
                None
            }
        }),
        is_failure(connect::report_of(Err(message), chinese), message),
        match opened {
            Opened::BadUri(err) => connect::refusal(opened, uri, chinese) == said(
                "无法解析 Mongo URI"@,
                "Failed to parse Mongo URI"@,
                chinese,
            ) + " `"@ + uri + "`: "@ + err@,
            Opened::NoClient(err) => connect::refusal(opened, uri, chinese) == said(
                "创建 Mongo 客户端失败"@,
                "Failed to create Mongo client"@,
                chinese,
            ) + " (`"@ + uri + "`): "@ + err@,
            Opened::NoAnswer(err) => connect::refusal(opened, uri, chinese) == said(
                "Mongo ping 失败（无法连接"@,
                "Mongo ping failed (cannot connect to"@,
                chinese,
            ) + " `"@ + uri + "`): "@ + err@,
            Opened::Ready(_) => true,
        },
{
}

/// A connection is kept only where its client is ready, for the execution and the instance of the
/// call and to the server and the database that were asked for. Where none is ready, the pool stays
/// as it was and the failure names the server.
pub proof fn law_only_ready_clients_are_kept(
    before: PoolView,
    after: PoolView,
    execution_id: Seq<char>,
    connection_uuid: Seq<char>,
    target: connect::ConnectView,
    opened: Opened,
    report: ReportView,
    chinese: bool,
)
    requires
        connect::concludes(
            before,
            after,
            execution_id,
            connection_uuid,
            target,
            opened,
            report,
            chinese,
        ),
    ensures
        match opened {
            Opened::Ready(client) => {
                &&& connection_of(after, execution_id, connection_uuid) matches Some(connection)
                &&& connection.uri@ == target.uri
                &&& connection.database@ == target.database
                &&& connection.client == client || connection_of(
                    before,
                    execution_id,
                    connection_uuid,
                ) == Some(connection)
                &&& is_connected(report.result, target.database)
                &&& report.log is Some <==> (connection_of(
                    before,
                    execution_id,
                    connection_uuid,
                ) matches Some(existing) && (existing.uri@ != target.uri || existing.database@
                    != target.database))
            },
            _ => {
                &&& after == before
                &&& is_failure(report, connect::refusal(opened, target.uri, chinese))
            },
        },
{
}

} // verus!

//! What holds of the nodes and the pool taken together.
use vstd::prelude::*;

use std::sync::Arc;

use crate::collect::lemma_collected_each;
use crate::fields::distinct_keys;
use crate::fields::lemma_lookup;
use crate::i18n::said;
use crate::json::FieldViews;
use crate::json::docs_json;
use crate::nodes::aggregate;
use crate::nodes::connect;
use crate::nodes::cursor::array_of;
use crate::nodes::delete;
use crate::nodes::find;
use crate::nodes::insert;
use crate::nodes::selected_connection;
use crate::nodes::selected_uuid;
use crate::nodes::update;
use crate::pool::MongoConnection;
use crate::pool::PoolView;
use crate::pool::accounted;
use crate::pool::connection_of;
use crate::pool::connects;
use crate::pool::replaces;
use crate::pool::with_connection;
use crate::pool::without_connection;
use crate::pool::without_execution;
use crate::pool_laws::apart;
use crate::pool_laws::clear;
use crate::pool_laws::law_connections_are_isolated;
use crate::pool_laws::law_release_drops_every_connection;
use crate::pool_laws::law_release_of_one_connection;
use crate::pool_laws::law_release_spares_other_executions;
use crate::result::ResultView;
use crate::result::reported;
use crate::value::JsonView;
use crate::value::member;
use crate::value::member_u64;

verus! {

/// Nothing is asked of the driver but through the connection that the configuration selects.
pub proof fn law_requests_go_through_the_selected_connection(
    pool: PoolView,
    execution_id: Seq<char>,
    config: JsonView,
    chinese: bool,
)
    ensures
        find::request_of(pool, execution_id, config, chinese) matches Ok(request)
            ==> selected_connection(pool, execution_id, config, chinese) == Ok::<
            Arc<MongoConnection>,
            Seq<char>,
        >(request.connection),
        insert::request_of(pool, execution_id, config, chinese) matches Ok(request)
            ==> selected_connection(pool, execution_id, config, chinese) == Ok::<
            Arc<MongoConnection>,
            Seq<char>,
        >(request.connection),
        update::request_of(pool, execution_id, config, chinese) matches Ok(request)
            ==> selected_connection(pool, execution_id, config, chinese) == Ok::<
            Arc<MongoConnection>,
            Seq<char>,
        >(request.connection),
        delete::request_of(pool, execution_id, config, chinese) matches Ok(request)
            ==> selected_connection(pool, execution_id, config, chinese) == Ok::<
            Arc<MongoConnection>,
            Seq<char>,
        >(request.connection),
        aggregate::request_of(pool, execution_id, config, chinese) matches Ok(request)
            ==> selected_connection(pool, execution_id, config, chinese) == Ok::<
            Arc<MongoConnection>,
            Seq<char>,
        >(request.connection),
{
}

/// What is wrong with a configuration is said whatever the pool holds: a message that one pool
/// gives beside a connection that is there, every pool gives.
pub proof fn law_configuration_errors_come_first(
    pool: PoolView,
    other: PoolView,
    execution_id: Seq<char>,
    config: JsonView,
    chinese: bool,
)
    requires
        selected_connection(pool, execution_id, config, chinese) is Ok,
    ensures
        find::request_of(pool, execution_id, config, chinese) is Err ==> find::request_of(
            other,
            execution_id,
            config,
            chinese,
        ) == find::request_of(pool, execution_id, config, chinese),
        insert::request_of(pool, execution_id, config, chinese) is Err ==> insert::request_of(
            other,
            execution_id,
            config,
            chinese,
        ) == insert::request_of(pool, execution_id, config, chinese),
        update::request_of(pool, execution_id, config, chinese) is Err ==> update::request_of(
            other,
            execution_id,
            config,
            chinese,
        ) == update::request_of(pool, execution_id, config, chinese),
        delete::request_of(pool, execution_id, config, chinese) is Err ==> delete::request_of(
            other,
            execution_id,
            config,
            chinese,
        ) == delete::request_of(pool, execution_id, config, chinese),
        aggregate::request_of(pool, execution_id, config, chinese) is Err
            ==> aggregate::request_of(other, execution_id, config, chinese)
            == aggregate::request_of(pool, execution_id, config, chinese),
{
}

/// An execution that was released, by its end or by `mongo:close`, asks nothing more of the
/// driver.
pub proof fn law_a_released_execution_asks_nothing(
    pool: PoolView,
    execution_id: Seq<char>,
    config: JsonView,
    chinese: bool,
)
    requires
        accounted(pool),
        clear(pool, execution_id),
    ensures
        ({
            let after = without_execution(pool, execution_id);
            &&& selected_connection(after, execution_id, config, chinese) is Err
            &&& find::request_of(after, execution_id, config, chinese) is Err
            &&& insert::request_of(after, execution_id, config, chinese) is Err
            &&& update::request_of(after, execution_id, config, chinese) is Err
            &&& delete::request_of(after, execution_id, config, chinese) is Err
            &&& aggregate::request_of(after, execution_id, config, chinese) is Err
        }),
{
    match selected_uuid(config, chinese) {
        Ok(uuid) => {
            law_release_drops_every_connection(pool, execution_id, uuid);
        },
        Err(_) => {},
    }
}

/// What one execution connects or releases, another does not see: its configurations select what
/// they selected before.
pub proof fn law_executions_do_not_see_each_other(
    pool: PoolView,
    e: Seq<char>,
    u: Seq<char>,
    connection: Arc<MongoConnection>,
    f: Seq<char>,
    config: JsonView,
    chinese: bool,
)
    requires
        e != f,
        apart(e, f),
    ensures
        selected_connection(with_connection(pool, e, u, connection), f, config, chinese)
            == selected_connection(pool, f, config, chinese),
        selected_connection(without_connection(pool, e, u), f, config, chinese)
            == selected_connection(pool, f, config, chinese),
        selected_connection(without_execution(pool, e), f, config, chinese) == selected_connection(
            pool,
            f,
            config,
            chinese,
        ),
{
    match selected_uuid(config, chinese) {
        Ok(uuid) => {
            law_connections_are_isolated(pool, e, u, connection, f, uuid);
            law_release_of_one_connection(pool, e, u, f, uuid);
            law_release_spares_other_executions(pool, e, f, uuid);
        },
        Err(_) => {},
    }
}

/// A connect node that runs a second time with the same server and database finds its connection:
/// no client is made, the server is not asked, and nothing is replaced.
pub proof fn law_connecting_again_reuses(
    before: PoolView,
    after: PoolView,
    execution_id: Seq<char>,
    connection_uuid: Seq<char>,
    config: JsonView,
    client: mongodb::Client,
)
    requires
        connects(
            before,
            after,
            execution_id,
            connection_uuid,
            connect::target_of(config).uri,
            connect::target_of(config).database,
            client,
        ),
    ensures
        connect::step_of(after, execution_id, connection_uuid, config) == Err::<
            connect::ConnectView,
            ResultView,
        >(connect::connected_result(connect::target_of(config).database)),
        !replaces(
            after,
            execution_id,
            connection_uuid,
            connect::target_of(config).uri,
            connect::target_of(config).database,
        ),
{
}

/// A node that selects a connection finds it once the connect node has run in its execution.
pub proof fn law_a_connection_is_found(
    before: PoolView,
    after: PoolView,
    execution_id: Seq<char>,
    connection_uuid: Seq<char>,
    uri: Seq<char>,
    database: Seq<char>,
    client: mongodb::Client,
    config: JsonView,
    chinese: bool,
)
    requires
        connects(before, after, execution_id, connection_uuid, uri, database, client),
        selected_uuid(config, chinese) == Ok::<Seq<char>, Seq<char>>(connection_uuid),
    ensures
        selected_connection(after, execution_id, config, chinese) matches Ok(connection)
            && connection.targets(uri, database),
{
}

/// A result that the host can route: a success has an output, no errors and the one port, a
/// failure has a message and no port.
pub open spec fn routable(result: ResultView, port: Seq<char>) -> bool {
    if result.success {
        &&& result.output_data is Some
        &&& result.errors.len() == 0
        &&& result.next_ports == seq![port]
    } else {
        &&& result.output_data is None
        &&& result.errors.len() == 1
        &&& result.next_ports.len() == 0
    }
}

/// Whatever the driver answers, the host can route the report: a success goes on by the port
/// `true`, and a failure names no port and is logged.
pub proof fn law_reports_are_routable(
    answer: Result<u64, Seq<char>>,
    counts: Result<update::UpdateCounts, Seq<char>>,
    count: u64,
    array: Result<JsonView, Seq<char>>,
    chinese: bool,
)
    ensures
        routable(reported(insert::outcome_of(answer, chinese)).result, "true"@),
        routable(reported(delete::outcome_of(answer, chinese)).result, "true"@),
        routable(reported(update::outcome_of(counts, chinese)).result, "true"@),
        routable(reported(find::outcome_of(count, array)).result, "true"@),
        routable(reported(aggregate::outcome_of(array)).result, "true"@),
        reported(insert::outcome_of(answer, chinese)).log is Some <==> answer is Err,
        reported(delete::outcome_of(answer, chinese)).log is Some <==> answer is Err,
        reported(update::outcome_of(counts, chinese)).log is Some <==> counts is Err,
        reported(find::outcome_of(count, array)).log is Some <==> array is Err,
        reported(aggregate::outcome_of(array)).log is Some <==> array is Err,
{
}

/// A node whose configuration is in order, but whose connection is not there, asks to connect
/// first.
pub proof fn law_without_a_connection_nodes_ask_to_connect(
    pool: PoolView,
    other: PoolView,
    execution_id: Seq<char>,
    uuid: Seq<char>,
    config: JsonView,
    chinese: bool,
)
    requires
        selected_uuid(config, chinese) == Ok::<Seq<char>, Seq<char>>(uuid),
        connection_of(pool, execution_id, uuid) is None,
    ensures
        ({
            let asked = said("请先 connect"@, "Please connect first"@, chinese);
            &&& find::request_of(other, execution_id, config, chinese) is Ok ==> find::request_of(
                pool,
                execution_id,
                config,
                chinese,
            ) == Err::<find::FindView, Seq<char>>(asked)
            &&& insert::request_of(other, execution_id, config, chinese) is Ok
                ==> insert::request_of(pool, execution_id, config, chinese) == Err::<
                insert::InsertView,
                Seq<char>,
            >(asked)
            &&& update::request_of(other, execution_id, config, chinese) is Ok
                ==> update::request_of(pool, execution_id, config, chinese) == Err::<
                update::UpdateView,
                Seq<char>,
            >(asked)
            &&& delete::request_of(other, execution_id, config, chinese) is Ok
                ==> delete::request_of(pool, execution_id, config, chinese) == Err::<
                delete::DeleteView,
                Seq<char>,
            >(asked)
            &&& aggregate::request_of(other, execution_id, config, chinese) is Ok
                ==> aggregate::request_of(pool, execution_id, config, chinese) == Err::<
                aggregate::AggregateView,
                Seq<char>,
            >(asked)
        }),
{
}

/// The output of `mongo:find` gives as its count the number of documents that it gives.
pub proof fn law_find_counts_its_documents(docs: Seq<FieldViews>, chinese: bool)
    requires
        docs.len() <= u64::MAX,
    ensures
        array_of(docs, find::MAX_OUTPUT_BYTES, chinese) matches Ok(array) ==> {
            let output = find::output_of(docs.len() as u64, array);
            &&& member_u64(output, "count"@) == Some(docs.len() as u64)
            &&& member(output, "documents"@) == Some(array)
            &&& array matches JsonView::Array(items)
            &&& items.len() == docs.len()
        },
{
    if array_of(docs, find::MAX_OUTPUT_BYTES, chinese) is Ok {
        let array = array_of(docs, find::MAX_OUTPUT_BYTES, chinese)->Ok_0;
        lemma_collected_each(docs_json(docs, chinese));
        let fields = find::output_of(docs.len() as u64, array)->Object_0;
        reveal_strlit("count");
        reveal_strlit("documents");
        assert("count"@.len() != "documents"@.len());
        assert(distinct_keys(fields));
        assert(fields[0].0 == "count"@);
        assert(fields[1].0 == "documents"@);
        lemma_lookup(fields, "count"@);
        lemma_lookup(fields, "documents"@);
    }
}

} // verus!

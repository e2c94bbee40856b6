//! The plugin: its nodes, and the pool that they share.
//!
//! The host names the node of a call in the field `type` of the configuration. A connect node
//! keeps its connection under the pair of the execution and its own instance; the other nodes
//! select it by the field `connection_uuid`, which the host sets.
use vstd::prelude::*;

use crate::describe::NodeDescription;
use crate::describe::describe;
use crate::describe::described;
use crate::describe::node_views;
use crate::i18n::Locale;
use crate::i18n::message;
use crate::i18n::said;
use crate::nodes::aggregate::AggregateRequest;
use crate::nodes::aggregate::AggregateView;
use crate::nodes::aggregate;
use crate::nodes::close;
use crate::nodes::connect::ConnectRequest;
use crate::nodes::connect::ConnectView;
use crate::nodes::connect;
use crate::nodes::delete::DeleteRequest;
use crate::nodes::delete::DeleteView;
use crate::nodes::delete;
use crate::nodes::find::FindRequest;
use crate::nodes::find::FindView;
use crate::nodes::find;
use crate::nodes::id_or_default;
use crate::nodes::insert::InsertRequest;
use crate::nodes::insert::InsertView;
use crate::nodes::insert;
use crate::nodes::update::UpdateRequest;
use crate::nodes::update::UpdateView;
use crate::nodes::update;
use crate::pool::MongoPool;
use crate::pool::PoolView;
use crate::pool::accounted;
use crate::pool::empty_pool;
use crate::pool::without_execution;
use crate::result::ExecuteResult;
use crate::result::Report;
use crate::result::ReportView;
use crate::result::failed;
use crate::result::first_step;
use crate::result::reported;
use crate::result::succeeded;
use crate::text::same;
use crate::value::Json;
use crate::value::JsonView;
use crate::value::member_text;

verus! {

/// The plugin, one for the life of the process.
pub struct MongoPlugin {
    pub pool: MongoPool,
}

/// What a call comes to first: the report, or what the driver is asked for.
pub enum Step {
    Done(Report),
    Connect(ConnectRequest),
    Find(FindRequest),
    Insert(InsertRequest),
    Update(UpdateRequest),
    Delete(DeleteRequest),
    Aggregate(AggregateRequest),
}

/// What a step holds.
pub enum StepView {
    Done(ReportView),
    Connect(ConnectView),
    Find(FindView),
    Insert(InsertView),
    Update(UpdateView),
    Delete(DeleteView),
    Aggregate(AggregateView),
}

impl View for Step {
    type V = StepView;

    open spec fn view(&self) -> StepView {
        match self {
            Step::Done(report) => StepView::Done(report@),
            Step::Connect(request) => StepView::Connect(request@),
            Step::Find(request) => StepView::Find(request@),
            Step::Insert(request) => StepView::Insert(request@),
            Step::Update(request) => StepView::Update(request@),
            Step::Delete(request) => StepView::Delete(request@),
            Step::Aggregate(request) => StepView::Aggregate(request@),
        }
    }
}

/// The node that a configuration names.
pub open spec fn type_of(config: JsonView) -> Seq<char> {
    match member_text(config, "type"@) {
        Some(name) => name,
        None => Seq::empty(),
    }
}

/// The report for a node that the plugin does not have. It is not logged.
pub open spec fn unknown(node_type: Seq<char>, chinese: bool) -> ReportView {
    ReportView {
        result: failed(
            said("未知节点类型"@, "Unknown node type"@, chinese) + " `"@ + node_type + "`"@,
        ),
        log: None,
    }
}

/// What a call comes to first, by the node that its configuration names.
pub open spec fn step_of(
    pool: PoolView,
    execution_id: Seq<char>,
    node_instance_id: Seq<char>,
    config: JsonView,
    chinese: bool,
) -> StepView {
    let node_type = type_of(config);
    if node_type == "mongo:connect"@ {
        match connect::step_of(pool, execution_id, node_instance_id, config) {
            Ok(request) => StepView::Connect(request),
            Err(result) => StepView::Done(reported(Ok(result))),
        }
    } else if node_type == "mongo:find"@ {
        match first_step(find::request_of(pool, execution_id, config, chinese)) {
            Ok(request) => StepView::Find(request),
            Err(report) => StepView::Done(report),
        }
    } else if node_type == "mongo:insert"@ {
        match first_step(insert::request_of(pool, execution_id, config, chinese)) {
            Ok(request) => StepView::Insert(request),
            Err(report) => StepView::Done(report),
        }
    } else if node_type == "mongo:update"@ {
        match first_step(update::request_of(pool, execution_id, config, chinese)) {
            Ok(request) => StepView::Update(request),
            Err(report) => StepView::Done(report),
        }
    } else if node_type == "mongo:delete"@ {
        match first_step(delete::request_of(pool, execution_id, config, chinese)) {
            Ok(request) => StepView::Delete(request),
            Err(report) => StepView::Done(report),
        }
    } else if node_type == "mongo:aggregate"@ {
        match first_step(aggregate::request_of(pool, execution_id, config, chinese)) {
            Ok(request) => StepView::Aggregate(request),
            Err(report) => StepView::Done(report),
        }
    } else if node_type == "mongo:close"@ {
        StepView::Done(reported(Ok(succeeded(JsonView::Object(Seq::empty()), "out"@))))
    } else {
        StepView::Done(unknown(node_type, chinese))
    }
}

/// The pool after the first step of a call: `mongo:close` releases, every other node leaves it as
/// it is.
pub open spec fn pool_after(
    pool: PoolView,
    execution_id: Seq<char>,
    config: JsonView,
    chinese: bool,
) -> PoolView {
    if type_of(config) == "mongo:close"@ {
        close::closed(pool, execution_id, config, chinese)
    } else {
        pool
    }
}

/// Tells the names of the nodes apart.
proof fn lemma_close_is_last()
    ensures
        "mongo:close"@ != "mongo:connect"@,
        "mongo:close"@ != "mongo:find"@,
        "mongo:close"@ != "mongo:insert"@,
        "mongo:close"@ != "mongo:update"@,
        "mongo:close"@ != "mongo:delete"@,
        "mongo:close"@ != "mongo:aggregate"@,
{
    reveal_strlit("mongo:close");
    reveal_strlit("mongo:connect");
    reveal_strlit("mongo:find");
    reveal_strlit("mongo:insert");
    reveal_strlit("mongo:update");
    reveal_strlit("mongo:delete");
    reveal_strlit("mongo:aggregate");
    assert("mongo:close"@.len() == 11);
    assert("mongo:connect"@.len() == 13);
    assert("mongo:find"@.len() == 10);
    assert("mongo:insert"@.len() == 12);
    assert("mongo:update"@.len() == 12);
    assert("mongo:delete"@.len() == 12);
    assert("mongo:aggregate"@.len() == 15);
}

impl Default for MongoPlugin {
    fn default() -> (plugin: MongoPlugin)
        ensures
            plugin.pool@ == empty_pool(),
    {
        MongoPlugin { pool: MongoPool::default() }
    }
}

impl MongoPlugin {
    /// The nodes of the plugin.
    pub fn describe(&self, locale: &Locale) -> (nodes: Vec<NodeDescription>)
        ensures
            node_views(nodes@) == described(locale.chinese()),
    {
        describe(locale)
    }

    /// The first step of a call: runs the node up to what the driver is asked for. A request to
    /// read documents has a limit above zero.
    pub fn execute(
        &mut self,
        execution_id: Option<&str>,
        node_instance_id: Option<&str>,
        config: &Json,
        locale: &Locale,
    ) -> (step: Step)
        ensures
            step@ == step_of(
                old(self).pool@,
                id_or_default(execution_id),
                id_or_default(node_instance_id),
                config@,
                locale.chinese(),
            ),
            final(self).pool@ == pool_after(
                old(self).pool@,
                id_or_default(execution_id),
                config@,
                locale.chinese(),
            ),
            step matches Step::Find(request) ==> request.limit > 0,
            step matches Step::Aggregate(request) ==> request.limit > 0,
    {
        proof {
            lemma_close_is_last();
        }
        let empty: String = String::new();
        let node_type: &str = match config.text_at("type") {
            Some(name) => name.as_str(),
            None => empty.as_str(),
        };
        assert(node_type@ =~= type_of(config@));
        if same(node_type, "mongo:connect") {
            match connect::execute(&self.pool, execution_id, node_instance_id, config) {
                Ok(request) => Step::Connect(request),
                Err(report) => Step::Done(report),
            }
        } else if same(node_type, "mongo:find") {
            match find::execute(&self.pool, execution_id, config, locale) {
                Ok(request) => Step::Find(request),
                Err(report) => Step::Done(report),
            }
        } else if same(node_type, "mongo:insert") {
            match insert::execute(&self.pool, execution_id, config, locale) {
                Ok(request) => Step::Insert(request),
                Err(report) => Step::Done(report),
            }
        } else if same(node_type, "mongo:update") {
            match update::execute(&self.pool, execution_id, config, locale) {
                Ok(request) => Step::Update(request),
                Err(report) => Step::Done(report),
            }
        } else if same(node_type, "mongo:delete") {
            match delete::execute(&self.pool, execution_id, config, locale) {
                Ok(request) => Step::Delete(request),
                Err(report) => Step::Done(report),
            }
        } else if same(node_type, "mongo:aggregate") {
            match aggregate::execute(&self.pool, execution_id, config, locale) {
                Ok(request) => Step::Aggregate(request),
                Err(report) => Step::Done(report),
            }
        } else if same(node_type, "mongo:close") {
            Step::Done(close::execute(&mut self.pool, execution_id, config, locale))
        } else {
            let mut text: String = message("未知节点类型", "Unknown node type", locale);
            text.append(" `");
            text.append(node_type);
            text.append("`");
            Step::Done(Report { result: ExecuteResult::fail(text), log: None })
        }
    }

    /// Releases every connection of an execution that has ended: with success, with failure or by
    /// being stopped.
    pub fn flow_ended(&mut self, execution_id: &str)
        ensures
            final(self).pool@ == without_execution(old(self).pool@, execution_id@),
            accounted(old(self).pool@),
            accounted(final(self).pool@),
    {
        self.pool.release(execution_id);
    }
}

} // verus!

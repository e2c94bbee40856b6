//! `mongo:close`: releases connections of the execution.
//!
//! Configuration: `connection_uuid`, to release the connection of that connect node alone; without
//! it, every connection of the execution is released. Output: `{}`. Where there is nothing to
//! release, that is a success too.
use vstd::prelude::*;

use crate::fields::Fields;
use crate::i18n::Locale;
use crate::nodes::id_of;
use crate::nodes::id_or_default;
use crate::nodes::resolve_connection_uuid;
use crate::nodes::selected_uuid;
use crate::pool::MongoPool;
use crate::pool::PoolView;
use crate::pool::without_connection;
use crate::pool::without_execution;
use crate::result::ExecuteResult;
use crate::result::Report;
use crate::result::close_ok_result;
use crate::result::reported;
use crate::result::succeeded;
use crate::value::Json;
use crate::value::JsonView;

verus! {

/// The pool after the node: without the selected connection, or without any of the execution.
pub open spec fn closed(
    pool: PoolView,
    execution_id: Seq<char>,
    config: JsonView,
    chinese: bool,
) -> PoolView {
    match selected_uuid(config, chinese) {
        Ok(uuid) => without_connection(pool, execution_id, uuid),
        Err(_) => without_execution(pool, execution_id),
    }
}

/// Releases the selected connection of an execution, or all of its connections.
pub fn close_core(pool: &mut MongoPool, exec_id: &str, config: &Json, locale: &Locale) -> (r:
    ExecuteResult)
    ensures
        final(pool)@ == closed(old(pool)@, exec_id@, config@, locale.chinese()),
        r@ == succeeded(JsonView::Object(Seq::empty()), "out"@),
{
    match resolve_connection_uuid(config, locale) {
        Ok(uuid) => pool.release_connection(exec_id, uuid.as_str()),
        Err(_) => pool.release(exec_id),
    }
    let output = Json::Object(Fields::new());
    assert(output@->Object_0 =~= Seq::empty());
    close_ok_result(output)
}

/// Runs the node.
pub fn execute(
    pool: &mut MongoPool,
    execution_id: Option<&str>,
    config: &Json,
    locale: &Locale,
) -> (r: Report)
    ensures
        final(pool)@ == closed(
            old(pool)@,
            id_or_default(execution_id),
            config@,
            locale.chinese(),
        ),
        r@ == reported(Ok(succeeded(JsonView::Object(Seq::empty()), "out"@))),
{
    Report::of(Ok(close_core(pool, id_of(execution_id), config, locale)))
}

} // verus!

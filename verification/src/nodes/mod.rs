//! The nodes.
//!
//! A node that works on the database runs in steps. First its `execute` reads the configuration
//! and gives what is to be asked of the driver, or the report of what is wrong. Then the driver
//! is asked. What it answers, the node turns into a result.
use vstd::prelude::*;

use std::sync::Arc;

use crate::bson::Document;
use crate::i18n::Locale;
use crate::i18n::message;
use crate::i18n::said;
use crate::json::FieldViews;
use crate::json::json_array_field;
use crate::json::json_field;
use crate::json::parse_json_array_field;
use crate::json::parse_json_field;
use crate::json::viewed_document;
use crate::json::viewed_documents;
use crate::pool::MongoConnection;
use crate::pool::MongoPool;
use crate::pool::PoolView;
use crate::pool::connection_of;
use crate::value::Json;
use crate::value::JsonView;
use crate::value::member_bool;
use crate::value::member_i64;
use crate::value::member_text;

pub mod aggregate;
pub mod close;
pub mod connect;
pub mod cursor;
pub mod delete;
pub mod find;
pub mod insert;
pub mod update;

verus! {

/// An id that a call names, `default` where it names none.
pub open spec fn id_or_default(id: Option<&str>) -> Seq<char> {
    match id {
        Some(id) => id@,
        None => "default"@,
    }
}

/// An id that a call names, `default` where it names none.
pub fn id_of<'a>(id: Option<&'a str>) -> (r: &'a str)
    ensures
        r@ == id_or_default(id),
{
    match id {
        Some(id) => id,
        None => "default",
    }
}

/// The connect node that a node's configuration selects.
pub open spec fn selected_uuid(config: JsonView, chinese: bool) -> Result<Seq<char>, Seq<char>> {
    match member_text(config, "connection_uuid"@) {
        Some(uuid) => if uuid.len() > 0 {
            Ok(uuid)
        } else {
            Err(no_selection(chinese))
        },
        None => Err(no_selection(chinese)),
    }
}

/// The message for a node that selects no connect node.
pub open spec fn no_selection(chinese: bool) -> Seq<char> {
    said(
        "请选择连接节点（缺少 connection_uuid，需先添加 mongo:connect 节点并选择）"@,
        "Please select a connection node (missing connection_uuid; add and select a mongo:connect node first)"@,
        chinese,
    )
}

/// The connect node that a node works through, from the field `connection_uuid` of its
/// configuration. A missing or empty field is an error that asks for a selection.
pub fn resolve_connection_uuid(config: &Json, locale: &Locale) -> (r: Result<String, String>)
    ensures
        selected_uuid(config@, locale.chinese()) == match r {
            Ok(uuid) => Ok(uuid@),
            Err(err) => Err(err@),
        },
{
    match config.text_at("connection_uuid") {
        Some(uuid) => {
            if uuid.as_str().unicode_len() > 0 {
                return Ok(uuid.clone());
            }
        },
        None => {},
    }
    Err(
        message(
            "请选择连接节点（缺少 connection_uuid，需先添加 mongo:connect 节点并选择）",
            "Please select a connection node (missing connection_uuid; add and select a mongo:connect node first)",
            locale,
        ),
    )
}

/// The connection that a node's configuration selects.
pub open spec fn selected_connection(
    pool: PoolView,
    execution_id: Seq<char>,
    config: JsonView,
    chinese: bool,
) -> Result<Arc<MongoConnection>, Seq<char>> {
    match selected_uuid(config, chinese) {
        Ok(uuid) => match connection_of(pool, execution_id, uuid) {
            Some(connection) => Ok(connection),
            None => Err(said("请先 connect"@, "Please connect first"@, chinese)),
        },
        Err(err) => Err(err),
    }
}

/// The connection that a node's configuration selects, where it is there.
pub fn resolve_connection(
    pool: &MongoPool,
    execution_id: &str,
    config: &Json,
    locale: &Locale,
) -> (r: Result<Arc<MongoConnection>, String>)
    ensures
        selected_connection(pool@, execution_id@, config@, locale.chinese()) == match r {
            Ok(connection) => Ok(connection),
            Err(err) => Err(err@),
        },
{
    match resolve_connection_uuid(config, locale) {
        Ok(uuid) => match pool.client(execution_id, uuid.as_str()) {
            Some(connection) => Ok(connection),
            None => Err(message("请先 connect", "Please connect first", locale)),
        },
        Err(err) => Err(err),
    }
}

/// The collection that a node works on.
pub open spec fn collection_of(config: JsonView, chinese: bool) -> Result<Seq<char>, Seq<char>> {
    match member_text(config, "collection"@) {
        Some(name) => Ok(name),
        None => Err(said("缺少 collection 字段"@, "Missing collection field"@, chinese)),
    }
}

/// The collection that a node works on, from the field `collection` of its configuration.
pub fn collection_name(config: &Json, locale: &Locale) -> (r: Result<String, String>)
    ensures
        collection_of(config@, locale.chinese()) == match r {
            Ok(name) => Ok(name@),
            Err(err) => Err(err@),
        },
{
    match config.text_at("collection") {
        Some(name) => Ok(name.clone()),
        None => Err(message("缺少 collection 字段", "Missing collection field", locale)),
    }
}

/// The filter of a node that must have one.
pub open spec fn required_filter(config: JsonView, chinese: bool) -> Result<
    FieldViews,
    Seq<char>,
> {
    match json_field(config, "filter"@, chinese) {
        Ok(Some(filter)) => Ok(filter),
        Ok(None) => Err(said("缺少 filter 字段"@, "Missing filter field"@, chinese)),
        Err(err) => Err(err),
    }
}

/// The filter of a node that must have one.
pub fn parse_required_filter(config: &Json, locale: &Locale) -> (r: Result<Document, String>)
    ensures
        viewed_document(r) == required_filter(config@, locale.chinese()),
{
    match parse_json_field(config, "filter", locale) {
        Ok(Some(filter)) => Ok(filter),
        Ok(None) => Err(message("缺少 filter 字段", "Missing filter field", locale)),
        Err(err) => Err(err),
    }
}

/// The documents under `key` of a node that must have some.
pub open spec fn required_documents(
    config: JsonView,
    key: Seq<char>,
    none: Seq<char>,
    chinese: bool,
) -> Result<Seq<FieldViews>, Seq<char>> {
    match json_array_field(config, key, chinese) {
        Ok(Some(docs)) => if docs.len() > 0 {
            Ok(docs)
        } else {
            Err(none)
        },
        Ok(None) => Err(none),
        Err(err) => Err(err),
    }
}

/// The documents under `key` of a node that must have some; where there are none, the message is
/// one of the last two.
pub fn parse_required_documents(
    config: &Json,
    key: &str,
    none_zh: &'static str,
    none_en: &'static str,
    locale: &Locale,
) -> (r: Result<Vec<Document>, String>)
    ensures
        viewed_documents(r) == required_documents(
            config@,
            key@,
            said(none_zh@, none_en@, locale.chinese()),
            locale.chinese(),
        ),
{
    match parse_json_array_field(config, key, locale) {
        Ok(Some(docs)) => {
            if docs.len() > 0 {
                return Ok(docs);
            }
        },
        Ok(None) => {},
        Err(err) => {
            return Err(err);
        },
    }
    Err(message(none_zh, none_en, locale))
}

/// The flag under `key`, which is off unless it is set.
pub open spec fn flag(config: JsonView, key: Seq<char>) -> bool {
    member_bool(config, key) == Some(true)
}

/// The flag under `key`: `true` sets it; anything else, and nothing, does not.
pub fn read_flag(config: &Json, key: &str) -> (r: bool)
    ensures
        r == flag(config@, key@),
{
    match config.bool_at(key) {
        Some(b) => b,
        None => false,
    }
}

/// The largest number of documents that a node gives back where its configuration gives none.
pub const DEFAULT_LIMIT: i64 = 100;

/// The largest number of documents that a node gives back.
pub open spec fn limit_of(config: JsonView) -> i64 {
    match member_i64(config, "limit"@) {
        Some(n) => if n <= 0 {
            DEFAULT_LIMIT
        } else {
            n
        },
        None => DEFAULT_LIMIT,
    }
}

/// The largest number of documents that a node gives back, from the field `limit`: 100 where it
/// is missing, no integer, or not above zero. To the server a limit of zero is no limit.
pub fn parse_limit(config: &Json) -> (limit: i64)
    ensures
        limit == limit_of(config@),
        limit > 0,
{
    match config.i64_at("limit") {
        Some(n) => if n <= 0 {
            DEFAULT_LIMIT
        } else {
            n
        },
        None => DEFAULT_LIMIT,
    }
}

} // verus!

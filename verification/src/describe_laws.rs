//! What a node that was just added is shown with and starts from.
use vstd::prelude::*;

use crate::describe::NodeView;
use crate::describe::PortKind;
use crate::describe::PortView;
use crate::describe::aggregate_properties;
use crate::describe::close_properties;
use crate::describe::connect_properties;
use crate::describe::delete_properties;
use crate::describe::described;
use crate::describe::find_properties;
use crate::describe::insert_properties;
use crate::describe::lemma_words;
use crate::describe::ports_of_close;
use crate::describe::ports_of_operation;
use crate::describe::update_properties;
use crate::fields::distinct_keys;
use crate::fields::lemma_lookup;
use crate::i18n::said;
use crate::plugin_laws::properties_of;
use crate::value::JsonView;
use crate::value::NumberKind;
use crate::value::member;

verus! {

/// How a node is shown.
pub open spec fn is_shown_as(
    node: NodeView,
    type_id: Seq<char>,
    display_name: Seq<char>,
    icon: Seq<char>,
    single_node: bool,
) -> bool {
    &&& node.type_id == type_id
    &&& node.display_name == display_name
    &&& node.icon == icon
    &&& node.capabilities.single_node == single_node
}

/// The schema of a plain field: its type, and what it is in the language of the host.
pub open spec fn is_plain_field(
    node: NodeView,
    key: Seq<char>,
    named_type: Seq<char>,
    zh: Seq<char>,
    en: Seq<char>,
    chinese: bool,
) -> bool {
    member(properties_of(node), key) == Some(
        JsonView::Object(
            seq![
                ("type"@, JsonView::String(named_type)),
                ("description"@, JsonView::String(said(zh, en, chinese))),
            ],
        ),
    )
}

/// The schema of a field that holds JSON as a text.
pub open spec fn is_text_field(
    node: NodeView,
    key: Seq<char>,
    zh: Seq<char>,
    en: Seq<char>,
    chinese: bool,
) -> bool {
    member(properties_of(node), key) == Some(
        JsonView::Object(
            seq![
                ("type"@, JsonView::String("string"@)),
                ("format"@, JsonView::String("json"@)),
                ("description"@, JsonView::String(said(zh, en, chinese))),
            ],
        ),
    )
}

/// The schema of the field that selects a connect node of the flow.
pub open spec fn is_selector(node: NodeView, chinese: bool) -> bool {
    member(properties_of(node), "connection_uuid"@) == Some(
        JsonView::Object(
            seq![
                ("type"@, JsonView::String("string"@)),
                ("title"@, JsonView::String(said("Mongo 连接"@, "Mongo Connection"@, chinese))),
                (
                    "x-node-selector"@,
                    JsonView::Object(seq![("node_type"@, JsonView::String("mongo:connect"@))]),
                ),
            ],
        ),
    )
}

/// The fields that a node must have.
pub open spec fn must_have(node: NodeView, names: Seq<JsonView>) -> bool {
    member(node.config_schema, "required"@) == Some(JsonView::Array(names))
}

/// `mongo:connect` is shown under its name, starts from its first configuration, and says of every
/// field what it is.
pub proof fn law_connect_is_shown(chinese: bool)
    ensures
        ({
            let node = described(chinese)[0];
            &&& is_shown_as(node, "mongo:connect"@, "Mongo Connect"@, "database"@, true)
            &&& node.default_config == JsonView::Object(
                seq![
                    ("uri"@, JsonView::String("mongodb://localhost:27017"@)),
                    ("database"@, JsonView::String("mydb"@)),
                    ("timeout_ms"@, JsonView::Number(NumberKind::PosInt(5000))),
                ],
            )
            &&& must_have(node, seq![JsonView::String("uri"@), JsonView::String("database"@), JsonView::String("timeout_ms"@)])
            &&& properties_of(node) matches JsonView::Object(all) && all.len() == 3
            &&& is_plain_field(
                node,
                "uri"@,
                "string"@,
                "MongoDB 连接串，例如 mongodb://localhost:27017"@,
                "MongoDB connection string, e.g. mongodb://localhost:27017"@,
                chinese,
            )
            &&& is_plain_field(
                node,
                "database"@,
                "string"@,
                "数据库名，例如 mydb"@,
                "Database name, e.g. mydb"@,
                chinese,
            )
            &&& is_plain_field(
                node,
                "timeout_ms"@,
                "integer"@,
                "连接超时（毫秒）"@,
                "Connection timeout (ms)"@,
                chinese,
            )
        }),
{
    lemma_words();
    let node = described(chinese)[0];
    let schema = node.config_schema->Object_0;
    assert(distinct_keys(schema));
    assert(schema[1].0 == "properties"@);
    assert(schema[2].0 == "required"@);
    lemma_lookup(schema, "properties"@);
    lemma_lookup(schema, "required"@);
    let properties = connect_properties(chinese)->Object_0;
    assert(distinct_keys(properties));
    assert(properties[0].0 == "uri"@);
    lemma_lookup(properties, "uri"@);
    assert(properties[1].0 == "database"@);
    lemma_lookup(properties, "database"@);
    assert(properties[2].0 == "timeout_ms"@);
    lemma_lookup(properties, "timeout_ms"@);
    assert(schema[2].1->Array_0 =~= seq![JsonView::String("uri"@), JsonView::String("database"@), JsonView::String("timeout_ms"@)]);
}

/// `mongo:find` is shown under its name, starts from its first configuration, and says of every
/// field what it is.
pub proof fn law_find_is_shown(chinese: bool)
    ensures
        ({
            let node = described(chinese)[1];
            &&& is_shown_as(node, "mongo:find"@, "Mongo Find"@, "search"@, false)
            &&& node.default_config == JsonView::Object(
                seq![
                    ("collection"@, JsonView::String("users"@)),
                    ("filter"@, JsonView::Null),
                    ("project"@, JsonView::Null),
                    ("limit"@, JsonView::Number(NumberKind::PosInt(100))),
                    ("timeout_ms"@, JsonView::Number(NumberKind::PosInt(5000))),
                ],
            )
            &&& must_have(node, seq![JsonView::String("collection"@)])
            &&& properties_of(node) matches JsonView::Object(all) && all.len() == 6
            &&& is_plain_field(
                node,
                "collection"@,
                "string"@,
                "集合名"@,
                "Collection name"@,
                chinese,
            )
            &&& is_plain_field(
                node,
                "limit"@,
                "integer"@,
                "返回条数上限"@,
                "Maximum documents to return"@,
                chinese,
            )
            &&& is_plain_field(
                node,
                "timeout_ms"@,
                "integer"@,
                "操作超时（毫秒）"@,
                "Operation timeout (ms)"@,
                chinese,
            )
            &&& is_selector(node, chinese)
            &&& is_text_field(
                node,
                "filter"@,
                "JSON 文本，例如 {\"age\": {\"$gt\": 18}}"@,
                "JSON text, e.g. {\"age\": {\"$gt\": 18}}"@,
                chinese,
            )
            &&& is_text_field(
                node,
                "project"@,
                "JSON 文本，例如 {\"name\": 1, \"_id\": 0}；null 表示不投影"@,
                "JSON text, e.g. {\"name\": 1, \"_id\": 0}; null means no projection"@,
                chinese,
            )
        }),
{
    lemma_words();
    let node = described(chinese)[1];
    let schema = node.config_schema->Object_0;
    assert(distinct_keys(schema));
    assert(schema[1].0 == "properties"@);
    assert(schema[2].0 == "required"@);
    lemma_lookup(schema, "properties"@);
    lemma_lookup(schema, "required"@);
    let properties = find_properties(chinese)->Object_0;
    assert(distinct_keys(properties));
    assert(properties[0].0 == "connection_uuid"@);
    lemma_lookup(properties, "connection_uuid"@);
    assert(properties[1].0 == "collection"@);
    lemma_lookup(properties, "collection"@);
    assert(properties[2].0 == "filter"@);
    lemma_lookup(properties, "filter"@);
    assert(properties[3].0 == "project"@);
    lemma_lookup(properties, "project"@);
    assert(properties[4].0 == "limit"@);
    lemma_lookup(properties, "limit"@);
    assert(properties[5].0 == "timeout_ms"@);
    lemma_lookup(properties, "timeout_ms"@);
    assert(schema[2].1->Array_0 =~= seq![JsonView::String("collection"@)]);
}

/// `mongo:insert` is shown under its name, starts from its first configuration, and says of every
/// field what it is.
pub proof fn law_insert_is_shown(chinese: bool)
    ensures
        ({
            let node = described(chinese)[2];
            &&& is_shown_as(node, "mongo:insert"@, "Mongo Insert"@, "plus"@, false)
            &&& node.default_config == JsonView::Object(
                seq![
                    ("collection"@, JsonView::String("users"@)),
                    ("documents"@, JsonView::Array(Seq::empty())),
                    ("timeout_ms"@, JsonView::Number(NumberKind::PosInt(5000))),
                ],
            )
            &&& must_have(node, seq![JsonView::String("collection"@)])
            &&& properties_of(node) matches JsonView::Object(all) && all.len() == 4
            &&& is_plain_field(
                node,
                "collection"@,
                "string"@,
                "集合名"@,
                "Collection name"@,
                chinese,
            )
            &&& is_plain_field(
                node,
                "timeout_ms"@,
                "integer"@,
                "操作超时（毫秒）"@,
                "Operation timeout (ms)"@,
                chinese,
            )
            &&& is_selector(node, chinese)
            &&& is_text_field(
                node,
                "documents"@,
                "JSON 文本，例如 [{\"name\": \"Alice\", \"age\": 30}]"@,
                "JSON text, e.g. [{\"name\": \"Alice\", \"age\": 30}]"@,
                chinese,
            )
        }),
{
    lemma_words();
    let node = described(chinese)[2];
    let schema = node.config_schema->Object_0;
    assert(distinct_keys(schema));
    assert(schema[1].0 == "properties"@);
    assert(schema[2].0 == "required"@);
    lemma_lookup(schema, "properties"@);
    lemma_lookup(schema, "required"@);
    let properties = insert_properties(chinese)->Object_0;
    assert(distinct_keys(properties));
    assert(properties[0].0 == "connection_uuid"@);
    lemma_lookup(properties, "connection_uuid"@);
    assert(properties[1].0 == "collection"@);
    lemma_lookup(properties, "collection"@);
    assert(properties[2].0 == "documents"@);
    lemma_lookup(properties, "documents"@);
    assert(properties[3].0 == "timeout_ms"@);
    lemma_lookup(properties, "timeout_ms"@);
    assert(schema[2].1->Array_0 =~= seq![JsonView::String("collection"@)]);
}

/// `mongo:update` is shown under its name, starts from its first configuration, and says of every
/// field what it is.
pub proof fn law_update_is_shown(chinese: bool)
    ensures
        ({
            let node = described(chinese)[3];
            &&& is_shown_as(node, "mongo:update"@, "Mongo Update"@, "refresh-cw"@, false)
            &&& node.default_config == JsonView::Object(
                seq![
                    ("collection"@, JsonView::String("users"@)),
                    ("filter"@, JsonView::Null),
                    ("update"@, JsonView::Null),
                    ("upsert"@, JsonView::Bool(false)),
                    ("update_many"@, JsonView::Bool(false)),
                    ("timeout_ms"@, JsonView::Number(NumberKind::PosInt(5000))),
                ],
            )
            &&& must_have(node, seq![JsonView::String("collection"@)])
            &&& properties_of(node) matches JsonView::Object(all) && all.len() == 7
            &&& is_plain_field(
                node,
                "collection"@,
                "string"@,
                "集合名"@,
                "Collection name"@,
                chinese,
            )
            &&& is_plain_field(
                node,
                "upsert"@,
                "boolean"@,
                "不存在匹配文档时是否插入新文档"@,
                "Insert a new document when no match is found"@,
                chinese,
            )
            &&& is_plain_field(
                node,
                "update_many"@,
                "boolean"@,
                "是否更新所有匹配文档（updateMany）"@,
                "Update all matching documents (updateMany)"@,
                chinese,
            )
            &&& is_plain_field(
                node,
                "timeout_ms"@,
                "integer"@,
                "操作超时（毫秒）"@,
                "Operation timeout (ms)"@,
                chinese,
            )
            &&& is_selector(node, chinese)
            &&& is_text_field(
                node,
                "filter"@,
                "JSON 文本，例如 {\"name\": \"Alice\"}"@,
                "JSON text, e.g. {\"name\": \"Alice\"}"@,
                chinese,
            )
            &&& is_text_field(
                node,
                "update"@,
                "JSON 文本，例如 {\"$set\": {\"age\": 31}}"@,
                "JSON text, e.g. {\"$set\": {\"age\": 31}}"@,
                chinese,
            )
        }),
{
    lemma_words();
    let node = described(chinese)[3];
    let schema = node.config_schema->Object_0;
    assert(distinct_keys(schema));
    assert(schema[1].0 == "properties"@);
    assert(schema[2].0 == "required"@);
    lemma_lookup(schema, "properties"@);
    lemma_lookup(schema, "required"@);
    let properties = update_properties(chinese)->Object_0;
    assert(distinct_keys(properties));
    assert(properties[0].0 == "connection_uuid"@);
    lemma_lookup(properties, "connection_uuid"@);
    assert(properties[1].0 == "collection"@);
    lemma_lookup(properties, "collection"@);
    assert(properties[2].0 == "filter"@);
    lemma_lookup(properties, "filter"@);
    assert(properties[3].0 == "update"@);
    lemma_lookup(properties, "update"@);
    assert(properties[4].0 == "upsert"@);
    lemma_lookup(properties, "upsert"@);
    assert(properties[5].0 == "update_many"@);
    lemma_lookup(properties, "update_many"@);
    assert(properties[6].0 == "timeout_ms"@);
    lemma_lookup(properties, "timeout_ms"@);
    assert(schema[2].1->Array_0 =~= seq![JsonView::String("collection"@)]);
}

/// `mongo:delete` is shown under its name, starts from its first configuration, and says of every
/// field what it is.
pub proof fn law_delete_is_shown(chinese: bool)
    ensures
        ({
            let node = described(chinese)[4];
            &&& is_shown_as(node, "mongo:delete"@, "Mongo Delete"@, "trash-2"@, false)
            &&& node.default_config == JsonView::Object(
                seq![
                    ("collection"@, JsonView::String("users"@)),
                    ("filter"@, JsonView::Null),
                    ("delete_many"@, JsonView::Bool(false)),
                    ("timeout_ms"@, JsonView::Number(NumberKind::PosInt(5000))),
                ],
            )
            &&& must_have(node, seq![JsonView::String("collection"@)])
            &&& properties_of(node) matches JsonView::Object(all) && all.len() == 5
            &&& is_plain_field(
                node,
                "collection"@,
                "string"@,
                "集合名"@,
                "Collection name"@,
                chinese,
            )
            &&& is_plain_field(
                node,
                "delete_many"@,
                "boolean"@,
                "是否删除所有匹配文档（deleteMany）"@,
                "Delete all matching documents (deleteMany)"@,
                chinese,
            )
            &&& is_plain_field(
                node,
                "timeout_ms"@,
                "integer"@,
                "操作超时（毫秒）"@,
                "Operation timeout (ms)"@,
                chinese,
            )
            &&& is_selector(node, chinese)
            &&& is_text_field(
                node,
                "filter"@,
                "JSON 文本，例如 {\"name\": \"Alice\"}"@,
                "JSON text, e.g. {\"name\": \"Alice\"}"@,
                chinese,
            )
        }),
{
    lemma_words();
    let node = described(chinese)[4];
    let schema = node.config_schema->Object_0;
    assert(distinct_keys(schema));
    assert(schema[1].0 == "properties"@);
    assert(schema[2].0 == "required"@);
    lemma_lookup(schema, "properties"@);
    lemma_lookup(schema, "required"@);
    let properties = delete_properties(chinese)->Object_0;
    assert(distinct_keys(properties));
    assert(properties[0].0 == "connection_uuid"@);
    lemma_lookup(properties, "connection_uuid"@);
    assert(properties[1].0 == "collection"@);
    lemma_lookup(properties, "collection"@);
    assert(properties[2].0 == "filter"@);
    lemma_lookup(properties, "filter"@);
    assert(properties[3].0 == "delete_many"@);
    lemma_lookup(properties, "delete_many"@);
    assert(properties[4].0 == "timeout_ms"@);
    lemma_lookup(properties, "timeout_ms"@);
    assert(schema[2].1->Array_0 =~= seq![JsonView::String("collection"@)]);
}

/// `mongo:aggregate` is shown under its name, starts from its first configuration, and says of every
/// field what it is.
pub proof fn law_aggregate_is_shown(chinese: bool)
    ensures
        ({
            let node = described(chinese)[5];
            &&& is_shown_as(node, "mongo:aggregate"@, "Mongo Aggregate"@, "layers"@, false)
            &&& node.default_config == JsonView::Object(
                seq![
                    ("collection"@, JsonView::String("users"@)),
                    ("pipeline"@, JsonView::Array(Seq::empty())),
                    ("limit"@, JsonView::Number(NumberKind::PosInt(100))),
                    ("timeout_ms"@, JsonView::Number(NumberKind::PosInt(5000))),
                ],
            )
            &&& must_have(node, seq![JsonView::String("collection"@)])
            &&& properties_of(node) matches JsonView::Object(all) && all.len() == 5
            &&& is_plain_field(
                node,
                "collection"@,
                "string"@,
                "集合名"@,
                "Collection name"@,
                chinese,
            )
            &&& is_plain_field(
                node,
                "limit"@,
                "integer"@,
                "返回条数上限"@,
                "Maximum documents to return"@,
                chinese,
            )
            &&& is_plain_field(
                node,
                "timeout_ms"@,
                "integer"@,
                "操作超时（毫秒）"@,
                "Operation timeout (ms)"@,
                chinese,
            )
            &&& is_selector(node, chinese)
            &&& is_text_field(
                node,
                "pipeline"@,
                "JSON 文本，例如 [{\"$match\": {\"age\": {\"$gt\": 18}}}]"@,
                "JSON text, e.g. [{\"$match\": {\"age\": {\"$gt\": 18}}}]"@,
                chinese,
            )
        }),
{
    lemma_words();
    let node = described(chinese)[5];
    let schema = node.config_schema->Object_0;
    assert(distinct_keys(schema));
    assert(schema[1].0 == "properties"@);
    assert(schema[2].0 == "required"@);
    lemma_lookup(schema, "properties"@);
    lemma_lookup(schema, "required"@);
    let properties = aggregate_properties(chinese)->Object_0;
    assert(distinct_keys(properties));
    assert(properties[0].0 == "connection_uuid"@);
    lemma_lookup(properties, "connection_uuid"@);
    assert(properties[1].0 == "collection"@);
    lemma_lookup(properties, "collection"@);
    assert(properties[2].0 == "pipeline"@);
    lemma_lookup(properties, "pipeline"@);
    assert(properties[3].0 == "limit"@);
    lemma_lookup(properties, "limit"@);
    assert(properties[4].0 == "timeout_ms"@);
    lemma_lookup(properties, "timeout_ms"@);
    assert(schema[2].1->Array_0 =~= seq![JsonView::String("collection"@)]);
}

/// `mongo:close` is shown under its name, starts from its first configuration, and says of every
/// field what it is.
pub proof fn law_close_is_shown(chinese: bool)
    ensures
        ({
            let node = described(chinese)[6];
            &&& is_shown_as(node, "mongo:close"@, "Mongo Close"@, "plug"@, false)
            &&& node.default_config == JsonView::Object(Seq::empty())
            &&& must_have(node, Seq::empty())
            &&& properties_of(node) matches JsonView::Object(all) && all.len() == 1
            &&& is_selector(node, chinese)
        }),
{
    lemma_words();
    let node = described(chinese)[6];
    let schema = node.config_schema->Object_0;
    assert(distinct_keys(schema));
    assert(schema[1].0 == "properties"@);
    assert(schema[2].0 == "required"@);
    lemma_lookup(schema, "properties"@);
    lemma_lookup(schema, "required"@);
    let properties = close_properties(chinese)->Object_0;
    assert(distinct_keys(properties));
    assert(properties[0].0 == "connection_uuid"@);
    lemma_lookup(properties, "connection_uuid"@);
    assert(schema[2].1->Array_0 =~= Seq::<JsonView>::empty());
}

/// A flow comes into a node by `in`. It leaves a node that works on the database by `true` or
/// `false`, and `mongo:close` by `out`.
pub proof fn law_ports_lead_in_and_out(chinese: bool)
    ensures
        ports_of_operation(chinese) == seq![
            (PortView { id: "in"@, name: said("输入"@, "Input"@, chinese), kind: PortKind::In }),
            (PortView { id: "true"@, name: said("成功"@, "Success"@, chinese), kind: PortKind::Out }),
            (PortView { id: "false"@, name: said("失败"@, "Failure"@, chinese), kind: PortKind::Out }),
        ],
        ports_of_close(chinese) == seq![
            (PortView { id: "in"@, name: said("输入"@, "Input"@, chinese), kind: PortKind::In }),
            (PortView { id: "out"@, name: said("输出"@, "Output"@, chinese), kind: PortKind::Out }),
        ],
{
}

} // verus!

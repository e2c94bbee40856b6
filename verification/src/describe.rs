//! What the nodes are: their names, ports, first configurations and configuration schemas.
use vstd::prelude::*;

use crate::i18n::Locale;
use crate::i18n::message;
use crate::i18n::said;
use crate::value::Json;
use crate::value::JsonView;
use crate::value::Number;
use crate::value::NumberKind;
use crate::value::json_object;
use crate::value::json_string;
use crate::value::pair_views;

verus! {

/// Whether a port leads into a node or out of it.
#[derive(Clone, Copy, Debug, PartialEq, Eq, Structural)]
pub enum PortKind {
    In,
    Out,
}

/// A port of a node.
#[derive(Debug, PartialEq)]
pub struct PortDescription {
    pub id: String,
    pub name: String,
    pub kind: PortKind,
}

/// What a port holds.
#[verifier::ext_equal]
pub struct PortView {
    pub id: Seq<char>,
    pub name: Seq<char>,
    pub kind: PortKind,
}

impl View for PortDescription {
    type V = PortView;

    open spec fn view(&self) -> PortView {
        PortView { id: self.id@, name: self.name@, kind: self.kind }
    }
}

/// What a node can do beside its work in a flow.
#[derive(Clone, Copy, Debug, PartialEq, Eq, Structural)]
pub struct PluginCapabilities {
    /// Whether the host can run the node by itself.
    pub single_node: bool,
}

/// A node, as the host shows it.
#[derive(Debug, PartialEq)]
pub struct NodeDescription {
    pub type_id: String,
    pub display_name: String,
    pub category: String,
    pub icon: String,
    pub color: String,
    pub ports: Vec<PortDescription>,
    /// The configuration of a node that was just added.
    pub default_config: Json,
    pub capabilities: PluginCapabilities,
    /// The JSON schema of the configuration.
    pub config_schema: Json,
}

/// What a description holds.
#[verifier::ext_equal]
pub struct NodeView {
    pub type_id: Seq<char>,
    pub display_name: Seq<char>,
    pub category: Seq<char>,
    pub icon: Seq<char>,
    pub color: Seq<char>,
    pub ports: Seq<PortView>,
    pub default_config: JsonView,
    pub capabilities: PluginCapabilities,
    pub config_schema: JsonView,
}

/// What some ports hold.
pub open spec fn port_views(ports: Seq<PortDescription>) -> Seq<PortView> {
    Seq::new(ports.len(), |i: int| ports[i]@)
}

impl View for NodeDescription {
    type V = NodeView;

    open spec fn view(&self) -> NodeView {
        NodeView {
            type_id: self.type_id@,
            display_name: self.display_name@,
            category: self.category@,
            icon: self.icon@,
            color: self.color@,
            ports: port_views(self.ports@),
            default_config: self.default_config@,
            capabilities: self.capabilities,
            config_schema: self.config_schema@,
        }
    }
}

/// The port by which a flow comes into a node.
pub open spec fn port_in(chinese: bool) -> PortView {
    PortView { id: "in"@, name: said("输入"@, "Input"@, chinese), kind: PortKind::In }
}

/// The ports of a node that works on the database: a flow goes on by `true` after a success and
/// by `false` after a failure.
pub open spec fn ports_of_operation(chinese: bool) -> Seq<PortView> {
    seq![
        port_in(chinese),
        PortView { id: "true"@, name: said("成功"@, "Success"@, chinese), kind: PortKind::Out },
        PortView { id: "false"@, name: said("失败"@, "Failure"@, chinese), kind: PortKind::Out },
    ]
}

/// The ports of `mongo:close`.
pub open spec fn ports_of_close(chinese: bool) -> Seq<PortView> {
    seq![
        port_in(chinese),
        PortView { id: "out"@, name: said("输出"@, "Output"@, chinese), kind: PortKind::Out },
    ]
}

/// A port with a name in the language that the host gave.
fn port(
    id: &str,
    zh: &'static str,
    en: &'static str,
    kind: PortKind,
    locale: &Locale,
) -> (r: PortDescription)
    ensures
        r@ == (PortView { id: id@, name: said(zh@, en@, locale.chinese()), kind }),
{
    PortDescription { id: id.to_owned(), name: message(zh, en, locale), kind }
}

/// The ports of a node that works on the database. A failure names no port: the host takes it to
/// `false` by the node's error strategy.
pub fn operation_ports(locale: &Locale) -> (r: Vec<PortDescription>)
    ensures
        port_views(r@) == ports_of_operation(locale.chinese()),
{
    let r: Vec<PortDescription> = vec![
        port("in", "输入", "Input", PortKind::In, locale),
        port("true", "成功", "Success", PortKind::Out, locale),
        port("false", "失败", "Failure", PortKind::Out, locale),
    ];
    assert(port_views(r@) =~= ports_of_operation(locale.chinese()));
    r
}

/// The ports of `mongo:close`.
pub fn close_ports(locale: &Locale) -> (r: Vec<PortDescription>)
    ensures
        port_views(r@) == ports_of_close(locale.chinese()),
{
    let r: Vec<PortDescription> = vec![
        port("in", "输入", "Input", PortKind::In, locale),
        port("out", "输出", "Output", PortKind::Out, locale),
    ];
    assert(port_views(r@) =~= ports_of_close(locale.chinese()));
    r
}

/// What tells the words of the schemas apart: their lengths, and a letter where lengths agree.
pub proof fn lemma_words()
    ensures
        "uri"@.len() == 3,
        "type"@.len() == 4,
        "limit"@.len() == 5,
        "title"@.len() == 5,
        "format"@.len() == 6,
        "filter"@.len() == 6,
        "filter"@[0] == 'f',
        "update"@.len() == 6,
        "update"@[0] == 'u',
        "update"@[2] == 'd',
        "upsert"@.len() == 6,
        "upsert"@[0] == 'u',
        "upsert"@[2] == 's',
        "project"@.len() == 7,
        "database"@.len() == 8,
        "database"@[0] == 'd',
        "pipeline"@.len() == 8,
        "pipeline"@[0] == 'p',
        "required"@.len() == 8,
        "documents"@.len() == 9,
        "node_type"@.len() == 9,
        "properties"@.len() == 10,
        "timeout_ms"@.len() == 10,
        "timeout_ms"@[0] == 't',
        "collection"@.len() == 10,
        "collection"@[0] == 'c',
        "description"@.len() == 11,
        "update_many"@.len() == 11,
        "update_many"@[0] == 'u',
        "delete_many"@.len() == 11,
        "delete_many"@[0] == 'd',
        "connection_uuid"@.len() == 15,
        "x-node-selector"@.len() == 15,
{
    reveal_strlit("uri");
    reveal_strlit("type");
    reveal_strlit("limit");
    reveal_strlit("title");
    reveal_strlit("format");
    reveal_strlit("filter");
    reveal_strlit("update");
    reveal_strlit("upsert");
    reveal_strlit("project");
    reveal_strlit("database");
    reveal_strlit("pipeline");
    reveal_strlit("required");
    reveal_strlit("documents");
    reveal_strlit("node_type");
    reveal_strlit("properties");
    reveal_strlit("timeout_ms");
    reveal_strlit("collection");
    reveal_strlit("description");
    reveal_strlit("update_many");
    reveal_strlit("delete_many");
    reveal_strlit("connection_uuid");
    reveal_strlit("x-node-selector");
}

/// The schema of a field: its type and what it is.
pub open spec fn field_schema(named_type: Seq<char>, description: Seq<char>) -> JsonView {
    JsonView::Object(
        seq![
            ("type"@, JsonView::String(named_type)),
            ("description"@, JsonView::String(description)),
        ],
    )
}

/// The schema of a field that holds JSON as a text. The host shows such a field as an input with
/// its description, which it does not for an object or an array.
pub open spec fn json_field_schema(description: Seq<char>) -> JsonView {
    JsonView::Object(
        seq![
            ("type"@, JsonView::String("string"@)),
            ("format"@, JsonView::String("json"@)),
            ("description"@, JsonView::String(description)),
        ],
    )
}

/// The schema of the field that selects a connect node.
pub open spec fn selector_schema(chinese: bool) -> JsonView {
    JsonView::Object(
        seq![
            ("type"@, JsonView::String("string"@)),
            ("title"@, JsonView::String(said("Mongo 连接"@, "Mongo Connection"@, chinese))),
            (
                "x-node-selector"@,
                JsonView::Object(seq![("node_type"@, JsonView::String("mongo:connect"@))]),
            ),
        ],
    )
}

/// The schema of a configuration.
pub open spec fn object_schema(properties: JsonView, required: Seq<Seq<char>>) -> JsonView {
    JsonView::Object(
        seq![
            ("type"@, JsonView::String("object"@)),
            ("properties"@, properties),
            ("required"@, JsonView::Array(Seq::new(required.len(), |i: int| JsonView::String(required[i])))),
        ],
    )
}

/// The schema of a field: its type and what it is.
fn property(named_type: &str, zh: &'static str, en: &'static str, locale: &Locale) -> (r: Json)
    ensures
        r@ == field_schema(named_type@, said(zh@, en@, locale.chinese())),
{
    proof {
        lemma_words();
    }
    let pairs: Vec<(&'static str, Json)> = vec![
        ("type", json_string(named_type)),
        ("description", Json::String(message(zh, en, locale))),
    ];
    assert(pair_views(pairs@) =~= field_schema(
        named_type@,
        said(zh@, en@, locale.chinese()),
    )->Object_0);
    json_object(pairs)
}

/// The schema of a field that holds JSON as a text.
fn json_property(zh: &'static str, en: &'static str, locale: &Locale) -> (r: Json)
    ensures
        r@ == json_field_schema(said(zh@, en@, locale.chinese())),
{
    proof {
        lemma_words();
    }
    let pairs: Vec<(&'static str, Json)> = vec![
        ("type", json_string("string")),
        ("format", json_string("json")),
        ("description", Json::String(message(zh, en, locale))),
    ];
    assert(pair_views(pairs@) =~= json_field_schema(
        said(zh@, en@, locale.chinese()),
    )->Object_0);
    json_object(pairs)
}

/// The schema of the field `connection_uuid`: the host shows a choice among the connect nodes of
/// the flow, and sets in the id of the chosen one.
pub fn connection_uuid_property(locale: &Locale) -> (r: Json)
    ensures
        r@ == selector_schema(locale.chinese()),
{
    proof {
        lemma_words();
    }
    let selector: Json = json_object(vec![("node_type", json_string("mongo:connect"))]);
    assert(selector@->Object_0 =~= seq![("node_type"@, JsonView::String("mongo:connect"@))]);
    let pairs: Vec<(&'static str, Json)> = vec![
        ("type", json_string("string")),
        ("title", Json::String(message("Mongo 连接", "Mongo Connection", locale))),
        ("x-node-selector", selector),
    ];
    assert(pair_views(pairs@) =~= selector_schema(locale.chinese())->Object_0);
    json_object(pairs)
}

/// An array without elements.
fn empty_array() -> (r: Json)
    ensures
        r@ == JsonView::Array(Seq::empty()),
{
    let r = Json::Array(Vec::new());
    assert(r@->Array_0 =~= Seq::empty());
    r
}

/// What some names hold.
pub open spec fn name_views(names: Seq<&'static str>) -> Seq<Seq<char>> {
    Seq::new(names.len(), |i: int| names[i]@)
}

/// The schema of a configuration.
fn schema(properties: Json, required: Vec<&'static str>) -> (r: Json)
    ensures
        r@ == object_schema(properties@, name_views(required@)),
{
    proof {
        lemma_words();
    }
    let ghost wanted = object_schema(properties@, name_views(required@));
    let mut names: Vec<Json> = Vec::new();
    let mut i: usize = 0;
    while i < required.len()
        invariant
            i <= required@.len(),
            names@.len() == i,
            forall|j: int|
                0 <= j < i ==> (#[trigger] names@[j])@ == JsonView::String(required@[j]@),
        decreases required.len() - i,
    {
        names.push(json_string(required[i]));
        i = i + 1;
    }
    let list = Json::Array(names);
    assert(list@->Array_0 =~= wanted->Object_0[2].1->Array_0);
    let pairs: Vec<(&'static str, Json)> = vec![
        ("type", json_string("object")),
        ("properties", properties),
        ("required", list),
    ];
    assert(pair_views(pairs@) =~= wanted->Object_0);
    json_object(pairs)
}

/// A node of this plugin.
pub open spec fn node_of(
    type_id: Seq<char>,
    display_name: Seq<char>,
    icon: Seq<char>,
    color: Seq<char>,
    default_config: JsonView,
    properties: JsonView,
    required: Seq<Seq<char>>,
    ports: Seq<PortView>,
    capabilities: PluginCapabilities,
) -> NodeView {
    NodeView {
        type_id,
        display_name,
        category: "MongoDB"@,
        icon,
        color,
        ports,
        default_config,
        capabilities,
        config_schema: object_schema(properties, required),
    }
}

/// Describes a node of this plugin: `default_config` is the configuration of a node that was just
/// added, `properties` are the schemas of its fields and `required` the fields that it must have.
/// Where no capabilities are given, the node has none.
pub fn mongo_node(
    type_id: &str,
    display_name: &str,
    icon: &str,
    color: &str,
    default_config: Json,
    properties: Json,
    required: Vec<&'static str>,
    ports: Vec<PortDescription>,
    capabilities: Option<PluginCapabilities>,
) -> (node: NodeDescription)
    ensures
        node@ == node_of(
            type_id@,
            display_name@,
            icon@,
            color@,
            default_config@,
            properties@,
            name_views(required@),
            port_views(ports@),
            match capabilities {
                Some(capabilities) => capabilities,
                None => PluginCapabilities { single_node: false },
            },
        ),
{
    NodeDescription {
        type_id: type_id.to_owned(),
        display_name: display_name.to_owned(),
        category: "MongoDB".to_owned(),
        icon: icon.to_owned(),
        color: color.to_owned(),
        ports,
        default_config,
        capabilities: match capabilities {
            Some(capabilities) => capabilities,
            None => PluginCapabilities { single_node: false },
        },
        config_schema: schema(properties, required),
    }
}

/// The node `mongo:connect`, which makes a connection. The host can run it by itself, to try a connection.
pub open spec fn connect_node(chinese: bool) -> NodeView {
    node_of(
        "mongo:connect"@,
        "Mongo Connect"@,
        "database"@,
        "#10b981"@,
        connect_defaults(),
        connect_properties(chinese),
        seq!["uri"@, "database"@, "timeout_ms"@],
        ports_of_operation(chinese),
        PluginCapabilities { single_node: true },
    )
}

/// The first configuration of `mongo:connect`.
pub open spec fn connect_defaults() -> JsonView {
    JsonView::Object(
        seq![
            ("uri"@, JsonView::String("mongodb://localhost:27017"@)),
            ("database"@, JsonView::String("mydb"@)),
            ("timeout_ms"@, JsonView::Number(NumberKind::PosInt(5000))),
        ],
    )
}

/// The schemas of the fields of `mongo:connect`.
pub open spec fn connect_properties(chinese: bool) -> JsonView {
    JsonView::Object(
        seq![
            ("uri"@, field_schema("string"@, said("MongoDB 连接串，例如 mongodb://localhost:27017"@, "MongoDB connection string, e.g. mongodb://localhost:27017"@, chinese))),
            ("database"@, field_schema("string"@, said("数据库名，例如 mydb"@, "Database name, e.g. mydb"@, chinese))),
            ("timeout_ms"@, field_schema("integer"@, said("连接超时（毫秒）"@, "Connection timeout (ms)"@, chinese))),
        ],
    )
}

/// Describes `mongo:connect`.
fn describe_connect(locale: &Locale) -> (node: NodeDescription)
    ensures
        node@ == connect_node(locale.chinese()),
{
    proof {
        lemma_words();
    }
    let defaults: Vec<(&'static str, Json)> = vec![
        ("uri", json_string("mongodb://localhost:27017")),
        ("database", json_string("mydb")),
        ("timeout_ms", Json::Number(Number::from_unsigned(5000))),
    ];
    assert(pair_views(defaults@) =~= connect_defaults()->Object_0);
    let properties: Vec<(&'static str, Json)> = vec![
        ("uri", property(
                "string",
                "MongoDB 连接串，例如 mongodb://localhost:27017",
                "MongoDB connection string, e.g. mongodb://localhost:27017",
                locale,
            )),
        ("database", property(
                "string",
                "数据库名，例如 mydb",
                "Database name, e.g. mydb",
                locale,
            )),
        ("timeout_ms", property(
                "integer",
                "连接超时（毫秒）",
                "Connection timeout (ms)",
                locale,
            )),
    ];
    assert(pair_views(properties@) =~= connect_properties(locale.chinese())->Object_0);
    let required: Vec<&'static str> = vec!["uri", "database", "timeout_ms"];
    assert(name_views(required@) =~= seq!["uri"@, "database"@, "timeout_ms"@]);
    mongo_node(
        "mongo:connect",
        "Mongo Connect",
        "database",
        "#10b981",
        json_object(defaults),
        json_object(properties),
        required,
        operation_ports(locale),
        Some(PluginCapabilities { single_node: true }),
    )
}

/// The node `mongo:find`, which reads documents.
pub open spec fn find_node(chinese: bool) -> NodeView {
    node_of(
        "mongo:find"@,
        "Mongo Find"@,
        "search"@,
        "#10b981"@,
        find_defaults(),
        find_properties(chinese),
        seq!["collection"@],
        ports_of_operation(chinese),
        PluginCapabilities { single_node: false },
    )
}

/// The first configuration of `mongo:find`.
pub open spec fn find_defaults() -> JsonView {
    JsonView::Object(
        seq![
            ("collection"@, JsonView::String("users"@)),
            ("filter"@, JsonView::Null),
            ("project"@, JsonView::Null),
            ("limit"@, JsonView::Number(NumberKind::PosInt(100))),
            ("timeout_ms"@, JsonView::Number(NumberKind::PosInt(5000))),
        ],
    )
}

/// The schemas of the fields of `mongo:find`.
pub open spec fn find_properties(chinese: bool) -> JsonView {
    JsonView::Object(
        seq![
            ("connection_uuid"@, selector_schema(chinese)),
            ("collection"@, field_schema("string"@, said("集合名"@, "Collection name"@, chinese))),
            ("filter"@, json_field_schema(said("JSON 文本，例如 {\"age\": {\"$gt\": 18}}"@, "JSON text, e.g. {\"age\": {\"$gt\": 18}}"@, chinese))),
            ("project"@, json_field_schema(said("JSON 文本，例如 {\"name\": 1, \"_id\": 0}；null 表示不投影"@, "JSON text, e.g. {\"name\": 1, \"_id\": 0}; null means no projection"@, chinese))),
            ("limit"@, field_schema("integer"@, said("返回条数上限"@, "Maximum documents to return"@, chinese))),
            ("timeout_ms"@, field_schema("integer"@, said("操作超时（毫秒）"@, "Operation timeout (ms)"@, chinese))),
        ],
    )
}

/// Describes `mongo:find`.
fn describe_find(locale: &Locale) -> (node: NodeDescription)
    ensures
        node@ == find_node(locale.chinese()),
{
    proof {
        lemma_words();
    }
    let defaults: Vec<(&'static str, Json)> = vec![
        ("collection", json_string("users")),
        ("filter", Json::Null),
        ("project", Json::Null),
        ("limit", Json::Number(Number::from_unsigned(100))),
        ("timeout_ms", Json::Number(Number::from_unsigned(5000))),
    ];
    assert(pair_views(defaults@) =~= find_defaults()->Object_0);
    let properties: Vec<(&'static str, Json)> = vec![
        ("connection_uuid", connection_uuid_property(locale)),
        ("collection", property(
                "string",
                "集合名",
                "Collection name",
                locale,
            )),
        ("filter", json_property("JSON 文本，例如 {\"age\": {\"$gt\": 18}}", "JSON text, e.g. {\"age\": {\"$gt\": 18}}", locale)),
        ("project", json_property("JSON 文本，例如 {\"name\": 1, \"_id\": 0}；null 表示不投影", "JSON text, e.g. {\"name\": 1, \"_id\": 0}; null means no projection", locale)),
        ("limit", property(
                "integer",
                "返回条数上限",
                "Maximum documents to return",
                locale,
            )),
        ("timeout_ms", property(
                "integer",
                "操作超时（毫秒）",
                "Operation timeout (ms)",
                locale,
            )),
    ];
    assert(pair_views(properties@) =~= find_properties(locale.chinese())->Object_0);
    let required: Vec<&'static str> = vec!["collection"];
    assert(name_views(required@) =~= seq!["collection"@]);
    mongo_node(
        "mongo:find",
        "Mongo Find",
        "search",
        "#10b981",
        json_object(defaults),
        json_object(properties),
        required,
        operation_ports(locale),
        None,
    )
}

/// The node `mongo:insert`, which inserts documents.
pub open spec fn insert_node(chinese: bool) -> NodeView {
    node_of(
        "mongo:insert"@,
        "Mongo Insert"@,
        "plus"@,
        "#10b981"@,
        insert_defaults(),
        insert_properties(chinese),
        seq!["collection"@],
        ports_of_operation(chinese),
        PluginCapabilities { single_node: false },
    )
}

/// The first configuration of `mongo:insert`.
pub open spec fn insert_defaults() -> JsonView {
    JsonView::Object(
        seq![
            ("collection"@, JsonView::String("users"@)),
            ("documents"@, JsonView::Array(Seq::empty())),
            ("timeout_ms"@, JsonView::Number(NumberKind::PosInt(5000))),
        ],
    )
}

/// The schemas of the fields of `mongo:insert`.
pub open spec fn insert_properties(chinese: bool) -> JsonView {
    JsonView::Object(
        seq![
            ("connection_uuid"@, selector_schema(chinese)),
            ("collection"@, field_schema("string"@, said("集合名"@, "Collection name"@, chinese))),
            ("documents"@, json_field_schema(said("JSON 文本，例如 [{\"name\": \"Alice\", \"age\": 30}]"@, "JSON text, e.g. [{\"name\": \"Alice\", \"age\": 30}]"@, chinese))),
            ("timeout_ms"@, field_schema("integer"@, said("操作超时（毫秒）"@, "Operation timeout (ms)"@, chinese))),
        ],
    )
}

/// Describes `mongo:insert`.
fn describe_insert(locale: &Locale) -> (node: NodeDescription)
    ensures
        node@ == insert_node(locale.chinese()),
{
    proof {
        lemma_words();
    }
    let defaults: Vec<(&'static str, Json)> = vec![
        ("collection", json_string("users")),
        ("documents", empty_array()),
        ("timeout_ms", Json::Number(Number::from_unsigned(5000))),
    ];
    assert(pair_views(defaults@) =~= insert_defaults()->Object_0);
    let properties: Vec<(&'static str, Json)> = vec![
        ("connection_uuid", connection_uuid_property(locale)),
        ("collection", property(
                "string",
                "集合名",
                "Collection name",
                locale,
            )),
        ("documents", json_property("JSON 文本，例如 [{\"name\": \"Alice\", \"age\": 30}]", "JSON text, e.g. [{\"name\": \"Alice\", \"age\": 30}]", locale)),
        ("timeout_ms", property(
                "integer",
                "操作超时（毫秒）",
                "Operation timeout (ms)",
                locale,
            )),
    ];
    assert(pair_views(properties@) =~= insert_properties(locale.chinese())->Object_0);
    let required: Vec<&'static str> = vec!["collection"];
    assert(name_views(required@) =~= seq!["collection"@]);
    mongo_node(
        "mongo:insert",
        "Mongo Insert",
        "plus",
        "#10b981",
        json_object(defaults),
        json_object(properties),
        required,
        operation_ports(locale),
        None,
    )
}

/// The node `mongo:update`, which updates documents.
pub open spec fn update_node(chinese: bool) -> NodeView {
    node_of(
        "mongo:update"@,
        "Mongo Update"@,
        "refresh-cw"@,
        "#10b981"@,
        update_defaults(),
        update_properties(chinese),
        seq!["collection"@],
        ports_of_operation(chinese),
        PluginCapabilities { single_node: false },
    )
}

/// The first configuration of `mongo:update`.
pub open spec fn update_defaults() -> JsonView {
    JsonView::Object(
        seq![
            ("collection"@, JsonView::String("users"@)),
            ("filter"@, JsonView::Null),
            ("update"@, JsonView::Null),
            ("upsert"@, JsonView::Bool(false)),
            ("update_many"@, JsonView::Bool(false)),
            ("timeout_ms"@, JsonView::Number(NumberKind::PosInt(5000))),
        ],
    )
}

/// The schemas of the fields of `mongo:update`.
pub open spec fn update_properties(chinese: bool) -> JsonView {
    JsonView::Object(
        seq![
            ("connection_uuid"@, selector_schema(chinese)),
            ("collection"@, field_schema("string"@, said("集合名"@, "Collection name"@, chinese))),
            ("filter"@, json_field_schema(said("JSON 文本，例如 {\"name\": \"Alice\"}"@, "JSON text, e.g. {\"name\": \"Alice\"}"@, chinese))),
            ("update"@, json_field_schema(said("JSON 文本，例如 {\"$set\": {\"age\": 31}}"@, "JSON text, e.g. {\"$set\": {\"age\": 31}}"@, chinese))),
            ("upsert"@, field_schema("boolean"@, said("不存在匹配文档时是否插入新文档"@, "Insert a new document when no match is found"@, chinese))),
            ("update_many"@, field_schema("boolean"@, said("是否更新所有匹配文档（updateMany）"@, "Update all matching documents (updateMany)"@, chinese))),
            ("timeout_ms"@, field_schema("integer"@, said("操作超时（毫秒）"@, "Operation timeout (ms)"@, chinese))),
        ],
    )
}

/// Describes `mongo:update`.
fn describe_update(locale: &Locale) -> (node: NodeDescription)
    ensures
        node@ == update_node(locale.chinese()),
{
    proof {
        lemma_words();
    }
    let defaults: Vec<(&'static str, Json)> = vec![
        ("collection", json_string("users")),
        ("filter", Json::Null),
        ("update", Json::Null),
        ("upsert", Json::Bool(false)),
        ("update_many", Json::Bool(false)),
        ("timeout_ms", Json::Number(Number::from_unsigned(5000))),
    ];
    assert(pair_views(defaults@) =~= update_defaults()->Object_0);
    let properties: Vec<(&'static str, Json)> = vec![
        ("connection_uuid", connection_uuid_property(locale)),
        ("collection", property(
                "string",
                "集合名",
                "Collection name",
                locale,
            )),
        ("filter", json_property("JSON 文本，例如 {\"name\": \"Alice\"}", "JSON text, e.g. {\"name\": \"Alice\"}", locale)),
        ("update", json_property("JSON 文本，例如 {\"$set\": {\"age\": 31}}", "JSON text, e.g. {\"$set\": {\"age\": 31}}", locale)),
        ("upsert", property(
                "boolean",
                "不存在匹配文档时是否插入新文档",
                "Insert a new document when no match is found",
                locale,
            )),
        ("update_many", property(
                "boolean",
                "是否更新所有匹配文档（updateMany）",
                "Update all matching documents (updateMany)",
                locale,
            )),
        ("timeout_ms", property(
                "integer",
                "操作超时（毫秒）",
                "Operation timeout (ms)",
                locale,
            )),
    ];
    assert(pair_views(properties@) =~= update_properties(locale.chinese())->Object_0);
    let required: Vec<&'static str> = vec!["collection"];
    assert(name_views(required@) =~= seq!["collection"@]);
    mongo_node(
        "mongo:update",
        "Mongo Update",
        "refresh-cw",
        "#10b981",
        json_object(defaults),
        json_object(properties),
        required,
        operation_ports(locale),
        None,
    )
}

/// The node `mongo:delete`, which deletes documents.
pub open spec fn delete_node(chinese: bool) -> NodeView {
    node_of(
        "mongo:delete"@,
        "Mongo Delete"@,
        "trash-2"@,
        "#10b981"@,
        delete_defaults(),
        delete_properties(chinese),
        seq!["collection"@],
        ports_of_operation(chinese),
        PluginCapabilities { single_node: false },
    )
}

/// The first configuration of `mongo:delete`.
pub open spec fn delete_defaults() -> JsonView {
    JsonView::Object(
        seq![
            ("collection"@, JsonView::String("users"@)),
            ("filter"@, JsonView::Null),
            ("delete_many"@, JsonView::Bool(false)),
            ("timeout_ms"@, JsonView::Number(NumberKind::PosInt(5000))),
        ],
    )
}

/// The schemas of the fields of `mongo:delete`.
pub open spec fn delete_properties(chinese: bool) -> JsonView {
    JsonView::Object(
        seq![
            ("connection_uuid"@, selector_schema(chinese)),
            ("collection"@, field_schema("string"@, said("集合名"@, "Collection name"@, chinese))),
            ("filter"@, json_field_schema(said("JSON 文本，例如 {\"name\": \"Alice\"}"@, "JSON text, e.g. {\"name\": \"Alice\"}"@, chinese))),
            ("delete_many"@, field_schema("boolean"@, said("是否删除所有匹配文档（deleteMany）"@, "Delete all matching documents (deleteMany)"@, chinese))),
            ("timeout_ms"@, field_schema("integer"@, said("操作超时（毫秒）"@, "Operation timeout (ms)"@, chinese))),
        ],
    )
}

/// Describes `mongo:delete`.
fn describe_delete(locale: &Locale) -> (node: NodeDescription)
    ensures
        node@ == delete_node(locale.chinese()),
{
    proof {
        lemma_words();
    }
    let defaults: Vec<(&'static str, Json)> = vec![
        ("collection", json_string("users")),
        ("filter", Json::Null),
        ("delete_many", Json::Bool(false)),
        ("timeout_ms", Json::Number(Number::from_unsigned(5000))),
    ];
    assert(pair_views(defaults@) =~= delete_defaults()->Object_0);
    let properties: Vec<(&'static str, Json)> = vec![
        ("connection_uuid", connection_uuid_property(locale)),
        ("collection", property(
                "string",
                "集合名",
                "Collection name",
                locale,
            )),
        ("filter", json_property("JSON 文本，例如 {\"name\": \"Alice\"}", "JSON text, e.g. {\"name\": \"Alice\"}", locale)),
        ("delete_many", property(
                "boolean",
                "是否删除所有匹配文档（deleteMany）",
                "Delete all matching documents (deleteMany)",
                locale,
            )),
        ("timeout_ms", property(
                "integer",
                "操作超时（毫秒）",
                "Operation timeout (ms)",
                locale,
            )),
    ];
    assert(pair_views(properties@) =~= delete_properties(locale.chinese())->Object_0);
    let required: Vec<&'static str> = vec!["collection"];
    assert(name_views(required@) =~= seq!["collection"@]);
    mongo_node(
        "mongo:delete",
        "Mongo Delete",
        "trash-2",
        "#10b981",
        json_object(defaults),
        json_object(properties),
        required,
        operation_ports(locale),
        None,
    )
}

/// The node `mongo:aggregate`, which runs an aggregation pipeline.
pub open spec fn aggregate_node(chinese: bool) -> NodeView {
    node_of(
        "mongo:aggregate"@,
        "Mongo Aggregate"@,
        "layers"@,
        "#10b981"@,
        aggregate_defaults(),
        aggregate_properties(chinese),
        seq!["collection"@],
        ports_of_operation(chinese),
        PluginCapabilities { single_node: false },
    )
}

/// The first configuration of `mongo:aggregate`.
pub open spec fn aggregate_defaults() -> JsonView {
    JsonView::Object(
        seq![
            ("collection"@, JsonView::String("users"@)),
            ("pipeline"@, JsonView::Array(Seq::empty())),
            ("limit"@, JsonView::Number(NumberKind::PosInt(100))),
            ("timeout_ms"@, JsonView::Number(NumberKind::PosInt(5000))),
        ],
    )
}

/// The schemas of the fields of `mongo:aggregate`.
pub open spec fn aggregate_properties(chinese: bool) -> JsonView {
    JsonView::Object(
        seq![
            ("connection_uuid"@, selector_schema(chinese)),
            ("collection"@, field_schema("string"@, said("集合名"@, "Collection name"@, chinese))),
            ("pipeline"@, json_field_schema(said("JSON 文本，例如 [{\"$match\": {\"age\": {\"$gt\": 18}}}]"@, "JSON text, e.g. [{\"$match\": {\"age\": {\"$gt\": 18}}}]"@, chinese))),
            ("limit"@, field_schema("integer"@, said("返回条数上限"@, "Maximum documents to return"@, chinese))),
            ("timeout_ms"@, field_schema("integer"@, said("操作超时（毫秒）"@, "Operation timeout (ms)"@, chinese))),
        ],
    )
}

/// Describes `mongo:aggregate`.
fn describe_aggregate(locale: &Locale) -> (node: NodeDescription)
    ensures
        node@ == aggregate_node(locale.chinese()),
{
    proof {
        lemma_words();
    }
    let defaults: Vec<(&'static str, Json)> = vec![
        ("collection", json_string("users")),
        ("pipeline", empty_array()),
        ("limit", Json::Number(Number::from_unsigned(100))),
        ("timeout_ms", Json::Number(Number::from_unsigned(5000))),
    ];
    assert(pair_views(defaults@) =~= aggregate_defaults()->Object_0);
    let properties: Vec<(&'static str, Json)> = vec![
        ("connection_uuid", connection_uuid_property(locale)),
        ("collection", property(
                "string",
                "集合名",
                "Collection name",
                locale,
            )),
        ("pipeline", json_property("JSON 文本，例如 [{\"$match\": {\"age\": {\"$gt\": 18}}}]", "JSON text, e.g. [{\"$match\": {\"age\": {\"$gt\": 18}}}]", locale)),
        ("limit", property(
                "integer",
                "返回条数上限",
                "Maximum documents to return",
                locale,
            )),
        ("timeout_ms", property(
                "integer",
                "操作超时（毫秒）",
                "Operation timeout (ms)",
                locale,
            )),
    ];
    assert(pair_views(properties@) =~= aggregate_properties(locale.chinese())->Object_0);
    let required: Vec<&'static str> = vec!["collection"];
    assert(name_views(required@) =~= seq!["collection"@]);
    mongo_node(
        "mongo:aggregate",
        "Mongo Aggregate",
        "layers",
        "#10b981",
        json_object(defaults),
        json_object(properties),
        required,
        operation_ports(locale),
        None,
    )
}

/// The node `mongo:close`, which releases connections.
pub open spec fn close_node(chinese: bool) -> NodeView {
    node_of(
        "mongo:close"@,
        "Mongo Close"@,
        "plug"@,
        "#10b981"@,
        close_defaults(),
        close_properties(chinese),
        Seq::empty(),
        ports_of_close(chinese),
        PluginCapabilities { single_node: false },
    )
}

/// The first configuration of `mongo:close`.
pub open spec fn close_defaults() -> JsonView {
    JsonView::Object(
        Seq::empty(),
    )
}

/// The schemas of the fields of `mongo:close`.
pub open spec fn close_properties(chinese: bool) -> JsonView {
    JsonView::Object(
        seq![
            ("connection_uuid"@, selector_schema(chinese)),
        ],
    )
}

/// Describes `mongo:close`.
fn describe_close(locale: &Locale) -> (node: NodeDescription)
    ensures
        node@ == close_node(locale.chinese()),
{
    proof {
        lemma_words();
    }
    let defaults: Vec<(&'static str, Json)> = vec![
    ];
    assert(pair_views(defaults@) =~= close_defaults()->Object_0);
    let properties: Vec<(&'static str, Json)> = vec![
        ("connection_uuid", connection_uuid_property(locale)),
    ];
    assert(pair_views(properties@) =~= close_properties(locale.chinese())->Object_0);
    let required: Vec<&'static str> = vec![];
    assert(name_views(required@) =~= Seq::empty());
    mongo_node(
        "mongo:close",
        "Mongo Close",
        "plug",
        "#10b981",
        json_object(defaults),
        json_object(properties),
        required,
        close_ports(locale),
        None,
    )
}

/// The nodes of this plugin.
pub open spec fn described(chinese: bool) -> Seq<NodeView> {
    seq![
        connect_node(chinese),
        find_node(chinese),
        insert_node(chinese),
        update_node(chinese),
        delete_node(chinese),
        aggregate_node(chinese),
        close_node(chinese),
    ]
}

/// What some descriptions hold.
pub open spec fn node_views(nodes: Seq<NodeDescription>) -> Seq<NodeView> {
    Seq::new(nodes.len(), |i: int| nodes[i]@)
}

/// Describes the nodes of this plugin.
pub fn describe(locale: &Locale) -> (nodes: Vec<NodeDescription>)
    ensures
        node_views(nodes@) == described(locale.chinese()),
{
    let nodes: Vec<NodeDescription> = vec![
        describe_connect(locale),
        describe_find(locale),
        describe_insert(locale),
        describe_update(locale),
        describe_delete(locale),
        describe_aggregate(locale),
        describe_close(locale),
    ];
    assert(node_views(nodes@) =~= described(locale.chinese()));
    nodes
}

} // verus!

//! What holds of the nodes and of their descriptions taken together.
use vstd::prelude::*;

use crate::describe::NodeView;
use crate::describe::aggregate_defaults;
use crate::describe::aggregate_node;
use crate::describe::aggregate_properties;
use crate::describe::close_defaults;
use crate::describe::close_node;
use crate::describe::close_properties;
use crate::describe::connect_defaults;
use crate::describe::connect_node;
use crate::describe::connect_properties;
use crate::describe::delete_defaults;
use crate::describe::delete_node;
use crate::describe::delete_properties;
use crate::describe::described;
use crate::describe::field_schema;
use crate::describe::find_defaults;
use crate::describe::find_node;
use crate::describe::find_properties;
use crate::describe::insert_defaults;
use crate::describe::insert_node;
use crate::describe::insert_properties;
use crate::describe::json_field_schema;
use crate::describe::lemma_words;
use crate::describe::object_schema;
use crate::describe::ports_of_close;
use crate::describe::ports_of_operation;
use crate::describe::selector_schema;
use crate::describe::update_defaults;
use crate::describe::update_node;
use crate::describe::update_properties;
use crate::fields::distinct_keys;
use crate::fields::lemma_lookup;
use crate::fields::lookup;
use crate::plugin::StepView;
use crate::plugin::step_of;
use crate::plugin::type_of;
use crate::plugin::unknown;
use crate::pool::PoolView;
use crate::value::JsonView;
use crate::value::member;
use crate::value::member_text;

verus! {

/// Whether the plugin describes a node of this type.
pub open spec fn is_described(node_type: Seq<char>, chinese: bool) -> bool {
    exists|i: int|
        0 <= i < described(chinese).len() && (#[trigger] described(chinese)[i]).type_id == node_type
}

/// Tells the types of the nodes apart.
pub proof fn lemma_types()
    ensures
        "mongo:find"@.len() == 10,
        "mongo:close"@.len() == 11,
        "mongo:insert"@.len() == 12,
        "mongo:insert"@[6] == 'i',
        "mongo:update"@.len() == 12,
        "mongo:update"@[6] == 'u',
        "mongo:delete"@.len() == 12,
        "mongo:delete"@[6] == 'd',
        "mongo:connect"@.len() == 13,
        "mongo:aggregate"@.len() == 15,
{
    reveal_strlit("mongo:find");
    reveal_strlit("mongo:close");
    reveal_strlit("mongo:insert");
    reveal_strlit("mongo:update");
    reveal_strlit("mongo:delete");
    reveal_strlit("mongo:connect");
    reveal_strlit("mongo:aggregate");
}

/// The plugin describes seven nodes, each of another type.
pub proof fn law_node_types_are_unique(chinese: bool)
    ensures
        described(chinese).len() == 7,
        forall|i: int, j: int|
            0 <= i < j < described(chinese).len() ==> (#[trigger] described(chinese)[i]).type_id != (
            #[trigger] described(chinese)[j]).type_id,
{
    lemma_types();
}

/// The plugin runs the nodes that it describes, and no other: a call is answered with the report
/// of an unknown node exactly when no description has its type.
pub proof fn law_described_nodes_are_run(
    pool: PoolView,
    execution_id: Seq<char>,
    node_instance_id: Seq<char>,
    config: JsonView,
    chinese: bool,
)
    ensures
        is_described(type_of(config), chinese) <==> step_of(
            pool,
            execution_id,
            node_instance_id,
            config,
            chinese,
        ) != StepView::Done(unknown(type_of(config), chinese)),
{
    let nodes = described(chinese);
    assert(nodes[0].type_id == "mongo:connect"@);
    assert(nodes[1].type_id == "mongo:find"@);
    assert(nodes[2].type_id == "mongo:insert"@);
    assert(nodes[3].type_id == "mongo:update"@);
    assert(nodes[4].type_id == "mongo:delete"@);
    assert(nodes[5].type_id == "mongo:aggregate"@);
    assert(nodes[6].type_id == "mongo:close"@);
}

/// The schemas of a node's fields.
pub open spec fn properties_of(node: NodeView) -> JsonView {
    match member(node.config_schema, "properties"@) {
        Some(properties) => properties,
        None => JsonView::Null,
    }
}

/// What the host relies on in a description.
pub open spec fn well_described(node: NodeView, chinese: bool) -> bool {
    &&& node.category == "MongoDB"@
    &&& node.color == "#10b981"@
    &&& node.icon.len() > 0
    // The schema is that of an object, and every field says its type.
    &&& member_text(node.config_schema, "type"@) == Some("object"@)
    &&& properties_of(node) matches JsonView::Object(properties) && forall|i: int|
        0 <= i < properties.len() ==> member_text((#[trigger] properties[i]).1, "type"@) is Some
    // The first configuration has fields of the schema, and so not the type of the node.
    &&& node.default_config matches JsonView::Object(fields) && forall|i: int|
        0 <= i < fields.len() ==> member(properties_of(node), (#[trigger] fields[i]).0) is Some
    &&& member(node.default_config, "type"@) is None
    // A connect node names a database; every other node selects a connect node.
    &&& node.type_id != "mongo:connect"@ ==> {
        &&& member(node.default_config, "database"@) is None
        &&& member(properties_of(node), "connection_uuid"@) == Some(selector_schema(chinese))
    }
    &&& node.ports == if node.type_id == "mongo:close"@ {
        ports_of_close(chinese)
    } else {
        ports_of_operation(chinese)
    }
}

/// The schema of a configuration gives back its type and its fields.
proof fn lemma_schema(properties: JsonView, required: Seq<Seq<char>>)
    ensures
        member_text(object_schema(properties, required), "type"@) == Some("object"@),
        member(object_schema(properties, required), "properties"@) == Some(properties),
{
    lemma_words();
    let fields = object_schema(properties, required)->Object_0;
    assert(distinct_keys(fields));
    lemma_lookup(fields, "type"@);
    lemma_lookup(fields, "properties"@);
    assert(fields[0].0 == "type"@);
    assert(fields[1].0 == "properties"@);
}

/// Every schema of a field says the type.
proof fn lemma_field_types(named_type: Seq<char>, description: Seq<char>, chinese: bool)
    ensures
        member_text(field_schema(named_type, description), "type"@) == Some(named_type),
        member_text(json_field_schema(description), "type"@) == Some("string"@),
        member_text(json_field_schema(description), "format"@) == Some("json"@),
        member_text(selector_schema(chinese), "type"@) == Some("string"@),
{
    lemma_words();
    let a = field_schema(named_type, description)->Object_0;
    assert(distinct_keys(a));
    assert(a[0].0 == "type"@);
    lemma_lookup(a, "type"@);
    let b = json_field_schema(description)->Object_0;
    assert(distinct_keys(b));
    assert(b[0].0 == "type"@);
    assert(b[1].0 == "format"@);
    lemma_lookup(b, "type"@);
    lemma_lookup(b, "format"@);
    let c = selector_schema(chinese)->Object_0;
    assert(distinct_keys(c));
    assert(c[0].0 == "type"@);
    lemma_lookup(c, "type"@);
}

/// Objects whose fields stand in the schema: each is found there.
proof fn lemma_fields_found(
    fields: Seq<(Seq<char>, JsonView)>,
    properties: Seq<(Seq<char>, JsonView)>,
)
    requires
        distinct_keys(properties),
        forall|i: int|
            0 <= i < fields.len() ==> exists|j: int|
                0 <= j < properties.len() && (#[trigger] properties[j]).0 == (
                #[trigger] fields[i]).0,
    ensures
        forall|i: int|
            0 <= i < fields.len() ==> lookup(properties, (#[trigger] fields[i]).0) is Some,
{
    assert forall|i: int| 0 <= i < fields.len() implies lookup(
        properties,
        (#[trigger] fields[i]).0,
    ) is Some by {
        lemma_lookup(properties, fields[i].0);
        let j = choose|j: int|
            0 <= j < properties.len() && (#[trigger] properties[j]).0 == fields[i].0;
        assert(properties[j].0 == fields[i].0);
    }
}

/// Every schema of a field says the type, whatever it describes.
proof fn lemma_all_field_types(chinese: bool)
    ensures
        forall|named_type: Seq<char>, description: Seq<char>|
            member_text(#[trigger] field_schema(named_type, description), "type"@) is Some,
        forall|description: Seq<char>|
            member_text(#[trigger] json_field_schema(description), "type"@) is Some,
        member_text(selector_schema(chinese), "type"@) is Some,
{
    assert forall|named_type: Seq<char>, description: Seq<char>|
        member_text(#[trigger] field_schema(named_type, description), "type"@) is Some by {
        lemma_field_types(named_type, description, chinese);
    }
    assert forall|description: Seq<char>|
        member_text(#[trigger] json_field_schema(description), "type"@) is Some by {
        lemma_field_types("string"@, description, chinese);
    }
    lemma_field_types("string"@, "string"@, chinese);
}

/// What the host relies on holds of a node, given what its fields are.
proof fn lemma_well_described(
    node: NodeView,
    fields: Seq<(Seq<char>, JsonView)>,
    properties: Seq<(Seq<char>, JsonView)>,
    required: Seq<Seq<char>>,
    chinese: bool,
)
    requires
        node.category == "MongoDB"@,
        node.color == "#10b981"@,
        node.icon.len() > 0,
        node.default_config == JsonView::Object(fields),
        node.config_schema == object_schema(JsonView::Object(properties), required),
        distinct_keys(fields),
        distinct_keys(properties),
        forall|i: int|
            0 <= i < properties.len() ==> member_text((#[trigger] properties[i]).1, "type"@) is Some,
        forall|i: int|
            0 <= i < fields.len() ==> exists|j: int|
                0 <= j < properties.len() && (#[trigger] properties[j]).0 == (
                #[trigger] fields[i]).0,
        forall|i: int| 0 <= i < fields.len() ==> (#[trigger] fields[i]).0 != "type"@,
        node.type_id != "mongo:connect"@ ==> {
            &&& forall|i: int| 0 <= i < fields.len() ==> (#[trigger] fields[i]).0 != "database"@
            &&& properties.len() > 0
            &&& properties[0] == ("connection_uuid"@, selector_schema(chinese))
        },
        node.ports == if node.type_id == "mongo:close"@ {
            ports_of_close(chinese)
        } else {
            ports_of_operation(chinese)
        },
    ensures
        well_described(node, chinese),
{
    lemma_schema(JsonView::Object(properties), required);
    lemma_fields_found(fields, properties);
    lemma_lookup(fields, "type"@);
    lemma_lookup(fields, "database"@);
    lemma_lookup(properties, "connection_uuid"@);
}

/// The description of `mongo:connect`.
proof fn lemma_connect_described(chinese: bool)
    ensures
        well_described(connect_node(chinese), chinese),
{
    lemma_words();
    lemma_types();
    lemma_all_field_types(chinese);
    reveal_strlit("database");
    let node = connect_node(chinese);
    let fields = connect_defaults()->Object_0;
    let properties = connect_properties(chinese)->Object_0;
    assert(distinct_keys(fields));
    assert(distinct_keys(properties));
    assert(properties[0].0 == fields[0].0);
    assert(properties[1].0 == fields[1].0);
    assert(properties[2].0 == fields[2].0);
    lemma_well_described(
        node,
        fields,
        properties,
        seq!["uri"@, "database"@, "timeout_ms"@],
        chinese,
    );
}

/// The description of `mongo:find`.
proof fn lemma_find_described(chinese: bool)
    ensures
        well_described(find_node(chinese), chinese),
{
    lemma_words();
    lemma_types();
    lemma_all_field_types(chinese);
    reveal_strlit("search");
    let node = find_node(chinese);
    let fields = find_defaults()->Object_0;
    let properties = find_properties(chinese)->Object_0;
    assert(distinct_keys(fields));
    assert(distinct_keys(properties));
    assert(properties[1].0 == fields[0].0);
    assert(properties[2].0 == fields[1].0);
    assert(properties[3].0 == fields[2].0);
    assert(properties[4].0 == fields[3].0);
    assert(properties[5].0 == fields[4].0);
    lemma_well_described(
        node,
        fields,
        properties,
        seq!["collection"@],
        chinese,
    );
}

/// The description of `mongo:insert`.
proof fn lemma_insert_described(chinese: bool)
    ensures
        well_described(insert_node(chinese), chinese),
{
    lemma_words();
    lemma_types();
    lemma_all_field_types(chinese);
    reveal_strlit("plus");
    let node = insert_node(chinese);
    let fields = insert_defaults()->Object_0;
    let properties = insert_properties(chinese)->Object_0;
    assert(distinct_keys(fields));
    assert(distinct_keys(properties));
    assert(properties[1].0 == fields[0].0);
    assert(properties[2].0 == fields[1].0);
    assert(properties[3].0 == fields[2].0);
    lemma_well_described(
        node,
        fields,
        properties,
        seq!["collection"@],
        chinese,
    );
}

/// The description of `mongo:update`.
proof fn lemma_update_described(chinese: bool)
    ensures
        well_described(update_node(chinese), chinese),
{
    lemma_words();
    lemma_types();
    lemma_all_field_types(chinese);
    reveal_strlit("refresh-cw");
    let node = update_node(chinese);
    let fields = update_defaults()->Object_0;
    let properties = update_properties(chinese)->Object_0;
    assert(distinct_keys(fields));
    assert(distinct_keys(properties));
    assert(properties[1].0 == fields[0].0);
    assert(properties[2].0 == fields[1].0);
    assert(properties[3].0 == fields[2].0);
    assert(properties[4].0 == fields[3].0);
    assert(properties[5].0 == fields[4].0);
    assert(properties[6].0 == fields[5].0);
    lemma_well_described(
        node,
        fields,
        properties,
        seq!["collection"@],
        chinese,
    );
}

/// The description of `mongo:delete`.
proof fn lemma_delete_described(chinese: bool)
    ensures
        well_described(delete_node(chinese), chinese),
{
    lemma_words();
    lemma_types();
    lemma_all_field_types(chinese);
    reveal_strlit("trash-2");
    let node = delete_node(chinese);
    let fields = delete_defaults()->Object_0;
    let properties = delete_properties(chinese)->Object_0;
    assert(distinct_keys(fields));
    assert(distinct_keys(properties));
    assert(properties[1].0 == fields[0].0);
    assert(properties[2].0 == fields[1].0);
    assert(properties[3].0 == fields[2].0);
    assert(properties[4].0 == fields[3].0);
    lemma_well_described(
        node,
        fields,
        properties,
        seq!["collection"@],
        chinese,
    );
}

/// The description of `mongo:aggregate`.
proof fn lemma_aggregate_described(chinese: bool)
    ensures
        well_described(aggregate_node(chinese), chinese),
{
    lemma_words();
    lemma_types();
    lemma_all_field_types(chinese);
    reveal_strlit("layers");
    let node = aggregate_node(chinese);
    let fields = aggregate_defaults()->Object_0;
    let properties = aggregate_properties(chinese)->Object_0;
    assert(distinct_keys(fields));
    assert(distinct_keys(properties));
    assert(properties[1].0 == fields[0].0);
    assert(properties[2].0 == fields[1].0);
    assert(properties[3].0 == fields[2].0);
    assert(properties[4].0 == fields[3].0);
    lemma_well_described(
        node,
        fields,
        properties,
        seq!["collection"@],
        chinese,
    );
}

/// The description of `mongo:close`.
proof fn lemma_close_described(chinese: bool)
    ensures
        well_described(close_node(chinese), chinese),
{
    lemma_words();
    lemma_types();
    lemma_all_field_types(chinese);
    reveal_strlit("plug");
    let node = close_node(chinese);
    let fields = close_defaults()->Object_0;
    let properties = close_properties(chinese)->Object_0;
    assert(distinct_keys(fields));
    assert(distinct_keys(properties));
    lemma_well_described(
        node,
        fields,
        properties,
        Seq::empty(),
        chinese,
    );
}

/// Every node is described as the host relies on: its category, color and icon, the schema of its
/// fields, its first configuration, how it selects a connection, and its ports.
pub proof fn law_nodes_are_well_described(chinese: bool)
    ensures
        forall|i: int|
            0 <= i < described(chinese).len() ==> well_described(
                #[trigger] described(chinese)[i],
                chinese,
            ),
{
    lemma_connect_described(chinese);
    lemma_find_described(chinese);
    lemma_insert_described(chinese);
    lemma_update_described(chinese);
    lemma_delete_described(chinese);
    lemma_aggregate_described(chinese);
    lemma_close_described(chinese);
}

/// A field of a node's schema that is given as JSON text.
pub open spec fn is_json_field(node: NodeView, key: Seq<char>) -> bool {
    match member(properties_of(node), key) {
        Some(property) => {
            &&& member_text(property, "type"@) == Some("string"@)
            &&& member_text(property, "format"@) == Some("json"@)
        },
        None => false,
    }
}

/// The fields that hold a document or documents are given as JSON text.
pub proof fn law_complex_fields_are_json_text(chinese: bool)
    ensures
        is_json_field(find_node(chinese), "filter"@),
        is_json_field(find_node(chinese), "project"@),
        is_json_field(insert_node(chinese), "documents"@),
        is_json_field(update_node(chinese), "filter"@),
        is_json_field(update_node(chinese), "update"@),
        is_json_field(delete_node(chinese), "filter"@),
        is_json_field(aggregate_node(chinese), "pipeline"@),
{
    lemma_words();
    assert forall|description: Seq<char>|
        member_text(#[trigger] json_field_schema(description), "type"@) == Some("string"@)
            && member_text(json_field_schema(description), "format"@) == Some("json"@) by {
        lemma_field_types("string"@, description, chinese);
    }
    let find = find_properties(chinese)->Object_0;
    assert(distinct_keys(find));
    lemma_schema(find_properties(chinese), seq!["collection"@]);
    assert(find[2].0 == "filter"@);
    lemma_lookup(find, "filter"@);
    assert(find[3].0 == "project"@);
    lemma_lookup(find, "project"@);
    let insert = insert_properties(chinese)->Object_0;
    assert(distinct_keys(insert));
    lemma_schema(insert_properties(chinese), seq!["collection"@]);
    assert(insert[2].0 == "documents"@);
    lemma_lookup(insert, "documents"@);
    let update = update_properties(chinese)->Object_0;
    assert(distinct_keys(update));
    lemma_schema(update_properties(chinese), seq!["collection"@]);
    assert(update[2].0 == "filter"@);
    lemma_lookup(update, "filter"@);
    assert(update[3].0 == "update"@);
    lemma_lookup(update, "update"@);
    let delete = delete_properties(chinese)->Object_0;
    assert(distinct_keys(delete));
    lemma_schema(delete_properties(chinese), seq!["collection"@]);
    assert(delete[2].0 == "filter"@);
    lemma_lookup(delete, "filter"@);
    let aggregate = aggregate_properties(chinese)->Object_0;
    assert(distinct_keys(aggregate));
    lemma_schema(aggregate_properties(chinese), seq!["collection"@]);
    assert(aggregate[2].0 == "pipeline"@);
    lemma_lookup(aggregate, "pipeline"@);
}

} // verus!

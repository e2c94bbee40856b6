//! What the nodes ask of the driver, in terms of the fields of their configurations.
use vstd::prelude::*;

use std::sync::Arc;

use crate::bson::BsonView;
use crate::field_laws::converted;
use crate::field_laws::is_not_given;
use crate::field_laws::law_a_field_gives_the_document_in_it;
use crate::field_laws::law_a_field_gives_the_documents_in_it;
use crate::field_laws::lists;
use crate::field_laws::stands_in;
use crate::i18n::said;
use crate::json::FieldViews;
use crate::json::bson_of;
use crate::json::json_array_field;
use crate::json::json_field;
use crate::nodes::aggregate;
use crate::nodes::delete;
use crate::nodes::find;
use crate::nodes::insert;
use crate::nodes::limit_of;
use crate::nodes::selected_connection;
use crate::nodes::update;
use crate::pool::MongoConnection;
use crate::pool::PoolView;
use crate::pool::connection_of;
use crate::value::JsonView;
use crate::value::NumberKind;
use crate::value::member;

verus! {

/// The field `collection` names this collection.
pub open spec fn names_collection(config: JsonView, name: Seq<char>) -> bool {
    member(config, "collection"@) == Some(JsonView::String(name))
}

/// The field `connection_uuid` selects this connection of an execution.
pub open spec fn selects(
    pool: PoolView,
    execution_id: Seq<char>,
    config: JsonView,
    connection: Arc<MongoConnection>,
) -> bool {
    &&& member(config, "connection_uuid"@) matches Some(JsonView::String(uuid))
    &&& uuid.len() > 0
    &&& connection_of(pool, execution_id, uuid) == Some(connection)
}

/// The field `key` holds this document.
pub open spec fn holds(
    config: JsonView,
    key: Seq<char>,
    doc: FieldViews,
    chinese: bool,
) -> bool {
    exists|value: JsonView| #[trigger]
        stands_in(config, key, value) && bson_of(value, chinese) == Ok::<BsonView, Seq<char>>(
            BsonView::Document(doc),
        )
}

/// The field `key` holds these documents, in this order.
pub open spec fn holds_list(
    config: JsonView,
    key: Seq<char>,
    docs: Seq<FieldViews>,
    chinese: bool,
) -> bool {
    exists|items: Seq<JsonView>| #[trigger]
        lists(config, key, items) && converted(items, docs, chinese)
}

/// The flag `key` is on: only `true` sets it.
pub open spec fn is_on(config: JsonView, key: Seq<char>) -> bool {
    member(config, key) == Some(JsonView::Bool(true))
}

/// The limit of a configuration: a whole number above zero is the limit, and in place of
/// everything else stands one hundred.
pub open spec fn limits(config: JsonView, limit: i64) -> bool {
    match member(config, "limit"@) {
        Some(JsonView::Number(NumberKind::PosInt(n))) => if 0 < n <= 9223372036854775807 {
            limit == n
        } else {
            limit == 100
        },
        Some(JsonView::Number(NumberKind::NegInt(n))) => n < 0 ==> limit == 100,
        _ => limit == 100,
    }
}

/// A limit is above zero, and is the number that the field `limit` gives where that is one.
pub proof fn law_limits_are_positive(config: JsonView)
    ensures
        limit_of(config) > 0,
        limits(config, limit_of(config)),
{
}

/// A configuration selects a connection by a text that is not empty, and only where its execution
/// has that connection. Where it selects none, it is asked to; where the connection is not there,
/// it is asked to connect.
pub proof fn law_connections_are_selected(
    pool: PoolView,
    execution_id: Seq<char>,
    config: JsonView,
    chinese: bool,
)
    ensures
        match selected_connection(pool, execution_id, config, chinese) {
            Ok(connection) => selects(pool, execution_id, config, connection),
            Err(err) => match member(config, "connection_uuid"@) {
                Some(JsonView::String(uuid)) => if uuid.len() > 0 {
                    connection_of(pool, execution_id, uuid) is None && err == said(
                        "请先 connect"@,
                        "Please connect first"@,
                        chinese,
                    )
                } else {
                    is_unselected(err, chinese)
                },
                _ => is_unselected(err, chinese),
            },
        },
{
}

/// The message that asks for a selection.
pub open spec fn is_unselected(err: Seq<char>, chinese: bool) -> bool {
    err == said(
        "请选择连接节点（缺少 connection_uuid，需先添加 mongo:connect 节点并选择）"@,
        "Please select a connection node (missing connection_uuid; add and select a mongo:connect node first)"@,
        chinese,
    )
}

/// The message for a missing collection.
pub open spec fn is_uncollected(err: Seq<char>, chinese: bool) -> bool {
    err == said("缺少 collection 字段"@, "Missing collection field"@, chinese)
}

/// The field `collection` is a text.
pub open spec fn has_collection(config: JsonView) -> bool {
    member(config, "collection"@) matches Some(JsonView::String(_))
}

/// `mongo:find` asks for the documents of the named collection that match the document in the
/// field `filter`, or for all where that is not given, with the projection in the field `project`,
/// or without one, up to the limit. It asks exactly where each of these fields, and the selection
/// of the connection, is in order.
pub proof fn law_find_asks_for_what_is_configured(
    pool: PoolView,
    execution_id: Seq<char>,
    config: JsonView,
    chinese: bool,
)
    ensures
        find::request_of(pool, execution_id, config, chinese) matches Ok(request) ==> {
            &&& names_collection(config, request.collection)
            &&& holds(config, "filter"@, request.filter, chinese) || is_not_given(config, "filter"@)
                && request.filter.len() == 0
            &&& json_field(config, "filter"@, chinese) == Ok::<Option<FieldViews>, Seq<char>>(
                Some(request.filter),
            ) || is_not_given(config, "filter"@)
            &&& match request.project {
                Some(project) => holds(config, "project"@, project, chinese),
                None => is_not_given(config, "project"@),
            }
            &&& limits(config, request.limit)
            &&& request.limit > 0
            &&& selects(pool, execution_id, config, request.connection)
        },
        find::request_of(pool, execution_id, config, chinese) is Ok <==> {
            &&& has_collection(config)
            &&& json_field(config, "filter"@, chinese) is Ok
            &&& json_field(config, "project"@, chinese) is Ok
            &&& selected_connection(pool, execution_id, config, chinese) is Ok
        },
{
    match find::request_of(pool, execution_id, config, chinese) {
        Ok(request) => {
            law_a_field_gives_the_document_in_it(config, "filter"@, request.filter, chinese);
            if let Some(project) = request.project {
                law_a_field_gives_the_document_in_it(config, "project"@, project, chinese);
            } else {
                law_a_field_gives_the_document_in_it(config, "project"@, Seq::empty(), chinese);
            }
        },
        Err(_) => {},
    }
}

/// What `mongo:find` refuses a configuration for: the collection comes first, then the fields in
/// their order, and last the selection of the connection.
pub proof fn law_find_refuses_in_order(
    pool: PoolView,
    execution_id: Seq<char>,
    config: JsonView,
    chinese: bool,
)
    ensures
        find::request_of(pool, execution_id, config, chinese) matches Err(err) ==> if !has_collection(config) {
            is_uncollected(err, chinese)
        } else if json_field(config, "filter"@, chinese) is Err {
            err == json_field(config, "filter"@, chinese)->Err_0
        } else if json_field(config, "project"@, chinese) is Err {
            err == json_field(config, "project"@, chinese)->Err_0
        } else {
            selected_connection(pool, execution_id, config, chinese) == Err::<
                Arc<MongoConnection>,
                Seq<char>,
            >(err)
        },
{
}

/// `mongo:insert` asks to put the documents in the field `documents`, all of them and in their
/// order, and at least one, into the named collection. It asks exactly where these fields, and the
/// selection of the connection, are in order.
pub proof fn law_insert_asks_for_what_is_configured(
    pool: PoolView,
    execution_id: Seq<char>,
    config: JsonView,
    chinese: bool,
)
    ensures
        insert::request_of(pool, execution_id, config, chinese) matches Ok(request) ==> {
            &&& names_collection(config, request.collection)
            &&& holds_list(config, "documents"@, request.documents, chinese)
            &&& request.documents.len() > 0
            &&& selects(pool, execution_id, config, request.connection)
        },
        insert::request_of(pool, execution_id, config, chinese) is Ok <==> {
            &&& has_collection(config)
            &&& json_array_field(config, "documents"@, chinese) matches Ok(Some(docs)) && docs.len() > 0
            &&& selected_connection(pool, execution_id, config, chinese) is Ok
        },
{
    match insert::request_of(pool, execution_id, config, chinese) {
        Ok(request) => {
            law_a_field_gives_the_documents_in_it(
                config,
                "documents"@,
                request.documents,
                chinese,
            );
        },
        Err(_) => {},
    }
}

/// What `mongo:insert` refuses a configuration for: the collection comes first, then the fields in
/// their order, and last the selection of the connection.
pub proof fn law_insert_refuses_in_order(
    pool: PoolView,
    execution_id: Seq<char>,
    config: JsonView,
    chinese: bool,
)
    ensures
        insert::request_of(pool, execution_id, config, chinese) matches Err(err) ==> if !has_collection(config) {
            is_uncollected(err, chinese)
        } else if json_array_field(config, "documents"@, chinese) is Err {
            err == json_array_field(config, "documents"@, chinese)->Err_0
        } else if !(json_array_field(config, "documents"@, chinese) matches Ok(Some(docs)) && docs.len() > 0) {
            err == said(
                "documents 不能为空"@,
                "documents must not be empty"@,
                chinese,
            )
        } else {
            selected_connection(pool, execution_id, config, chinese) == Err::<
                Arc<MongoConnection>,
                Seq<char>,
            >(err)
        },
{
}

/// `mongo:update` asks to change what matches the document in the field `filter` by the document in
/// the field `update`, in the named collection: one match, or all where `update_many` is `true`,
/// and with an insert in place of no match where `upsert` is `true`. It asks exactly where these
/// fields, and the selection of the connection, are in order.
pub proof fn law_update_asks_for_what_is_configured(
    pool: PoolView,
    execution_id: Seq<char>,
    config: JsonView,
    chinese: bool,
)
    ensures
        update::request_of(pool, execution_id, config, chinese) matches Ok(request) ==> {
            &&& names_collection(config, request.collection)
            &&& holds(config, "filter"@, request.filter, chinese)
            &&& json_field(config, "filter"@, chinese) == Ok::<Option<FieldViews>, Seq<char>>(
                Some(request.filter),
            )
            &&& holds(config, "update"@, request.update, chinese)
            &&& json_field(config, "update"@, chinese) == Ok::<Option<FieldViews>, Seq<char>>(
                Some(request.update),
            )
            &&& request.upsert <==> member(config, "upsert"@) == Some(JsonView::Bool(true))
            &&& request.many <==> member(config, "update_many"@) == Some(JsonView::Bool(true))
            &&& selects(pool, execution_id, config, request.connection)
        },
        update::request_of(pool, execution_id, config, chinese) is Ok <==> {
            &&& has_collection(config)
            &&& json_field(config, "filter"@, chinese) matches Ok(Some(_))
            &&& json_field(config, "update"@, chinese) matches Ok(Some(_))
            &&& selected_connection(pool, execution_id, config, chinese) is Ok
        },
{
    match update::request_of(pool, execution_id, config, chinese) {
        Ok(request) => {
            law_a_field_gives_the_document_in_it(config, "filter"@, request.filter, chinese);
            law_a_field_gives_the_document_in_it(config, "update"@, request.update, chinese);
        },
        Err(_) => {},
    }
}

/// What `mongo:update` refuses a configuration for: the collection comes first, then the fields in
/// their order, and last the selection of the connection.
pub proof fn law_update_refuses_in_order(
    pool: PoolView,
    execution_id: Seq<char>,
    config: JsonView,
    chinese: bool,
)
    ensures
        update::request_of(pool, execution_id, config, chinese) matches Err(err) ==> if !has_collection(config) {
            is_uncollected(err, chinese)
        } else if json_field(config, "filter"@, chinese) is Err {
            err == json_field(config, "filter"@, chinese)->Err_0
        } else if json_field(config, "filter"@, chinese) matches Ok(None) {
            err == said("缺少 filter 字段"@, "Missing filter field"@, chinese)
        } else if json_field(config, "update"@, chinese) is Err {
            err == json_field(config, "update"@, chinese)->Err_0
        } else if json_field(config, "update"@, chinese) matches Ok(None) {
            err == said("缺少 update 字段"@, "Missing update field"@, chinese)
        } else {
            selected_connection(pool, execution_id, config, chinese) == Err::<
                Arc<MongoConnection>,
                Seq<char>,
            >(err)
        },
{
}

/// `mongo:delete` asks to delete what matches the document in the field `filter`, in the named
/// collection: one match, or all where `delete_many` is `true`. It asks exactly where these fields,
/// and the selection of the connection, are in order.
pub proof fn law_delete_asks_for_what_is_configured(
    pool: PoolView,
    execution_id: Seq<char>,
    config: JsonView,
    chinese: bool,
)
    ensures
        delete::request_of(pool, execution_id, config, chinese) matches Ok(request) ==> {
            &&& names_collection(config, request.collection)
            &&& holds(config, "filter"@, request.filter, chinese)
            &&& json_field(config, "filter"@, chinese) == Ok::<Option<FieldViews>, Seq<char>>(
                Some(request.filter),
            )
            &&& request.many <==> member(config, "delete_many"@) == Some(JsonView::Bool(true))
            &&& selects(pool, execution_id, config, request.connection)
        },
        delete::request_of(pool, execution_id, config, chinese) is Ok <==> {
            &&& has_collection(config)
            &&& json_field(config, "filter"@, chinese) matches Ok(Some(_))
            &&& selected_connection(pool, execution_id, config, chinese) is Ok
        },
{
    match delete::request_of(pool, execution_id, config, chinese) {
        Ok(request) => {
            law_a_field_gives_the_document_in_it(config, "filter"@, request.filter, chinese);
        },
        Err(_) => {},
    }
}

/// What `mongo:delete` refuses a configuration for: the collection comes first, then the fields in
/// their order, and last the selection of the connection.
pub proof fn law_delete_refuses_in_order(
    pool: PoolView,
    execution_id: Seq<char>,
    config: JsonView,
    chinese: bool,
)
    ensures
        delete::request_of(pool, execution_id, config, chinese) matches Err(err) ==> if !has_collection(config) {
            is_uncollected(err, chinese)
        } else if json_field(config, "filter"@, chinese) is Err {
            err == json_field(config, "filter"@, chinese)->Err_0
        } else if json_field(config, "filter"@, chinese) matches Ok(None) {
            err == said("缺少 filter 字段"@, "Missing filter field"@, chinese)
        } else {
            selected_connection(pool, execution_id, config, chinese) == Err::<
                Arc<MongoConnection>,
                Seq<char>,
            >(err)
        },
{
}

/// `mongo:aggregate` asks to run the stages in the field `pipeline`, all of them and in their
/// order, and at least one, on the named collection, up to the limit. It asks exactly where these
/// fields, and the selection of the connection, are in order.
pub proof fn law_aggregate_asks_for_what_is_configured(
    pool: PoolView,
    execution_id: Seq<char>,
    config: JsonView,
    chinese: bool,
)
    ensures
        aggregate::request_of(pool, execution_id, config, chinese) matches Ok(request) ==> {
            &&& names_collection(config, request.collection)
            &&& holds_list(config, "pipeline"@, request.pipeline, chinese)
            &&& request.pipeline.len() > 0
            &&& limits(config, request.limit)
            &&& request.limit > 0
            &&& selects(pool, execution_id, config, request.connection)
        },
        aggregate::request_of(pool, execution_id, config, chinese) is Ok <==> {
            &&& has_collection(config)
            &&& json_array_field(config, "pipeline"@, chinese) matches Ok(Some(docs)) && docs.len() > 0
            &&& selected_connection(pool, execution_id, config, chinese) is Ok
        },
{
    match aggregate::request_of(pool, execution_id, config, chinese) {
        Ok(request) => {
            law_a_field_gives_the_documents_in_it(config, "pipeline"@, request.pipeline, chinese);
        },
        Err(_) => {},
    }
}

/// What `mongo:aggregate` refuses a configuration for: the collection comes first, then the fields in
/// their order, and last the selection of the connection.
pub proof fn law_aggregate_refuses_in_order(
    pool: PoolView,
    execution_id: Seq<char>,
    config: JsonView,
    chinese: bool,
)
    ensures
        aggregate::request_of(pool, execution_id, config, chinese) matches Err(err) ==> if !has_collection(config) {
            is_uncollected(err, chinese)
        } else if json_array_field(config, "pipeline"@, chinese) is Err {
            err == json_array_field(config, "pipeline"@, chinese)->Err_0
        } else if !(json_array_field(config, "pipeline"@, chinese) matches Ok(Some(docs)) && docs.len() > 0) {
            err == said(
                "pipeline 不能为空"@,
                "pipeline must not be empty"@,
                chinese,
            )
        } else {
            selected_connection(pool, execution_id, config, chinese) == Err::<
                Arc<MongoConnection>,
                Seq<char>,
            >(err)
        },
{
}

/// What the driver is asked for depends on each field by itself. Two configurations that agree on a
/// field get the same part of the request from it, whatever their other fields and whatever the
/// pool holds.
pub proof fn law_parts_of_a_request_depend_on_their_fields_alone(
    pool: PoolView,
    other: PoolView,
    execution_id: Seq<char>,
    a: JsonView,
    b: JsonView,
    chinese: bool,
)
    ensures
        find::request_of(pool, execution_id, a, chinese) matches Ok(x) ==> find::request_of(
            other,
            execution_id,
            b,
            chinese,
        ) matches Ok(y) ==> {
            &&& member(a, "collection"@) == member(b, "collection"@) ==> x.collection
                == y.collection
            &&& member(a, "filter"@) == member(b, "filter"@) ==> x.filter == y.filter
            &&& member(a, "project"@) == member(b, "project"@) ==> x.project == y.project
            &&& member(a, "limit"@) == member(b, "limit"@) ==> x.limit == y.limit
        },
        insert::request_of(pool, execution_id, a, chinese) matches Ok(x) ==> insert::request_of(
            other,
            execution_id,
            b,
            chinese,
        ) matches Ok(y) ==> {
            &&& member(a, "collection"@) == member(b, "collection"@) ==> x.collection
                == y.collection
            &&& member(a, "documents"@) == member(b, "documents"@) ==> x.documents == y.documents
        },
        update::request_of(pool, execution_id, a, chinese) matches Ok(x) ==> update::request_of(
            other,
            execution_id,
            b,
            chinese,
        ) matches Ok(y) ==> {
            &&& member(a, "collection"@) == member(b, "collection"@) ==> x.collection
                == y.collection
            &&& member(a, "filter"@) == member(b, "filter"@) ==> x.filter == y.filter
            &&& member(a, "update"@) == member(b, "update"@) ==> x.update == y.update
            &&& member(a, "upsert"@) == member(b, "upsert"@) ==> x.upsert == y.upsert
            &&& member(a, "update_many"@) == member(b, "update_many"@) ==> x.many == y.many
        },
        delete::request_of(pool, execution_id, a, chinese) matches Ok(x) ==> delete::request_of(
            other,
            execution_id,
            b,
            chinese,
        ) matches Ok(y) ==> {
            &&& member(a, "collection"@) == member(b, "collection"@) ==> x.collection
                == y.collection
            &&& member(a, "filter"@) == member(b, "filter"@) ==> x.filter == y.filter
            &&& member(a, "delete_many"@) == member(b, "delete_many"@) ==> x.many == y.many
        },
        aggregate::request_of(pool, execution_id, a, chinese) matches Ok(x)
            ==> aggregate::request_of(other, execution_id, b, chinese) matches Ok(y) ==> {
            &&& member(a, "collection"@) == member(b, "collection"@) ==> x.collection
                == y.collection
            &&& member(a, "pipeline"@) == member(b, "pipeline"@) ==> x.pipeline == y.pipeline
            &&& member(a, "limit"@) == member(b, "limit"@) ==> x.limit == y.limit
        },
{
}

/// The stages of a pipeline and the documents of an insert are, one for one and in order, the
/// elements of the array in the configuration: none is left out and none is added.
pub proof fn law_lists_are_asked_for_whole(
    pool: PoolView,
    execution_id: Seq<char>,
    config: JsonView,
    items: Seq<JsonView>,
    chinese: bool,
)
    ensures
        aggregate::request_of(
            pool,
            execution_id,
            config,
            chinese,
        ) matches Ok(request) ==> lists(config, "pipeline"@, items) ==> {
            &&& request.pipeline.len() == items.len()
            &&& forall|i: int|
                0 <= i < items.len() ==> bson_of(#[trigger] items[i], chinese) == Ok::<
                    BsonView,
                    Seq<char>,
                >(BsonView::Document(request.pipeline[i]))
        },
        insert::request_of(
            pool,
            execution_id,
            config,
            chinese,
        ) matches Ok(request) ==> lists(config, "documents"@, items) ==> {
            &&& request.documents.len() == items.len()
            &&& forall|i: int|
                0 <= i < items.len() ==> bson_of(#[trigger] items[i], chinese) == Ok::<
                    BsonView,
                    Seq<char>,
                >(BsonView::Document(request.documents[i]))
        },
{
    law_a_field_gives_the_documents_in_it(config, "pipeline"@, Seq::empty(), chinese);
    law_a_field_gives_the_documents_in_it(config, "documents"@, Seq::empty(), chinese);
}

/// The filter, the projection and the update that the driver is asked for are what the values in
/// their fields are in BSON. A filter that matches everything is asked for only where the field is
/// not given or holds an object without fields.
pub proof fn law_documents_are_asked_for_as_they_stand(
    pool: PoolView,
    execution_id: Seq<char>,
    config: JsonView,
    value: JsonView,
    chinese: bool,
)
    ensures
        find::request_of(
            pool,
            execution_id,
            config,
            chinese,
        ) matches Ok(request) ==> stands_in(config, "filter"@, value) ==> {
            &&& bson_of(value, chinese) == Ok::<BsonView, Seq<char>>(
                BsonView::Document(request.filter),
            )
            &&& request.filter.len() == 0 ==> value == JsonView::Object(Seq::empty())
        },
        find::request_of(
            pool,
            execution_id,
            config,
            chinese,
        ) matches Ok(request) ==> stands_in(config, "project"@, value) ==> {
            &&& request.project matches Some(project)
            &&& bson_of(value, chinese) == Ok::<BsonView, Seq<char>>(BsonView::Document(project))
        },
        update::request_of(
            pool,
            execution_id,
            config,
            chinese,
        ) matches Ok(request) ==> stands_in(config, "filter"@, value) ==> bson_of(value, chinese) == Ok::<BsonView, Seq<char>>(
            BsonView::Document(request.filter),
        ),
        update::request_of(
            pool,
            execution_id,
            config,
            chinese,
        ) matches Ok(request) ==> stands_in(config, "update"@, value) ==> bson_of(value, chinese) == Ok::<BsonView, Seq<char>>(
            BsonView::Document(request.update),
        ),
        delete::request_of(
            pool,
            execution_id,
            config,
            chinese,
        ) matches Ok(request) ==> stands_in(config, "filter"@, value) ==> bson_of(value, chinese) == Ok::<BsonView, Seq<char>>(
            BsonView::Document(request.filter),
        ),
        is_not_given(config, "filter"@) ==> update::request_of(
            pool,
            execution_id,
            config,
            chinese,
        ) is Err && delete::request_of(pool, execution_id, config, chinese) is Err,
{
    law_a_field_gives_the_document_in_it(config, "filter"@, Seq::empty(), chinese);
    law_a_field_gives_the_document_in_it(config, "project"@, Seq::empty(), chinese);
    law_a_field_gives_the_document_in_it(config, "update"@, Seq::empty(), chinese);
    if stands_in(config, "filter"@, value) {
        if let Ok(BsonView::Document(doc)) = bson_of(value, chinese) {
            if doc.len() == 0 {
                assert(value is Object);
                assert(value->Object_0 =~= Seq::empty());
            }
        }
    }
}

/// A flag that is missing, or is anything but `true`, is off.
pub proof fn law_flags_are_off_unless_set(
    pool: PoolView,
    execution_id: Seq<char>,
    config: JsonView,
    chinese: bool,
)
    ensures
        update::request_of(pool, execution_id, config, chinese) matches Ok(request) ==> {
            &&& request.upsert <==> is_on(config, "upsert"@)
            &&& request.many <==> is_on(config, "update_many"@)
            &&& member(config, "upsert"@) is None ==> !request.upsert
            &&& member(config, "update_many"@) is None ==> !request.many
        },
        delete::request_of(pool, execution_id, config, chinese) matches Ok(request) ==> {
            &&& request.many <==> is_on(config, "delete_many"@)
            &&& member(config, "delete_many"@) is None ==> !request.many
        },
{
}

/// A node reads the fields that are its own and no other: a configuration that agrees on those
/// with another comes to the same.
pub proof fn law_nodes_read_their_own_fields(
    pool: PoolView,
    execution_id: Seq<char>,
    a: JsonView,
    b: JsonView,
    chinese: bool,
)
    requires
        member(a, "collection"@) == member(b, "collection"@),
        member(a, "connection_uuid"@) == member(b, "connection_uuid"@),
    ensures
        member(a, "filter"@) == member(b, "filter"@) && member(a, "project"@) == member(
            b,
            "project"@,
        ) && member(a, "limit"@) == member(b, "limit"@) ==> find::request_of(
            pool,
            execution_id,
            a,
            chinese,
        ) == find::request_of(pool, execution_id, b, chinese),
        member(a, "documents"@) == member(b, "documents"@) ==> insert::request_of(
            pool,
            execution_id,
            a,
            chinese,
        ) == insert::request_of(pool, execution_id, b, chinese),
        member(a, "filter"@) == member(b, "filter"@) && member(a, "update"@) == member(
            b,
            "update"@,
        ) && member(a, "upsert"@) == member(b, "upsert"@) && member(a, "update_many"@) == member(
            b,
            "update_many"@,
        ) ==> update::request_of(pool, execution_id, a, chinese) == update::request_of(
            pool,
            execution_id,
            b,
            chinese,
        ),
        member(a, "filter"@) == member(b, "filter"@) && member(a, "delete_many"@) == member(
            b,
            "delete_many"@,
        ) ==> delete::request_of(pool, execution_id, a, chinese) == delete::request_of(
            pool,
            execution_id,
            b,
            chinese,
        ),
        member(a, "pipeline"@) == member(b, "pipeline"@) && member(a, "limit"@) == member(
            b,
            "limit"@,
        ) ==> aggregate::request_of(pool, execution_id, a, chinese) == aggregate::request_of(
            pool,
            execution_id,
            b,
            chinese,
        ),
{
}

} // verus!

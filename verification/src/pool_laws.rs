//! What holds of the pool's operations taken together.
use vstd::prelude::*;

use std::sync::Arc;

use crate::pool::MongoConnection;
use crate::pool::PoolView;
use crate::pool::accounted;
use crate::pool::connection_of;
use crate::pool::connects;
use crate::pool::empty_pool;
use crate::pool::is_registered;
use crate::pool::key_of;
use crate::pool::replaces;
use crate::pool::with_connection;
use crate::pool::without_connection;
use crate::pool::without_execution;

verus! {

/// Two executions that cannot be taken for each other: neither id is the other with a colon and
/// more behind it.
pub open spec fn apart(a: Seq<char>, b: Seq<char>) -> bool {
    !(a + ":"@).is_prefix_of(b) && !(b + ":"@).is_prefix_of(a)
}

/// An id without a colon, as the host gives it.
pub open spec fn colon_free(id: Seq<char>) -> bool {
    forall|i: int| 0 <= i < id.len() ==> #[trigger] id[i] != ':'
}

/// An execution that no registered execution can be taken for.
pub open spec fn clear(pool: PoolView, execution_id: Seq<char>) -> bool {
    forall|other: Seq<char>| #[trigger]
        pool.registered.contains_key(other) ==> other == execution_id || apart(other, execution_id)
}

/// Ids without a colon cannot be taken for each other.
pub proof fn law_colon_free_ids_are_apart(a: Seq<char>, b: Seq<char>)
    requires
        colon_free(a),
        colon_free(b),
    ensures
        apart(a, b),
{
    reveal_strlit(":");
    if (a + ":"@).is_prefix_of(b) {
        assert((a + ":"@)[a.len() as int] == ':');
        assert(b[a.len() as int] == ':');
    }
    if (b + ":"@).is_prefix_of(a) {
        assert((b + ":"@)[b.len() as int] == ':');
        assert(a[b.len() as int] == ':');
    }
}

/// Two keys of which the first id is the shorter.
proof fn lemma_key_prefix(e: Seq<char>, u: Seq<char>, f: Seq<char>, v: Seq<char>)
    requires
        key_of(e, u) == key_of(f, v),
        e.len() < f.len(),
    ensures
        (e + ":"@).is_prefix_of(f),
{
    reveal_strlit(":");
    let start = e + ":"@;
    assert forall|i: int| 0 <= i < start.len() implies start[i] == #[trigger] f[i] by {
        assert(key_of(e, u)[i] == start[i]);
        assert(key_of(f, v)[i] == f[i]);
    }
    assert(start =~= f.subrange(0, start.len() as int));
}

/// Two pairs share a key only where they are the same pair, unless one execution can be taken for
/// the other.
pub proof fn law_pairs_have_their_own_keys(
    e: Seq<char>,
    u: Seq<char>,
    f: Seq<char>,
    v: Seq<char>,
)
    requires
        e == f || apart(e, f),
    ensures
        key_of(e, u) == key_of(f, v) <==> e == f && u == v,
{
    reveal_strlit(":");
    if key_of(e, u) == key_of(f, v) {
        if e.len() < f.len() {
            lemma_key_prefix(e, u, f, v);
        } else if f.len() < e.len() {
            lemma_key_prefix(f, v, e, u);
        }
        assert(e =~= key_of(e, u).take(e.len() as int));
        assert(f =~= key_of(f, v).take(f.len() as int));
        assert(u =~= key_of(e, u).skip(e.len() as int + 1));
        assert(v =~= key_of(f, v).skip(f.len() as int + 1));
    }
}

/// A connection that came in is found under its pair, and every other pair has what it had:
/// another execution's, and another connect node's in the same execution.
pub proof fn law_connections_are_isolated(
    pool: PoolView,
    e: Seq<char>,
    u: Seq<char>,
    connection: Arc<MongoConnection>,
    f: Seq<char>,
    v: Seq<char>,
)
    requires
        e == f || apart(e, f),
    ensures
        connection_of(with_connection(pool, e, u, connection), f, v) == if e == f && u == v {
            Some(connection)
        } else {
            connection_of(pool, f, v)
        },
{
    law_pairs_have_their_own_keys(e, u, f, v);
}

/// Releasing an execution leaves it no connection.
pub proof fn law_release_drops_every_connection(pool: PoolView, e: Seq<char>, u: Seq<char>)
    requires
        accounted(pool),
        clear(pool, e),
    ensures
        connection_of(without_execution(pool, e), e, u) is None,
{
    let key = key_of(e, u);
    if pool.entries.contains_key(key) {
        let (f, v) = choose|f: Seq<char>, v: Seq<char>|
            #![trigger is_registered(pool, f, v)]
            is_registered(pool, f, v) && key == key_of(f, v);
        law_pairs_have_their_own_keys(f, v, e, u);
        assert(is_registered(pool, e, u));
    }
}

/// Releasing an execution leaves every other execution its connections.
pub proof fn law_release_spares_other_executions(
    pool: PoolView,
    e: Seq<char>,
    f: Seq<char>,
    v: Seq<char>,
)
    requires
        apart(e, f),
        e != f,
    ensures
        connection_of(without_execution(pool, e), f, v) == connection_of(pool, f, v),
{
    let key = key_of(f, v);
    if pool.entries.contains_key(key) && !without_execution(pool, e).entries.contains_key(key) {
        let u = choose|u: Seq<char>|
            #![trigger is_registered(pool, e, u)]
            is_registered(pool, e, u) && key == key_of(e, u);
        law_pairs_have_their_own_keys(e, u, f, v);
    }
}

/// Releasing an execution that has nothing registered changes nothing, and so does releasing one
/// a second time.
pub proof fn law_release_is_idempotent(pool: PoolView, e: Seq<char>)
    ensures
        !pool.registered.contains_key(e) ==> without_execution(pool, e) == pool,
        without_execution(without_execution(pool, e), e) == without_execution(pool, e),
{
    let once = without_execution(pool, e);
    assert(once.registered.remove(e) =~= once.registered);
    assert(without_execution(once, e).entries =~= once.entries);
    if !pool.registered.contains_key(e) {
        assert(once.entries =~= pool.entries);
        assert(once.registered =~= pool.registered);
    }
}

/// Releasing one connection drops it and no other, and releasing it a second time changes nothing.
pub proof fn law_release_of_one_connection(
    pool: PoolView,
    e: Seq<char>,
    u: Seq<char>,
    f: Seq<char>,
    v: Seq<char>,
)
    requires
        e == f || apart(e, f),
    ensures
        connection_of(without_connection(pool, e, u), f, v) == if e == f && u == v {
            None
        } else {
            connection_of(pool, f, v)
        },
        without_connection(without_connection(pool, e, u), e, u) == without_connection(pool, e, u),
{
    law_pairs_have_their_own_keys(e, u, f, v);
}

/// A flow may close a connection and end, in either order: nothing is left of the execution that
/// its end alone would not leave.
pub proof fn law_close_and_flow_end_commute(pool: PoolView, e: Seq<char>, u: Seq<char>)
    requires
        accounted(pool),
        clear(pool, e),
    ensures
        without_execution(without_connection(pool, e, u), e) == without_execution(pool, e),
        without_connection(without_execution(pool, e), e, u) == without_execution(pool, e),
{
    law_release_drops_every_connection(pool, e, u);
    let closed = without_connection(pool, e, u);
    let a = without_execution(closed, e);
    let b = without_execution(pool, e);
    assert(a.registered =~= b.registered);
    assert forall|key: Seq<char>| #[trigger] a.entries.contains_key(key) == b.entries.contains_key(
        key,
    ) by {
        if pool.entries.contains_key(key) && key != key_of(e, u) {
            assert forall|w: Seq<char>| key == #[trigger] key_of(e, w) implies is_registered(
                closed,
                e,
                w,
            ) == is_registered(pool, e, w) by {}
            if !a.entries.contains_key(key) {
                let w = choose|w: Seq<char>|
                    #![trigger is_registered(closed, e, w)]
                    is_registered(closed, e, w) && key == key_of(e, w);
                assert(is_registered(pool, e, w));
            }
            if !b.entries.contains_key(key) {
                let w = choose|w: Seq<char>|
                    #![trigger is_registered(pool, e, w)]
                    is_registered(pool, e, w) && key == key_of(e, w);
                assert(is_registered(closed, e, w));
            }
        }
    }
    assert(a.entries =~= b.entries);
}

/// A pair is kept under its two ids with a colon between them, and only there.
pub proof fn law_a_pair_is_kept_under_its_ids(pool: PoolView, e: Seq<char>, u: Seq<char>)
    ensures
        key_of(e, u) == e + ":"@ + u,
        match connection_of(pool, e, u) {
            Some(connection) => {
                &&& pool.entries.contains_key(e + ":"@ + u)
                &&& pool.entries[e + ":"@ + u] == connection
            },
            None => !pool.entries.contains_key(e + ":"@ + u),
        },
        connection_of(empty_pool(), e, u) is None,
        !is_registered(empty_pool(), e, u),
{
}

/// A ready client that comes in for a pair leaves it a connection to the server and the database
/// that were asked for. A connection to both that was there before stays; one to another server or
/// to another database of the server gives way to the client, and only this counts as replaced.
/// Every other pair has what it had.
pub proof fn law_a_client_comes_in(
    before: PoolView,
    after: PoolView,
    e: Seq<char>,
    u: Seq<char>,
    uri: Seq<char>,
    database: Seq<char>,
    client: mongodb::Client,
    f: Seq<char>,
    v: Seq<char>,
)
    requires
        connects(before, after, e, u, uri, database, client),
        e == f || apart(e, f),
    ensures
        connection_of(after, e, u) matches Some(connection) && {
            &&& connection.uri@ == uri
            &&& connection.database@ == database
            &&& match connection_of(before, e, u) {
                Some(existing) => if existing.uri@ == uri && existing.database@ == database {
                    connection == existing && after == before
                } else {
                    connection.client == client && is_registered(after, e, u)
                },
                None => connection.client == client && is_registered(after, e, u),
            }
        },
        replaces(before, e, u, uri, database) <==> (connection_of(before, e, u) matches Some(
            existing,
        ) && (existing.uri@ != uri || existing.database@ != database)),
        !(e == f && u == v) ==> connection_of(after, f, v) == connection_of(before, f, v),
        is_registered(before, f, v) ==> is_registered(after, f, v),
{
    if connection_of(after, e, u) is Some {
        law_connections_are_isolated(before, e, u, connection_of(after, e, u)->0, f, v);
    }
}

/// What is released is no longer registered, and what is not released stays registered.
pub proof fn law_release_keeps_the_register(
    pool: PoolView,
    e: Seq<char>,
    u: Seq<char>,
    f: Seq<char>,
    v: Seq<char>,
)
    ensures
        !is_registered(without_execution(pool, e), e, u),
        connection_of(pool, e, u) is Some ==> !is_registered(without_connection(pool, e, u), e, u),
        e != f ==> is_registered(without_execution(pool, e), f, v) == is_registered(pool, f, v),
        !(e == f && u == v) ==> is_registered(without_connection(pool, e, u), f, v)
            == is_registered(pool, f, v),
{
}

} // verus!

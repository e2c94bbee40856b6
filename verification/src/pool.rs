//! The connections of the running executions.
//!
//! A connection is kept under the pair of the execution that made it and the connect node that
//! asked for it. Executions that run side by side do not share a client, and one execution can
//! hold several connections. Beside the connections stands a register of the pairs, by which all
//! connections of an execution are released together.
//!
//! The driver makes a client asynchronously, so the pool receives clients that are ready.
use vstd::prelude::*;

use std::sync::Arc;

use vstd::hash_map::StringHashMap;

use crate::text::same;

verus! {

/// A client of the driver, opaque.
#[verifier::external_type_specification]
#[verifier::external_body]
pub struct ExClient(mongodb::Client);

/// A connection that is ready for use.
pub struct MongoConnection {
    /// The driver's client.
    pub client: mongodb::Client,
    /// The connection string that the client was made from.
    pub uri: String,
    /// The database that the connection is for.
    pub database: String,
}

impl MongoConnection {
    /// Whether the connection is to this database of this server.
    pub open spec fn targets(&self, uri: Seq<char>, database: Seq<char>) -> bool {
        self.uri@ == uri && self.database@ == database
    }
}

/// What a pool holds: connections by their keys, and of each execution the connect nodes whose
/// connections are registered.
#[verifier::ext_equal]
pub struct PoolView {
    pub entries: Map<Seq<char>, Arc<MongoConnection>>,
    pub registered: Map<Seq<char>, Set<Seq<char>>>,
}

/// The key of a pair: the execution, a colon, the connect node.
pub open spec fn key_of(execution_id: Seq<char>, connection_uuid: Seq<char>) -> Seq<char> {
    execution_id + ":"@ + connection_uuid
}

/// Whether the connection of this connect node is registered for this execution.
pub open spec fn is_registered(
    pool: PoolView,
    execution_id: Seq<char>,
    connection_uuid: Seq<char>,
) -> bool {
    pool.registered.contains_key(execution_id) && pool.registered[execution_id].contains(
        connection_uuid,
    )
}

/// What every pool keeps to: each connection is that of a registered pair.
pub open spec fn accounted(pool: PoolView) -> bool {
    forall|key: Seq<char>| #[trigger]
        pool.entries.contains_key(key) ==> exists|execution_id: Seq<char>, connection_uuid: Seq<char>|
            #![trigger is_registered(pool, execution_id, connection_uuid)]
            is_registered(pool, execution_id, connection_uuid) && key == key_of(
                execution_id,
                connection_uuid,
            )
}

/// A pool without connections.
pub open spec fn empty_pool() -> PoolView {
    PoolView { entries: Map::empty(), registered: Map::empty() }
}

/// The connection of a pair.
pub open spec fn connection_of(
    pool: PoolView,
    execution_id: Seq<char>,
    connection_uuid: Seq<char>,
) -> Option<Arc<MongoConnection>> {
    let key = key_of(execution_id, connection_uuid);
    if pool.entries.contains_key(key) {
        Some(pool.entries[key])
    } else {
        None
    }
}

/// The connect nodes that are registered for an execution.
pub open spec fn uuids_of(pool: PoolView, execution_id: Seq<char>) -> Set<Seq<char>> {
    if pool.registered.contains_key(execution_id) {
        pool.registered[execution_id]
    } else {
        Set::empty()
    }
}

/// The pool after a connection came in under a pair.
pub open spec fn with_connection(
    pool: PoolView,
    execution_id: Seq<char>,
    connection_uuid: Seq<char>,
    connection: Arc<MongoConnection>,
) -> PoolView {
    PoolView {
        entries: pool.entries.insert(key_of(execution_id, connection_uuid), connection),
        registered: pool.registered.insert(
            execution_id,
            uuids_of(pool, execution_id).insert(connection_uuid),
        ),
    }
}

/// Whether a pair has a connection to another server or database.
pub open spec fn replaces(
    pool: PoolView,
    execution_id: Seq<char>,
    connection_uuid: Seq<char>,
    uri: Seq<char>,
    database: Seq<char>,
) -> bool {
    connection_of(pool, execution_id, connection_uuid) matches Some(existing) && !existing.targets(
        uri,
        database,
    )
}

/// What the pool `before` becomes when a ready client for a pair comes in. Where the pair has a
/// connection to the same server and database, nothing changes. Else the pair has a connection
/// with the client.
pub open spec fn connects(
    before: PoolView,
    after: PoolView,
    execution_id: Seq<char>,
    connection_uuid: Seq<char>,
    uri: Seq<char>,
    database: Seq<char>,
    client: mongodb::Client,
) -> bool {
    if connection_of(before, execution_id, connection_uuid) matches Some(existing)
        && existing.targets(uri, database) {
        after == before
    } else {
        &&& connection_of(after, execution_id, connection_uuid) matches Some(connection)
        &&& connection.targets(uri, database)
        &&& connection.client == client
        &&& after == with_connection(before, execution_id, connection_uuid, connection)
    }
}

/// The pool after an execution was released: without the connections of its registered pairs.
pub open spec fn without_execution(pool: PoolView, execution_id: Seq<char>) -> PoolView {
    PoolView {
        entries: pool.entries.remove_keys(
            Set::new(
                |key: Seq<char>|
                    exists|connection_uuid: Seq<char>|
                        #![trigger is_registered(pool, execution_id, connection_uuid)]
                        is_registered(pool, execution_id, connection_uuid) && key == key_of(
                            execution_id,
                            connection_uuid,
                        ),
            ),
        ),
        registered: pool.registered.remove(execution_id),
    }
}

/// The pool after one connection was released; the same pool where there is no such connection.
pub open spec fn without_connection(
    pool: PoolView,
    execution_id: Seq<char>,
    connection_uuid: Seq<char>,
) -> PoolView {
    if connection_of(pool, execution_id, connection_uuid) is None {
        pool
    } else {
        PoolView {
            entries: pool.entries.remove(key_of(execution_id, connection_uuid)),
            registered: if pool.registered.contains_key(execution_id) {
                pool.registered.insert(
                    execution_id,
                    pool.registered[execution_id].remove(connection_uuid),
                )
            } else {
                pool.registered
            },
        }
    }
}

/// `Arc::clone` hands out one more handle on the same connection.
#[verifier::external_body]
fn share(connection: &Arc<MongoConnection>) -> (r: Arc<MongoConnection>)
    ensures
        r == *connection,
{
    Arc::clone(connection)
}

/// The key of a pair: the two ids with a colon between them. The host's ids hold no colon.
pub fn pool_key(execution_id: &str, connection_uuid: &str) -> (key: String)
    ensures
        key@ == key_of(execution_id@, connection_uuid@),
{
    let mut key: String = execution_id.to_owned();
    key.append(":");
    key.append(connection_uuid);
    key
}

/// The names in a list.
pub open spec fn names(list: Seq<String>) -> Set<Seq<char>> {
    Set::new(|name: Seq<char>| exists|i: int| 0 <= i < list.len() && (#[trigger] list[i])@ == name)
}

/// A copy of a list of names without one name.
fn names_without(list: &Vec<String>, name: &str) -> (r: Vec<String>)
    ensures
        names(r@) == names(list@).remove(name@),
{
    let mut r: Vec<String> = Vec::new();
    let mut i: usize = 0;
    while i < list.len()
        invariant
            i <= list@.len(),
            names(r@) == names(list@.take(i as int)).remove(name@),
        decreases list.len() - i,
    {
        let ghost before = r@;
        let ghost seen = list@.take(i as int);
        let ghost more = list@.take(i + 1);
        proof {
            lemma_names_push(seen, list@[i as int]);
            assert(more =~= seen.push(list@[i as int]));
        }
        if !same(list[i].as_str(), name) {
            r.push(list[i].clone());
            proof {
                lemma_names_push(before, r@[r@.len() - 1]);
                assert(r@ =~= before.push(r@[r@.len() - 1]));
            }
        }
        assert(names(r@) =~= names(more).remove(name@));
        i = i + 1;
    }
    assert(list@.take(i as int) =~= list@);
    r
}

/// A copy of a list of names with one name, which stands in it once.
fn names_with(list: &Vec<String>, name: &str) -> (r: Vec<String>)
    ensures
        names(r@) == names(list@).insert(name@),
{
    let mut r: Vec<String> = names_without(list, name);
    let ghost before = r@;
    r.push(name.to_owned());
    proof {
        lemma_names_push(before, r@[r@.len() - 1]);
        assert(r@ =~= before.push(r@[r@.len() - 1]));
        assert(names(r@) =~= names(list@).insert(name@));
    }
    r
}

/// One more name.
proof fn lemma_names_push(list: Seq<String>, name: String)
    ensures
        names(list.push(name)) == names(list).insert(name@),
{
    let more = list.push(name);
    assert forall|n: Seq<char>| names(list).insert(name@).contains(n) implies names(more).contains(
        n,
    ) by {
        if n == name@ {
            assert(more[list.len() as int]@ == n);
        } else {
            let i = choose|i: int| 0 <= i < list.len() && (#[trigger] list[i])@ == n;
            assert(more[i]@ == n);
        }
    }
    assert forall|n: Seq<char>| names(more).contains(n) implies names(list).insert(name@).contains(
        n,
    ) by {
        let i = choose|i: int| 0 <= i < more.len() && (#[trigger] more[i])@ == n;
        if i < list.len() {
            assert(list[i]@ == n);
        }
    }
    assert(names(more) =~= names(list).insert(name@));
}

/// Connections by execution and connect node.
pub struct MongoPool {
    entries: StringHashMap<Arc<MongoConnection>>,
    registry: StringHashMap<Vec<String>>,
}

impl View for MongoPool {
    type V = PoolView;

    closed spec fn view(&self) -> PoolView {
        PoolView { entries: self.entries@, registered: registered_names(self.registry@) }
    }
}

/// A register by the names that it holds.
spec fn registered_names(registry: Map<Seq<char>, Vec<String>>) -> Map<Seq<char>, Set<Seq<char>>> {
    Map::new(
        |execution_id: Seq<char>| registry.contains_key(execution_id),
        |execution_id: Seq<char>| names(registry[execution_id]@),
    )
}

impl Default for MongoPool {
    fn default() -> (pool: MongoPool)
        ensures
            pool@ == empty_pool(),
            accounted(pool@),
    {
        let pool = MongoPool { entries: StringHashMap::new(), registry: StringHashMap::new() };
        assert(pool@ =~= empty_pool());
        pool
    }
}

impl MongoPool {
    #[verifier::type_invariant]
    spec fn is_accounted(self) -> bool {
        accounted(self@)
    }

    /// The connection of a pair, if there is one.
    pub fn client(&self, execution_id: &str, connection_uuid: &str) -> (r: Option<
        Arc<MongoConnection>,
    >)
        ensures
            r == connection_of(self@, execution_id@, connection_uuid@),
            accounted(self@),
    {
        proof {
            use_type_invariant(self);
        }
        let key: String = pool_key(execution_id, connection_uuid);
        match self.entries.get(key.as_str()) {
            Some(connection) => Some(share(connection)),
            None => None,
        }
    }

    /// Takes in the ready `client` for a pair.
    ///
    /// Where the pair has a connection to the same server and database, that connection stays and
    /// `client` is dropped. Else a connection with `client` takes the place of what was there; the
    /// flag tells whether a connection to another server or database was replaced.
    ///
    /// Which allocation a handle points to is left unsaid: two handles are equal here when what they
    /// point to is equal.
    pub fn connect(
        &mut self,
        execution_id: &str,
        connection_uuid: &str,
        uri: &str,
        database: &str,
        client: mongodb::Client,
    ) -> (r: (Arc<MongoConnection>, bool))
        ensures
            connection_of(final(self)@, execution_id@, connection_uuid@) == Some(r.0),
            connects(
                old(self)@,
                final(self)@,
                execution_id@,
                connection_uuid@,
                uri@,
                database@,
                client,
            ),
            r.1 == replaces(old(self)@, execution_id@, connection_uuid@, uri@, database@),
            accounted(old(self)@),
            accounted(final(self)@),
    {
        proof {
            use_type_invariant(&*self);
        }
        let ghost before = self@;
        let replaced: bool = match self.client(execution_id, connection_uuid) {
            Some(existing) => {
                if same(existing.uri.as_str(), uri) && same(existing.database.as_str(), database) {
                    return (existing, false);
                }
                true
            },
            None => false,
        };
        let created: Arc<MongoConnection> = Arc::new(
            MongoConnection { client, uri: uri.to_owned(), database: database.to_owned() },
        );
        let uuids: Vec<String> = match self.registry.get(execution_id) {
            Some(list) => names_with(list, connection_uuid),
            None => {
                let none: Vec<String> = Vec::new();
                assert(names(none@) =~= Set::empty());
                names_with(&none, connection_uuid)
            },
        };
        let mut entries: StringHashMap<Arc<MongoConnection>> = StringHashMap::new();
        std::mem::swap(&mut entries, &mut self.entries);
        let mut registry: StringHashMap<Vec<String>> = StringHashMap::new();
        std::mem::swap(&mut registry, &mut self.registry);
        entries.insert(pool_key(execution_id, connection_uuid), share(&created));
        registry.insert(execution_id.to_owned(), uuids);
        proof {
            let after = with_connection(before, execution_id@, connection_uuid@, created);
            assert(registered_names(registry@) =~= after.registered);
            lemma_accounted_with(before, execution_id@, connection_uuid@, created);
        }
        self.registry = registry;
        self.entries = entries;
        (created, replaced)
    }

    /// Releases every connection that is registered for an execution. Where there is none,
    /// nothing changes but that the execution is no longer registered.
    pub fn release(&mut self, execution_id: &str)
        ensures
            final(self)@ == without_execution(old(self)@, execution_id@),
            accounted(old(self)@),
            accounted(final(self)@),
    {
        proof {
            use_type_invariant(&*self);
            lemma_accounted_without_execution(self@, execution_id@);
        }
        let ghost before = self@;
        let mut entries: StringHashMap<Arc<MongoConnection>> = StringHashMap::new();
        std::mem::swap(&mut entries, &mut self.entries);
        let mut registry: StringHashMap<Vec<String>> = StringHashMap::new();
        std::mem::swap(&mut registry, &mut self.registry);
        let ghost mut gone: Seq<String> = Seq::empty();
        match registry.get(execution_id) {
            Some(uuids) => {
                let mut i: usize = 0;
                assert(entries@ =~= before.entries.remove_keys(
                    keys_of(execution_id@, uuids@.take(0)),
                ));
                while i < uuids.len()
                    invariant
                        i <= uuids@.len(),
                        entries@ == before.entries.remove_keys(
                            keys_of(execution_id@, uuids@.take(i as int)),
                        ),
                    decreases uuids.len() - i,
                {
                    entries.remove(pool_key(execution_id, uuids[i].as_str()).as_str());
                    proof {
                        lemma_keys_next(execution_id@, uuids@, i as int);
                        assert(entries@ =~= before.entries.remove_keys(
                            keys_of(execution_id@, uuids@.take(i + 1)),
                        ));
                    }
                    i = i + 1;
                }
                proof {
                    assert(uuids@.take(i as int) =~= uuids@);
                    gone = uuids@;
                }
            },
            None => {
                assert(entries@ =~= before.entries.remove_keys(keys_of(execution_id@, gone)));
            },
        }
        proof {
            let after = without_execution(before, execution_id@);
            assert(names(gone) =~= uuids_of(before, execution_id@));
            lemma_keys_are_registered(before, execution_id@, gone);
            assert(entries@ =~= after.entries);
        }
        registry.remove(execution_id);
        assert(registered_names(registry@) =~= without_execution(
            before,
            execution_id@,
        ).registered);
        self.registry = registry;
        self.entries = entries;
    }

    /// Releases one connection of an execution; where there is no such connection, nothing
    /// changes.
    pub fn release_connection(&mut self, execution_id: &str, connection_uuid: &str)
        ensures
            final(self)@ == without_connection(old(self)@, execution_id@, connection_uuid@),
            accounted(old(self)@),
            accounted(final(self)@),
    {
        proof {
            use_type_invariant(&*self);
            lemma_accounted_without_connection(self@, execution_id@, connection_uuid@);
        }
        let ghost before = self@;
        let key: String = pool_key(execution_id, connection_uuid);
        if !self.entries.contains_key(key.as_str()) {
            return;
        }
        let rest: Option<Vec<String>> = match self.registry.get(execution_id) {
            Some(uuids) => Some(names_without(uuids, connection_uuid)),
            None => None,
        };
        let mut entries: StringHashMap<Arc<MongoConnection>> = StringHashMap::new();
        std::mem::swap(&mut entries, &mut self.entries);
        let mut registry: StringHashMap<Vec<String>> = StringHashMap::new();
        std::mem::swap(&mut registry, &mut self.registry);
        entries.remove(key.as_str());
        match rest {
            Some(uuids) => {
                registry.insert(execution_id.to_owned(), uuids);
            },
            None => {},
        }
        assert(registered_names(registry@) =~= without_connection(
            before,
            execution_id@,
            connection_uuid@,
        ).registered);
        self.registry = registry;
        self.entries = entries;
    }
}

/// The keys of an execution's pairs with some connect nodes.
spec fn keys_of(execution_id: Seq<char>, uuids: Seq<String>) -> Set<Seq<char>> {
    Set::new(
        |key: Seq<char>|
            exists|i: int| 0 <= i < uuids.len() && key == key_of(execution_id, (#[trigger] uuids[i])@),
    )
}

/// One more connect node.
proof fn lemma_keys_next(execution_id: Seq<char>, uuids: Seq<String>, n: int)
    requires
        0 <= n < uuids.len(),
    ensures
        keys_of(execution_id, uuids.take(n + 1)) == keys_of(execution_id, uuids.take(n)).insert(
            key_of(execution_id, uuids[n]@),
        ),
{
    let less = keys_of(execution_id, uuids.take(n));
    let more = keys_of(execution_id, uuids.take(n + 1));
    assert forall|key: Seq<char>|
        less.insert(key_of(execution_id, uuids[n]@)).contains(key) implies more.contains(key) by {
        if key == key_of(execution_id, uuids[n]@) {
            assert(key == key_of(execution_id, uuids.take(n + 1)[n]@));
        } else {
            let i = choose|i: int|
                0 <= i < n && key == key_of(execution_id, (#[trigger] uuids.take(n)[i])@);
            assert(key == key_of(execution_id, uuids.take(n + 1)[i]@));
        }
    }
    assert forall|key: Seq<char>| more.contains(key) implies less.insert(
        key_of(execution_id, uuids[n]@),
    ).contains(key) by {
        let i = choose|i: int|
            0 <= i < n + 1 && key == key_of(execution_id, (#[trigger] uuids.take(n + 1)[i])@);
        if i < n {
            assert(key == key_of(execution_id, uuids.take(n)[i]@));
        }
    }
    assert(more =~= less.insert(key_of(execution_id, uuids[n]@)));
}

/// The keys of a register's pairs, by its list and by its names.
proof fn lemma_keys_are_registered(pool: PoolView, execution_id: Seq<char>, uuids: Seq<String>)
    requires
        names(uuids) == uuids_of(pool, execution_id),
    ensures
        without_execution(pool, execution_id).entries =~= pool.entries.remove_keys(
            keys_of(execution_id, uuids),
        ),
{
    let after = without_execution(pool, execution_id);
    assert forall|key: Seq<char>| #[trigger]
        after.entries.contains_key(key) == pool.entries.remove_keys(
            keys_of(execution_id, uuids),
        ).contains_key(key) by {
        if pool.entries.contains_key(key) {
            if keys_of(execution_id, uuids).contains(key) {
                let i = choose|i: int|
                    0 <= i < uuids.len() && key == key_of(execution_id, (#[trigger] uuids[i])@);
                assert(names(uuids).contains(uuids[i]@));
                assert(is_registered(pool, execution_id, uuids[i]@));
            }
            if !after.entries.contains_key(key) {
                let uuid = choose|uuid: Seq<char>|
                    #![trigger is_registered(pool, execution_id, uuid)]
                    is_registered(pool, execution_id, uuid) && key == key_of(execution_id, uuid);
                assert(names(uuids).contains(uuid));
                let i = choose|i: int| 0 <= i < uuids.len() && (#[trigger] uuids[i])@ == uuid;
                assert(key == key_of(execution_id, uuids[i]@));
            }
        }
    }
}

/// A pool in which a connection came in keeps to what pools keep to.
pub proof fn lemma_accounted_with(
    pool: PoolView,
    execution_id: Seq<char>,
    connection_uuid: Seq<char>,
    connection: Arc<MongoConnection>,
)
    requires
        accounted(pool),
    ensures
        accounted(with_connection(pool, execution_id, connection_uuid, connection)),
{
    let after = with_connection(pool, execution_id, connection_uuid, connection);
    assert forall|key: Seq<char>| #[trigger] after.entries.contains_key(key) implies exists|
        e: Seq<char>,
        u: Seq<char>,
    |
        #![trigger is_registered(after, e, u)]
        is_registered(after, e, u) && key == key_of(e, u) by {
        if key == key_of(execution_id, connection_uuid) {
            assert(is_registered(after, execution_id, connection_uuid));
        } else {
            assert(pool.entries.contains_key(key));
            let (e, u) = choose|e: Seq<char>, u: Seq<char>|
                #![trigger is_registered(pool, e, u)]
                is_registered(pool, e, u) && key == key_of(e, u);
            assert(is_registered(after, e, u));
        }
    }
}

/// A pool after an execution was released keeps to what pools keep to.
pub proof fn lemma_accounted_without_execution(pool: PoolView, execution_id: Seq<char>)
    requires
        accounted(pool),
    ensures
        accounted(without_execution(pool, execution_id)),
{
    let after = without_execution(pool, execution_id);
    assert forall|key: Seq<char>| #[trigger] after.entries.contains_key(key) implies exists|
        e: Seq<char>,
        u: Seq<char>,
    |
        #![trigger is_registered(after, e, u)]
        is_registered(after, e, u) && key == key_of(e, u) by {
        assert(pool.entries.contains_key(key));
        let (e, u) = choose|e: Seq<char>, u: Seq<char>|
            #![trigger is_registered(pool, e, u)]
            is_registered(pool, e, u) && key == key_of(e, u);
        assert(is_registered(after, e, u));
    }
}

/// A pool after a connection was released keeps to what pools keep to.
pub proof fn lemma_accounted_without_connection(
    pool: PoolView,
    execution_id: Seq<char>,
    connection_uuid: Seq<char>,
)
    requires
        accounted(pool),
    ensures
        accounted(without_connection(pool, execution_id, connection_uuid)),
{
    let after = without_connection(pool, execution_id, connection_uuid);
    assert forall|key: Seq<char>| #[trigger] after.entries.contains_key(key) implies exists|
        e: Seq<char>,
        u: Seq<char>,
    |
        #![trigger is_registered(after, e, u)]
        is_registered(after, e, u) && key == key_of(e, u) by {
        assert(pool.entries.contains_key(key));
        let (e, u) = choose|e: Seq<char>, u: Seq<char>|
            #![trigger is_registered(pool, e, u)]
            is_registered(pool, e, u) && key == key_of(e, u);
        assert(is_registered(after, e, u));
    }
}

} // verus!

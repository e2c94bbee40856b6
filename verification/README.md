# MongoDB nodes for a flow engine

A plugin process with seven nodes: `mongo:connect`, `mongo:find`, `mongo:insert`, `mongo:update`,
`mongo:delete`, `mongo:aggregate` and `mongo:close`.

- `src/` is the library: the nodes' decisions, the pool of connections, the conversions between
  JSON and BSON, and the descriptions of the nodes. It is written in Verus, and every function's
  contract is proved. What it takes from the MongoDB driver and from the JSON crate stands in
  `src/outside.rs` and `src/calls.rs`, with the contracts that are taken on trust; so does
  `Arc::clone` in `src/pool.rs`.
- `app/` is the process around it: it asks the driver and speaks with the host.
- `tests/` runs the library with the driver and the JSON crate. No server is needed.

A node that works on the database runs in steps. The library reads the configuration and gives a
request, the process asks the driver, and the library turns the answers into the report:

    plugin.execute(..) -> Step::Find(request)      src/plugin.rs, src/nodes/find.rs
    collection.find(..), cursor.try_next()         app/driver.rs
    find::on_event(gathering, event, ..) -> report src/nodes/find.rs

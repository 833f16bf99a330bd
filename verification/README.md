# windmill_variables

The decisions behind a workspace's variable endpoints (list, read, read the
value, check, create, update, delete, encrypt), written in Verus and proved
against their contracts.

Every endpoint is a step machine: it is started with the request, asks for
one piece of outside work at a time (`protocol::Action`: a permission check,
a query, a statement, a crypto operation, an audit record, a webhook
message), and is handed back how that work went (`protocol::Event`), until it
answers. What each step asks for is stated exactly by a spec function beside
the machine; `laws.rs` proves what holds across steps, such as: a secret is
stored encrypted, and a read of it asks for the workspace key and decrypts
exactly the text that was stored (the cipher itself is outside work, not
modelled here); the secret flag cannot change without the value; renaming a
variable rewrites the references to it; a create followed by a delete leaves
the existence check answering as before.

The laws across endpoints (a create read back by the value and detail
endpoints, two deletes, the existence check after a create and a delete) are
proved on a model of the variable table: the rows the database hands back
and the text the cipher gives back are premises of those laws, since the
database and the cipher are outside work. The permissions shown when a read
is refused are printed by serde_json's `to_string_pretty`, named by
`json::pretty_json`.

- `src/json.rs`: JSON documents, the rewrite of references on rename, and
  their pretty printing through serde_json.
- `src/text.rs`, `src/naming.rs`: text helpers, scopes and `$var:` references.
- `src/sql.rs`: the update statement, rendered by the `sql-builder` crate.
- `src/read.rs`, `src/write.rs`, `src/update.rs`: the endpoint machines.
- `src/service.rs`: the route table, listing bindings, the example job context.
- `src/laws.rs`: properties across steps and endpoints.
- `app/`: the HTTP layer that performs the outside work (axum, sqlx and the
  Windmill crates).

# zodl_ironwood_migration

A verified engine for migrating a wallet's funds from the Orchard pool to the Ironwood pool: it plans
denominations, splits notes, schedules transfers at shared anchors, signs PCZTs and keeps track of
what is due. It is synchronous and does no networking; the platform broadcasts.

- `src/` is the engine, checked by Verus. It opens no database: the engine's tables are a `Store`, and
  what the wallet says (balances, heights, selected notes, mined transactions) is handed in.
- `app/` puts the engine on top of a wallet database: reading and writing the tables, reading the
  wallet, building transactions from its notes, and the serializable types of the platform glue.
- `tests/` runs the engine, including the outside crates it calls.

What is believed without proof is what the crates `pczt`, `orchard`, `zcash_keys`, `zcash_primitives`,
`zcash_protocol`, `zip321`, `uuid`, `serde_json`, `rusqlite` and `zcash_client_sqlite` return; each
such claim stands above the small function that makes the call. `src/store_laws.rs` and
`src/context_laws.rs` state what holds of the operations taken together.

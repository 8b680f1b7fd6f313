# platform_09_26

A multi-tenant task executor: a model of tasks and leases, two stores that hand
tasks out to workers, and the decisions of the workers that carry them out.
What the library does is stated in `requires` and `ensures` contracts and proved
by Verus.

- `src/domain` — tasks, leases, pools and tenants.
- `src/time.rs` — points in time and spans, with nanosecond resolution.
- `src/storage` — the stores.
  - `model.rs` says what happens to a task, `in_memory.rs` does it, and `laws.rs`
    proves what holds over the whole life of a store.
  - `postgres.rs` decides what a store in PostgreSQL writes, `sql.rs` holds the
    statements that write it, `tables.rs` says what they do to the database and
    proves what holds of it, `tenants.rs` says what tenants and workflows can rely
    on, and `postgres_laws.rs` compares the store with the one in memory. That the statements do what `tables.rs` says is read from
    their text and taken for granted: the database carries them out.
- `src/worker` — the decisions of a worker, as a function from state and event
  to state and action, and what holds of a run as a whole.
- `src/transport` — what a worker and the orchestrator say to each other.
- `src/outside` — the calls into other crates, with what is taken for granted of
  each.
- `app` — the clock, the locks, the network and the database around the library.
- `tests` — the library at work on concrete values.

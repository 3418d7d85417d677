# activator

An always-on activator that starts sleeping cloud VMs on demand. A small
HTTP API tells a hobby site's frontend whether its VM is running and starts
it when it is not; each instance has its own list of browser origins that
may call it.

## Layout

- `src/` — the library, verified with Verus:
  - `config.rs` — configuration model, validation and loading decisions;
  - `registry.rs`, `name_map.rs` — the instance and provider-factory
    registries (association lists with distinct names);
  - `http.rs` — request-path parsing, the origin guard's decisions, API
    errors and replies;
  - `bootstrap.rs`, `application.rs` — configuration directory, path
    joining, building the registries, the listen address;
  - `exec.rs` — what a run of a provider's command-line tool means;
  - `oci.rs`, `mock.rs` — the built-in providers' arguments and states;
  - `laws.rs` — properties that span several operations.
- `app/` — the service itself: HTTP server (axum), configuration files
  (serde), process spawning (tokio) and the async provider interface.
- `tests/` — tests of the library on concrete values.

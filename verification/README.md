# snaxum

Flask-style Python routing for Rust/Axum servers, with its logic verified
by Verus.

- `src/` is the verified library: configuration building and validation
  (`config`, `paths`), parsing of query text (`text`), the Python
  dispatcher's reading of responses (`dispatch`), the decisions of the
  catch-all `/python/{*path}` handler (`dispatcher`), the runtime's worker
  protocol and pending-request table (`worker`), the endpoint shapes
  (`handlers`), errors (`error`) and properties that relate several
  operations (`laws`).
- `app/` is the server around it: PyO3 calls into the embedded interpreter,
  threads and channels, the filesystem and environment queries that a
  build needs (`host`), Axum handlers and serde forms of the library's types.
- `tests/` exercises the library on concrete values.

Paths are Unix-style strings: a path is absolute when it starts with `/`.
Building a configuration takes `HostFacts`, what the host reports for the
paths the build inspects; `app/host.rs` gathers them.

# Tusklet

A workspace for local PostgreSQL Docker containers: named projects hold
databases, each one a container `tusklet-<id>` with its data in the named
volume `tusklet-<id>-data`, published on `127.0.0.1` only.

The library in `src/` is verified with Verus:

- `model.rs`: configurations and their validation (names, image tags,
  identifiers, ports, PostgreSQL server arguments), saved databases and the
  names Docker knows them by, container states.
- `docker.rs`: the arguments of every Docker command, the reading of Docker's
  output, and the start / stop / removal of a container as a step machine that
  asks for one Docker request at a time.
- `service.rs`: each user action as a task that asks for one step of outside
  work (store, Docker, ports) at a time; port choice; workspace snapshots; the
  background worker's state.
- `store.rs`: the rules applied before the workspace database is written.
- `interface.rs`: the rules of the desktop interface (forms, confirmations,
  selection, enabled controls, status texts).
- `text.rs`: string helpers with their specifications.

The program in `app/` runs the Docker CLI, keeps the workspace in SQLite with
SeaORM, and drives the library's tasks on a worker thread.

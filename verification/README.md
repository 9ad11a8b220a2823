# mortimeriot

A small weather-station service: stations post measurements to a server, which
stores them in SQLite and serves them back page by page; a command-line client
talks to the server.

- `src/` is the verified library (Verus):
  - `protocol`: the message shapes shared by server and client.
  - `server::cli`: runtime settings, defaults and command-line overrides.
  - `server::daemon`: the handlers' decisions — ingestion-key check, reading
    of history requests (RFC 3339 bounds, page size), answers to refusals.
  - `server::db`: stored rows to readings, the history and latest queries, paging.
  - `server::paging`: a model of the table and what the queries fetch from it,
    with the laws of paging through the history and of the latest reading.
  - `server::rfc3339`: RFC 3339 parsing and formatting through the `time` crate.
  - `client`: the client's arguments and how it addresses the server.
  - `logging`: the verbosity levels.
- `app/` is the program around it: command-line parsing, configuration files,
  the SQLite driver, the HTTP server and client, and logging.
- `tests/` exercises the library on concrete values.

# streamer2

A websocket gateway for a translation service. Clients connect over a
websocket and send commands; each command becomes a task on a shared Redis
stream. Workers answer on a per-instance response stream, and the gateway
routes every response to the connection of the client that asked.

- `src/` is the verified library (Verus): the messages, the client registry,
  the steps of the response and task loops, the decisions of a websocket
  connection, the HTTP answers, fresh ids, and the changes each
  connection hands to the connection gauge: up by one when it opens, down by
  one when it closes. The gauge's value lives in the metrics recorder and is
  not verified.
- `app/` is the service around it: HTTP and websocket serving (axum), Redis
  I/O, channels and tasks (tokio), JSON (serde), metrics export and `tracing` events.
- `tests/` runs the library on concrete values.

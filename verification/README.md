# crosis

A client for goval containers, with its protocol logic verified by Verus.

- `src/` is the verified library. It holds no sockets and no timers: each
  function takes what has happened and says what to do next.
  - `client`, `channel`, `req_map`: the state of a client, its channels and the
    requests that wait for a reply.
  - `connect`, `endpoint`, `metadata`, `default_connection_metadata`: a
    connection attempt, from the metadata to the address that is dialed.
  - `session`: the reading and the writing side of a session, and its end.
  - `refs`: the references that tie a reply to its request.
  - `goval`, `error`: the messages and the errors.
  - `laws`, `session_laws`: what holds over any number of operations.
- `tests/` runs the library on concrete values.
- `app/` is the client on tokio: websocket, HTTP, timers, tasks and the message
  encoding. The message type comes from the goval schema by way of
  `WireCommand`.

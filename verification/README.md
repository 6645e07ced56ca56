# kvlr

A small RPC framework over TLS streams, with its own binary encoding (`aren`).

- `src/` is the verified library (Verus): the `aren` encoding (`dynint`,
  fixed-size integers, `bool`, `()`, byte strings, strings), the frame layout,
  the RPC call/response bodies, call ids, the pipelining table, the handler and
  promise tables, the handshake check and protocol dispatch, the stored form
  of secrets, and the console's RON to MessagePack transcoding. Each function
  has a contract; the round-trip properties of every encoding are proof
  functions next to it.
- `app/` is the asynchronous plumbing around it (tokio tasks, TLS listener,
  channels, MessagePack payloads through serde).
- `tests/` runs the library on concrete values.

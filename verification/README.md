# event_ipc

Named event channels over crossfire and a length-delimited IPC protocol, with
their logic proved by Verus.

- `src/` — the verified library
  - `event_base`: single/multi-producer channel endpoints, their shared error and
    how channel outcomes become results (`channel.rs` holds the calls into crossfire)
  - `ipc::socket`: the frame format (`wire`), request ids and envelopes, the
    table of in-flight calls
  - `service`: the demo service's protocol, counter and call execution
  - `mock_aijob`, `mock_tui`, `error`: the event demos' queues and errors
- `app/` — the asynchronous sends and receives, tokio sockets, postcard payloads
  and the demos (`events`, `ai-queue`, `ipc`)
- `tests/` — tests of the library against the real crossfire and postcard

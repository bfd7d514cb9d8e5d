# libp2p_state

Verified state machines of two libp2p components.

- `src/request_response`: the connection handler of the request-response protocol. It
  queues requests, serves a poll in a fixed order, keeps the connection alive while it
  is in use, and steps the work on every substream.
- `src/webtransport`: a WebTransport connection. It decides how a session is opened,
  authenticates the remote peer over noise, turns promises into streams, and closes the
  session once.
- `src/outside.rs`: the functions of other crates that the proofs rest on.

A machine never waits. It returns an action, the event loop performs it and hands the
outcome back. `app/` holds these loops: one inside a swarm, one inside a browser.

What holds over whole runs of a machine is proved in the two `laws.rs` files. How every
request ends, with the handler and the work on its substreams taken together, is proved in
`src/request_response/outcomes.rs`.

# inbound

The decisions of an inbound HBONE proxy, written in Rust and verified with Verus: which requests
for a tunnel are served, where their bytes go, what is reported of them, and what the refused
ones are answered.

- `src/addr.rs`: addresses as plain values.
- `src/message.rs`: the head of a request, read through the `http` crate.
- `src/traceparent.rs`, `src/forwarded.rs`: the `traceparent` and `Forwarded` headers.
- `src/response.rs`: the responses.
- `src/state.rs`: the workloads and services that the proxy knows.
- `src/inbound.rs`: the single decisions.
- `src/serve.rs`: the course of a request, as steps from event to action.
- `src/laws.rs`: what holds of every course.
- `app/`: the listener and the work between two steps, over the traits of a surrounding program.

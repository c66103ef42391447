# Tetra

Tetra is a host agent for the Ultramarine Server Dashboard. Its logic is written in Verus: each
function states what it returns, and Verus proves it.

- `src/agent/`: the outbound control-plane connection. `transport` says which configurations may
  connect, `tls` reads the certificates and the key, `websocket` holds the frames, the answers
  to them and the reconnect backoff, and `session` is one session, step by step.
- `src/enrollment/`: the device-code enrollment of a host. `flow` defines which step follows
  which, `machine` carries it out, and `laws` proves what holds of every enrollment: nothing is
  stored before the Dashboard approves, a host registers at most once, and a plaintext agent
  URL needs permission.
- `src/listing.rs`, `src/args.rs`: what the command line shows and takes.
- `src/text.rs`, `src/json.rs`: operations on text and on JSON objects.
- `app/`: the command line. It reads files, talks to the network and runs programs, as the
  library asks for it. Host modules plug in through the trait `Host`.
- `tests/`: tests of the library.

What the library takes from other crates stands behind small functions marked
`#[verifier::external_body]`. Each says in its comment which outside function it calls and what
it claims of it.

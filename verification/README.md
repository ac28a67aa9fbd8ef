# stargate

A verified library for routing inference requests through QUIC tunnels: the decisions of a
stargate, of a pylon and of the router in front of them, written in Rust and proved with Verus.

- `src/tls` reads certificates, checks server identities and trust bundles, and rotates them while
  keeping the last valid generation in use.
- `src/tunnel` drives reverse tunnels, direct connections and WebTransport sessions as state
  machines, from events to what is to be done next.
- `src/load_balancer` resolves the algorithm of a request and chooses its cluster, and takes the
  hashes that clusters are ranked by.
- `src/metrics` keeps the counters and gauges that a pylon and the router export.
- `src/startup`, `src/registration`, `src/queue_estimate.rs` and `src/trace.rs` hold the rules of
  starting up, of registering, of expected queueing times and of what a span records.

Floating-point numbers are carried as their bits: the library orders scores, and callers calculate
them. Sockets, files, clocks and foreign traits are left to `app`, which turns what happens into
events for the library and carries out what the library decides. `tests` runs the library with the
outside crates that it calls.

# cured

Decision logic for postgres failover, verified with Verus.

- `src/salami.rs`: the timer-driven failover state machine (`step`) with its
  transition table as a specification and laws about it.
- `src/lib.rs`: the instant-driven state machine (`step`, `renew_deadline`).
- `src/enum_ver.rs`: the decisions of a tick-driven driver (`begin`, `resume`).
- `src/mock.rs`: a scripted lease store; `src/proxy.rs`: the proxy's shared
  switch and connection count, and the drain decision.
- `src/pepperoni/`: node naming (FNV-1a) and the lease and postgres vocabulary.
- `src/time.rs`: durations by their nanoseconds, and monotonic instants.
- `app/`: the binary, the clock, the async lease and postgres interfaces, the
  tick driver and the TCP proxy.

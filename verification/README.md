# service_registry

Decisions of a nanomsg-based service registry (discovery, health checking,
routing, providers), verified with Verus.

- `src/` — the verified library: endpoint addresses, the step-by-step
  connection setup, the health checker's cycle, the listeners' read loop
  decisions, and the message types.
- `app/` — sockets (nanomsg), the clock (time), threads (crossbeam), JSON
  (serde), streams (futures): it performs the actions the library asks for.
- `tests/` — tests of the library on concrete values.

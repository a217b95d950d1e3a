# ipc-ring

A zero-copy fan-out ring buffer for in-process and interprocess communication,
with its rules verified by [Verus](https://github.com/verus-lang/verus).

One producer writes; up to 64 readers read independently. The payload is mapped
twice in a row, so that every reservation is one contiguous slice, also across
the payload's end. New server-backed readers receive bytes published after they
attached; cloned local readers inherit their source's cursor. The slowest
attached reader holds the producer back. A server-backed producer stays writable
without readers, while a local producer is disconnected once its last reader is
gone. One local server routes clients to any number of rings by port name.

## Layout

- `src/` is the verified library. It decides and computes: what may be reserved,
  published and released (`ring`, `cursor`, `view`), who reads (`ring::membership`,
  `ring::reader`), how memory is laid out and mapped (`mapping`), what both sides
  of a handshake say and do (`handshake`), which ring a client is routed to
  (`ipc`), and how named rings are found (`platform`).
- `ring::laws` states what a ring guarantees, over a model of its whole history.
  `ring::realization` connects that model to the registry and the memory, and
  `handshake::laws` states what a handshake guarantees to both sides.
- `tests/` runs the library on concrete values.
- `app/` is ordinary Rust around the library: it maps shared memory, opens
  sockets, waits and wakes, and hands the library what it observed.

The trusted items are few: the page size, text decoding, `Duration::from_secs`,
how the system words its failures, and the wakeups of Tokio. Each says in its doc comment what is believed of it.

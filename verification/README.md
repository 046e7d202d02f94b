# actix_net

The decision-making core of a set of asynchronous networking utilities,
written in Verus and verified against its contracts.

- `codec::framed` — an I/O object with its codec, read buffer and write buffer
  (`bytes::BytesMut`), with high/low watermarks.
- `utils::framed` — the framed dispatcher as a state machine: read frames, call
  the service, write responses oldest first, flush, stop.
- `utils::order` — responses released in the order of their requests.
- `utils::timeout`, `utils::keepalive` — time decisions on a millisecond clock.
- `utils::either`, `service::*` — service combinators and the joining of two
  factories' services.
- `utils::counter` — a capacity counter.
- `connect::*` — trying resolved addresses in order; filling in IP addresses.
- `server::config` — listeners by name, the per-worker registry of services.

`app/` runs these machines on tokio: it polls futures, does the I/O and
spawns tasks, and hands each outcome back to the library.

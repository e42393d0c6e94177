# lib

Verified building blocks for small concurrent programs, written in Verus.

- `src/ids.rs`: bounded id allocation over a shared `AtomicU32`, with the
  decision of each attempt (`admit_id`, `next_claim`, `successor`) exact.
- `src/channel.rs`: the message queue of a channel, first in, first out,
  with laws over any history of sends and receives.
- `src/oneshot.rs`: a one-shot channel: its state machine, and a sender and
  receiver sharing it through a verified lock.
- `src/progress.rs`, `src/lazy.rs`, `src/commands.rs`: the decisions of
  progress loops, lazy initialisation and a command loop, and an average.

`app/` holds the programs around the library: threads, blocking waits,
retry loops without a bound, statics and printing. `tests/` runs the
library on concrete values.

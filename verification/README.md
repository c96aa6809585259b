# ferrosonic (verified core)

The logic of a terminal Subsonic music client, written in Verus with its
behaviour stated as contracts and proved.

- `src/queue.rs`: the play queue and its laws (the position always indexes a
  song; moving, inserting and removing keep the current song; stepping forward
  and back undo each other).
- `src/handlers.rs`: the decisions behind the key handlers: list selection,
  queue-page edits, next/previous track, repeat mode and volume steps.
- `src/mpris.rs`: MPRIS object paths, capability flags, track metadata and
  which changed properties to announce.
- `src/footer.rs`, `src/cava.rs`, `src/layout.rs`, `src/rest.rs`, `src/text.rs`:
  key hints and status text, the visualizer configuration and screen runs,
  click geometry, Subsonic request URLs, decimal text.
- `app/`: desktop notifications, the MPRIS D-Bus server, footer drawing and
  reading the visualizer's terminal, around the library.

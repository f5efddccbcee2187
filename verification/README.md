# spotify_native

The verified core of a Node.js binding for a Spotify Connect client built on
librespot.

- `src/` is the library, verified with Verus: the player's readiness and the
  commands it hands to the playback engine (`player`, `playback`), event
  delivery and event names (`events`), callback arguments (`callback`), and
  the Spotify Connect announcement: the device's id and type, the state of the
  discovery service, and when its search stops (`device`, `discovery`).
- `app/` is the Node.js module around it: reading JavaScript arguments,
  running the async work on a Tokio runtime, opening sessions, launching the
  discovery service and calling back into JavaScript. `app/test_play.rs` holds the
  body of a command-line check of the playback engine, for a binary to run.
- `tests/` exercises the library on concrete values.

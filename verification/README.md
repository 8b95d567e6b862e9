# recorder

The logic of a small desktop audio recorder, verified with Verus.

- `src/` is the verified library: engine states and the transitions the
  engine makes on each command (`engine`), the stream shape (`config`),
  device specs and lookup by id (`device`), capture buffers and their
  little-endian byte image (`recording`), the playback cursor and output
  filling of a take (`sample`), and the naming of finished takes (`manager`).
- `app/` is the program around it: the cpal devices and streams, the
  capture thread, the channels between them, and the gpui interface.
  Samples cross into the library as the bit patterns of their `f32` values.

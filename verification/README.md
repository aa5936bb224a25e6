# mutti

A terminal music player whose decisions are verified with Verus.

- `src/` is the verified library: the playback state machine
  (`audio_player`), the key bindings (`keys`), the tag fallbacks (`tags`,
  `db`), the text of the interface and its focus cycle (`ui`), the integer
  bookkeeping of the visualizer (`visualizer`), and time counted in
  nanoseconds (`time`). `text` holds decimal rendering and the two trusted
  standard-library string functions (file stems, lower case).
- `app/` is the program around it: command line (clap), audio device and
  decoding (rodio), tags (lofty), directory scan (walkdir), the track
  database (rusqlite), the FFT (rustfft) and terminal drawing (ratatui,
  crossterm). It reads the clock, carries out what the library decides, and
  draws what the library computes.
- `tests/` runs the library on concrete values.

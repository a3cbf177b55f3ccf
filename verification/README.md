# termplay

A terminal music player for a local music directory and YouTube, built
around a verified library.

- `src/` is the library, verified with Verus: the search over the local
  files (`library`), the interface state and its reaction to keys and to
  worker reports (`app`), the audio worker's decisions (`player`), cover art
  (`cover`), track lengths (`audio`), YouTube results and
  URLs (`youtube`), the texts on screen (`view`), path and character-level
  helpers (`path`, `text`), and properties that relate several operations
  (`laws`).
- `app/` is the program: the terminal, the worker threads (audio device,
  `mpv`, YouTube client, image fetching, directory scan), probing audio
  containers with symphonia (whose readers panic on some malformed files,
  so the probe runs under `catch_unwind`), and the channels between them.
  It sends what the library decides and hands the answers back to it.
- `tests/` exercises the library on concrete values.

The audio worker in `app/` plays local files through `rodio`, which
`Cargo.toml` does not list: with it the sources of the dependency tree grow
past the size that this build environment accepts, and the ALSA development
files that its audio backend links against are not installed here. Until
`rodio` is added, `app/` does not compile; the library and its tests do not
need it.

# desktop_lyrics

The decision logic of a desktop lyrics window for Windows music players, verified with Verus.

- `src/media.rs`: which media sessions count as music players, which session lyrics follow,
  playback controls, timeline conversions and the snapshot sent to the window.
- `src/netease.rs`: the NetEase Cloud Music player: finding the instructions that store its
  playback clock in a module image and resolving the clock's address, recognising its process
  and module names, reading tracks from its play history, matching a track id, inferring pause
  from an unchanged clock, and the steps of looking the clock up.
- `src/lyrics.rs`: scoring and ranking lyrics search results, decoding HTML entities and the
  steps of finding lyrics.
- `src/text.rs`: character-level helpers (normalisation, trimming, substring search,
  replacement, decimal formatting) with their specifications.
- `app/`: the Tauri commands, the Windows media-session, process-memory and database reads and
  the HTTP requests, which hand plain values to the library and act on its answers.

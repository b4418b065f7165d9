# music_player

The core of a desktop music player, verified with Verus.

- `src/` is the library: the track index, the play queue and playlists
  (`state`, `queue`), the player's switches and the media-control events
  (`media_player`, `ui_events`, `cxxqt_object`), the bookkeeping of a queued
  audio sink (`sink`), the decisions of streaming a downloaded file (`stream`), the records and SQL statements of the store
  (`data_types`, `database_types`, `database`), turning folder files into
  tracks (`source`), the YouTube Data API requests and replies and the
  PKCE-style authentication request (`requests`), and decimal and clock text
  (`text`, `time_format`). Verus verifies every function, and the public ones carry the contracts that
  state what they do;
  the calls into `sha2`, `base64`, `serde_json` and `rand` go through a few
  trusted wrappers whose contracts say what those crates give.
- `tests/` runs the library on concrete values.
- `app/` is the terminal front end: it reads commands, lets the library decide,
  and does the outside work (SQLite through `rusqlite`, folders and tags through
  `lofty`, sound through `kira`, HTTP through `reqwest`, JSON through `serde`).

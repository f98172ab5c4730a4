# zeron_ui

The verified logic behind three panels of a session browser.

- `link`, `percent`: what a clicked link target means, and percent-encoded paths.
- `viewer`, `file_viewer`, `viewer_pane`: the read-only file viewer, from a host's reply to what
  the panel shows. The newest request wins, whichever response lands first.
- `file_open`: the quick-open palette and the course of one search.
- `worktrees`: the worktree settings page.
- `display`, `size`, `text`: path parts, editor rows, byte counts, and text primitives.
- `proto`: the records and calls exchanged with the engine.

Each function states in its contract what it returns or changes; properties that span functions
are public proof functions named `law_...`. `app/` holds the surroundings: JSON, calls to the
engine, waits and pixel metrics.

Two functions of the standard library are trusted: `String::push` (in `text`) and
`String::from_utf8` (in `percent`).

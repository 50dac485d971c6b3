# calendar_cli

A terminal calendar with Google Calendar sync and a local event store. The
state of the calendar and everything it decides are in a library verified
with Verus; a thin program around it talks to the terminal, the files and
Google.

## Layout

- `src/` — the verified library
  - `date.rs` — dates, day numbers, month navigation, the six-week grid
  - `text.rs` — character-level string helpers (cursor offsets, trimming,
    decimal numbers)
  - `parse.rs` — the flexible time and date syntax of the forms and the
    jump prompt
  - `models.rs` — events, keys, the event form and its editing
  - `local.rs` — the local event store: ids, listing, create, update, delete
  - `gcal.rs`, `auth.rs` — what Google sends and the sign-in redirect
  - `config.rs`, `theme.rs` — preferences, file locations, themes
  - `app.rs` — the state, its invariant, filtering and search
  - `keys.rs` — what every key does (a step function with its model)
  - `flow.rs` — what finished outside work does to the state
  - `screen.rs` — what the screen shows: grid cells, titles, status line
- `app/` — the program: arguments, the event loop, files, Google, drawing
- `tests/` — tests of the library on concrete values

The library never performs outside work itself: a key gives back a
`Command`, the program performs it and reports the outcome back through
the `finish_*` and sign-in methods of `App`.

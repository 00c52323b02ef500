# hyprnote

The decision-making core of the `char` command-line tools, written in Verus and
proved against its contracts.

- `src/` is the verified library:
  - `text`, `search`, `commands`, `palette`, `entry`: the entry screen's command line,
    its fuzzy command matching and popup ordering, command lookup, and the effects each
    key, paste or command produces, and which of them run before the screen closes.
  - `cactus_model`, `model`: the catalogue of downloadable Cactus models and the choices
    the `model` command makes (current model, name resolution, listing lines).
  - `calendar`, `nango`, `ids`: calendar and event sync planning (what is removed, what
    is written, in which order, with which identity) and provider connection handling.
  - `json`, `settings`: JSON documents as plain values, and the speech-to-text settings
    read from the database or from the old settings file.
  - `detect`, `clock`: debounced microphone-use detection and Zoom mute tracking.
  - `batch`, `github`, `settings`, `listen`, `cli`, `layout`, `screen`, `recorder`:
    batch transcription routing, outcomes and error messages, GitHub request paths, stored
    settings, the live transcription screen's state, shared options, screen geometry,
    the decisions of a screen's event loop, and where a session's recording lives.
- `tests/` exercises the library on concrete values.
- `app/` is the executable: argument parsing and the calls that touch the system
  (opening the desktop app or its download page).

# hachimi_core

The verified core of a companion mod for a racing and idol game: the decisions behind
its free camera, its text layout helpers for translated game text, the planning of
translation-repository updates, and the request queues shared between game hooks,
plugins and the overlay.

- `src/` is the library, written in Verus; its functions carry contracts and are proved
  against them, apart from a few thin wrappers around outside crates whose contracts are
  trusted. Modules:
  - `free_camera`: the discrete free-camera state machine (scenes, modes, targets, keys,
    gamepad buttons, per-frame tick).
  - `text`, `markup`: UTF-16 offsets, visible length, size tags, truncation to a column
    width, splitting text into markup and plain runs, and putting markup back into
    wrapped lines.
  - `gui`, `sugoi`: request queues, notifications, plugin icons, keybind capture, and the
    bookkeeping of machine translations.
  - `hachimi`, `tl_repo`: languages, settings types, the updater schedule, repository
    selection repair and update planning.
  - `race`, `live`, `ui`, `audio`: game enums and the small decisions of the race replay,
    concert playback, text components and voice captions.
  - `fnv_maps`: the FNV-hashed maps and sets of the `fnv` crate that the library keeps
    its bookkeeping in, with what their methods do to their contents.
- `app/` is ordinary Rust around the library: shared state behind locks, JSON settings
  types, the updater loop and repository repair, reading files for update checks, and the
  floating-point camera motion and text fitting.
- `tests/` exercises the library on concrete values.

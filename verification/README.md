# hippmem_py

Python bindings of the HIPPMEM associative memory engine, with the logic of
the bindings verified in Verus.

- `src/` (verified): how a call's arguments become engine arguments and how
  the engine's identifiers become text.
  - `decimal`: decimal reading and writing of 128-bit ids and cursors.
  - `ids`: id lists for feedback (lenient) and deletion (strict), cursors.
  - `content`: content kinds, their names, case-insensitive reading.
  - `request`: `open` configuration, feedback signals, consolidation scopes,
    listing pages.
  - `error`: refused arguments and their messages.
  - `text`: the few `std` string operations the rest builds on.
- `app/`: the `pyo3` module; it opens the store and calls the engine.
- `tests/`: tests of the library.

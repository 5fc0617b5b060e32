# on_blast

A panel applet for the COSMIC desktop that shows what the players on the session
bus are playing, with its logic verified by Verus.

- `src/` is the verified library. It decides which player is on display
  (`player`, `players`, `poll`), what the panel and the popup show (`app`,
  `view`), how commands reach a player (`control`), and how covers are loaded,
  shrunk, blurred and cached (`art`, `art_cache`, `art_load`, `raster`). The
  modules `app_laws` and `poll_laws` state what holds over whole runs.
- `app/` is the program around it: the windows and widgets, the session bus, the
  network and the disk.
- `tests/` runs the library on concrete values, with the real `image` and `mpris`
  crates.

Work that only the outside can do is asked for and handed back: a poll, a command
or a load is a run that names the next thing it needs, and is told what came of
it. What the outside crates compute is trusted as far as the contracts of the
`external_body` functions and the `assume_specification` items in `metadata`,
`art` and `art_cache` say.

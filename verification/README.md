# rusty_gears

Keeps a folder of Factorio mods up to date.

- `src/` is the verified library. It decides: which releases to fetch
  (`update`), which session token to use (`auth`), which new mods to add
  (`new_mods`), how an automated run goes on (`automated`), and how the
  interactive program reacts to keys and to finished work and what it shows
  (`tui`, `tui_start`, `tui_tasks`, `screen`, `overlay`, `layout`). What holds of
  each step, and of steps one after the other, is stated and proved in
  `update_laws`, `automated_laws` and `tui_laws`, and beside the functions it is
  about. What a whole update check finds, and that it ends, stands in
  `update_run_laws`; what becomes of a whole list of new mods, in `new_mods`.
- `app/` is the program around it: files, network, keyboard and terminal. It
  does what the library asks for and hands back what came of it.
- `tests/` runs the library with the real outside crates.

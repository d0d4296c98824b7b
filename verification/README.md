# ui

The interface layer of Courier, a desktop companion that follows Dota 2
players and their matches.

- `src/` is the verified library: the state and decisions of every screen
  (friends, follows, matches, settings, setup, galleries), the shared
  searchable player list, toasts, the theme and its palettes, the main
  window's reaction to menu entries, screen actions and background results,
  and the background tracker's plan for each watched player.
- `tests/` runs the library on concrete values.
- `app/` draws it all with egui and does the I/O: configuration,
  translations, storage, web clients, the tokio runtime and the tracker loop.

# Yaffe

A game and application launcher front end for a television: platforms of
emulated games and plugin listings on the left, a grid of games on the
right, driven by keyboard or game controller.

## Layout

- `src/` is the launcher's logic, written in Verus and verified: input
  mapping and controller polling, the search filter, navigation of the
  platform list and game grid, the focus history of the widgets, text
  boxes, lists and dialogs, restricted mode passcodes, the settings file
  and texture atlas formats, sorting of the game library, the plugin
  navigation protocol, the asset cache's eviction rule and the switching
  of the windows' drawing contexts. Each public function states what it
  returns and changes in its contract; the laws that tie functions
  together are proof functions beside them.
- `tests/` runs the library on concrete values.
- `app/` is the program around the library: the windows and drawing, the
  database of platforms and games, the settings file on disk, plugin
  libraries, download threads and the operating system.

# sdop_game

The game logic of a small virtual-pet game, written in Verus: the public functions of
`src/` carry contracts that Verus proves, and the laws that tie several of them together
(alternate play on the tic-tac-toe board, how a move search may be split into steps, the
order of a home screen frame) stand as proof functions beside them.

- `src/` — the verified library: the tic-tac-toe engine and its move search, the screens
  of the game as state machines (home, menus, shop, date and text entry, alarm, death,
  doctor, suiters, mini games), the activity choice of the pet, the sound queue, the
  simulation step splitting, and the calendar steps. Calls into `chrono`, `fastrand` and
  `heapless` go through small trusted wrappers whose contracts state what those crates'
  sources show.
- `tests/` — tests on concrete values, run against the compiled library.
- `app/` — the parts that work with floating point numbers, `Duration`s, `chrono` values
  and save-file encoding, around the library.

The home screen follows the game's `home_scene/` directory module (its menu, activity
choice and state), which is the version the rest of the game is written against.

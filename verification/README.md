# rust_test_game

A grid snake game ("Rust Cube Eater"). The game rules are a verified library:

- `src/grid.rs`: the field, directions, and the bound on how many distinct cells fit on it.
- `src/game.rs`: the game state (`GameState`, viewed as `GameView`), its validity invariant,
  and the rules: ticking (`update`), steering and restarting (`handle_input`, `reset`),
  taking the remote food configuration (`apply_remote_config`), one loop frame (`run_frame`)
  and the sprites a frame draws (`render`).
- `src/remote.rs`: the remote food configuration and its defaults.
- `src/engine.rs`: key codes of the windowing library.
- `src/laws.rs`: properties spanning several calls.

`app/` is the program around it: the C windowing/drawing bindings, the clock, keyboard
polling, the HTTP fetch of the food configuration on its own thread, and the loop.
Time reaches the library in whole microseconds and pixel coordinates as whole pixels.

# plants_vs_zombies

The rules of a small "Plants vs Zombies" game, verified with Verus, and the
program that plays it with `ggez` and `rodio`.

- `src/` is the library: the entities (plants, zombies, peas, sunshines,
  mowers, buttons), their managers (lawn, zombie waves, sky, card bar,
  buttons), the game's state machine (`game.rs`), the frame-path and image
  helpers, and the audio player's decisions.  Each public function states
  its effect in `ensures`; the game keeps `Game::wf` (pools of fixed size,
  a tile taken exactly while its plant lives, the sunshine always covering
  the card in hand, the zombies' level at most 4, the zombies playing in the
  game's mode).  One frame is `Game::update` (`frame.rs`): it runs the
  frame's steps in order and asks a `Screen`, the program's view of where
  things are, each geometric question the next step needs.  Positions are not part
  of the library: it receives the outcome of each geometric test (a click
  inside a rectangle, two sprites touching) as booleans, and hands back the
  sounds and pauses to perform as a queue of `Command`s.
- `app/` is the program: the window and event loop, the positions of
  everything on screen and the geometric tests, the pictures, and the audio
  thread.
- `tests/` runs the library on concrete games.

//! Game logic of a small "Plants vs Zombies" clone: the entities, their
//! managers and the game's state machine.  Geometry (positions in pixels,
//! rectangles, drawing) lives with the caller; the library receives the
//! outcome of geometric tests (a click inside a rectangle, two sprites
//! touching) as plain values.
pub mod entities;
pub mod entities_managers;
pub mod frame;
pub mod functionality;
pub mod game;
pub mod my_trait;
pub mod resources;
pub mod spawner;
pub mod threads;
pub mod tools;

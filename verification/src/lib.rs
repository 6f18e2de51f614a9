//! Core logic of a grid-based snake simulation: a chain of connected body
//! segments advances one grid unit per discrete tick, directions propagate
//! down the chain one tick behind the head, and player input is debounced
//! and checked against illegal reversals. A fixed-interval clock turns a
//! stream of elapsed-time deltas into discrete ticks. Rendering and window
//! plumbing live outside this crate and only read segment positions.

pub mod clock;
pub mod direction;
pub mod game;
pub mod laws;
pub mod snake;

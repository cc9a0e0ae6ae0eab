//! A verified model of a generative-art grid: a fixed grid of square "stones"
//! that walk from the origin to their grid slot while a seeded deterministic
//! noise stream displaces and rotates each of them, scaled by row depth.
//!
//! All quantities are integers in fixed-point units, so every rule of the
//! model — the draw order of the noise stream, the depth scaling of the
//! offsets, the animation steps, and the keyboard guards — carries a proved
//! contract. Rendering works in whatever real-valued units it likes by
//! dividing out the documented scales.

pub mod grid;
pub mod random_field;

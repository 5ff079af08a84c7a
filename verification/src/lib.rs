//! Movement, collision and sprite animation for a small 2D platformer.
//!
//! Everything is computed on whole numbers. A length or a coordinate counts
//! millionths of a world unit, an elapsed time counts microseconds, and a speed
//! is given in world units per second, which is the same number of length units
//! per microsecond. The caller turns the clock's reading and the positions it
//! draws into these units and back.

pub mod units;
pub mod collision;
pub mod input;
pub mod animation;
pub mod registry;
pub mod player;
pub mod ground;
pub mod simulation;

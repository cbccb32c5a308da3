//! Procedural generation of a small fixed set of square pixel sprites
//! (an apple, an organic-waste tile, a rock tile, a bot body and eight
//! bot-head variants, one per compass direction) from geometric
//! primitives, together with the 8-direction compass abstraction used to
//! orient entities.
//!
//! Arithmetic policy: all pixel arithmetic is checked statically; callers
//! must satisfy the stated no-overflow preconditions, and every verified
//! function is proved free of panics.

pub mod bot;
pub mod consts;
pub mod images;
pub mod draw;
mod geom;
pub mod pixel;

pub use geom::{Point, Rect, Size};

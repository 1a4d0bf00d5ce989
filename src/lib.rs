//! An animated desktop character: the behaviour state machine, the frame
//! animation driver, horizontal movement with screen wraparound, the sprite
//! reload trigger, and the placement geometry.

pub mod animation;
pub mod click;
pub mod error;
pub mod geometry;
pub mod movement;
pub mod reload;
pub mod state;

//! An animated face for a small square colour display.
//!
//! The crate holds the decisions of the face: which animation is active on
//! each tick, which frame of it is shown, and when sudden motion interrupts
//! it. Drawing, sensors and timing are left to the caller, who feeds the
//! controller one motion sample per tick and carries out the draw command
//! it hands back.

pub mod animation;
pub mod audio;
pub mod dice;
pub mod face;
pub mod fault;
pub mod jolt;
pub mod pacing;

pub use crate::animation::Animation;
pub use crate::animation::DrawCommand;
pub use crate::animation::FrameArea;
pub use crate::animation::Player;
pub use crate::face::App;
pub use crate::face::Assets;
pub use crate::face::Controller;
pub use crate::face::State;

use vstd::prelude::*;

verus! {

/// Width of the display, and of every frame, in pixels.
pub const WIDTH: u32 = 240;

/// Height of the display, and of every frame, in pixels.
pub const HEIGHT: u32 = 240;

} // verus!

// Priorities of the map viewer's systems, in the order they run.

use vstd::prelude::*;

verus! {

// Layer 1: input
pub const INPUT_COLLECTING: u32 = 100;

// Layer 2: core logic
pub const LOCAL_PREDICTION: u32 = 200;
pub const MOVEMENT_V2: u32 = 210;

// Layer 3: presentation
pub const PLAYER_ANIMATION: u32 = 300;

// Layer 5: other systems
pub const CAMERA: u32 = 530;

} // verus!

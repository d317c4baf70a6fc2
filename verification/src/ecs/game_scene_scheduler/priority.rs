// Priorities of the game scene's systems, in the order they run.

use vstd::prelude::*;

verus! {

// Layer 1: input and network
pub const INPUT_COLLECTING: u32 = 100;
pub const CLIENT_NETWORK: u32 = 150;

// Layer 2: core logic
pub const LOCAL_PREDICTION: u32 = 200;
pub const MOVEMENT_V2: u32 = 210;
pub const RECONCILIATION: u32 = 220;
pub const INTERPOLATION: u32 = 230;

// Layer 3: presentation decisions
pub const ANIMATION_STATE: u32 = 300;
pub const MONSTER_ANIMATION_STATE: u32 = 310;
pub const NPC_ACTION: u32 = 320;

// Layer 4: render preparation
pub const TILE_ANIMATION: u32 = 400;
pub const ANIMATION_PLAYBACK: u32 = 410;
pub const MOVEMENT_INTERPOLATION: u32 = 420;

// Layer 5: other systems
pub const MOUSE_EVENT: u32 = 500;
pub const MONSTER: u32 = 510;
pub const OCCLUSION: u32 = 520;
pub const CAMERA: u32 = 530;

} // verus!

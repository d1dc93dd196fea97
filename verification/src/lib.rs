//! Progression and economy engine of a small chance-based arcade game.
//!
//! A player draws random orbs from a per-level pool to accumulate points
//! against a rising milestone, while managing a bounded health pool and
//! spending earned currency between levels to bias future draws.

use vstd::prelude::*;

pub mod laws;
pub mod orb;
pub mod player;
pub mod view;

verus! {

/// Health is capped at this value; a fresh level starts here.
pub const MAX_HEALTH: u32 = 5;

/// Levels run from 1 to this value; clearing the final level wins the game.
pub const MAX_LEVEL: u32 = 5;

/// The point milestone of a level is `MILESTONE_BASE + level * MILESTONE_STEP`.
pub const MILESTONE_BASE: u32 = 5;

/// See `MILESTONE_BASE`.
pub const MILESTONE_STEP: u32 = 10;

/// Every level's base pool holds this many orbs of each kind.
pub const BASE_ORBS_PER_KIND: u32 = 5;

/// A drawn health orb heals this much, up to `MAX_HEALTH`.
pub const HEALTH_ORB_GAIN: u32 = 1;

/// A drawn point orb scores this much.
pub const POINT_ORB_VALUE: u32 = 5;

/// A drawn bomb orb deals this much damage, down to zero health.
pub const BOMB_ORB_DAMAGE: u32 = 2;

/// The pull history keeps at most this many entries, oldest evicted first.
pub const HISTORY_LIMIT: usize = 5;

} // verus!

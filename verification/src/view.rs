//! The mathematical model of player progress and of every game transition.
//!
//! Each mutating operation of `PlayerGameState` promises to land exactly on
//! the view computed by one of the transition functions below.

use vstd::prelude::*;

use crate::orb::base_orbs;
use crate::orb::Orb;
use crate::BOMB_ORB_DAMAGE;
use crate::HEALTH_ORB_GAIN;
use crate::HISTORY_LIMIT;
use crate::MAX_HEALTH;
use crate::MAX_LEVEL;
use crate::MILESTONE_BASE;
use crate::MILESTONE_STEP;
use crate::POINT_ORB_VALUE;

verus! {

/// Abstract state of a player's progress through a run.
#[verifier::ext_equal]
pub struct PlayerView {
    pub health: u32,
    pub points: u32,
    pub game_id: u32,
    pub milestone: u32,
    pub orbs: Seq<Orb>,
    pub level: u32,
    pub moonrocks: u32,
    pub cheddah: u32,
    pub purchased_orbs: Seq<Orb>,
    pub pull_history: Seq<Orb>,
    pub rewards_settled: bool,
}

impl PlayerView {
    /// The state invariant: health capped, level in range, history bounded.
    pub open spec fn wf(self) -> bool {
        &&& self.health <= MAX_HEALTH
        &&& 1 <= self.level <= MAX_LEVEL
        &&& self.pull_history.len() <= HISTORY_LIMIT
    }
}

/// The point milestone that ends the given level.
pub open spec fn milestone_for(level: u32) -> u32
    recommends
        level <= MAX_LEVEL,
{
    (MILESTONE_BASE + level * MILESTONE_STEP) as u32
}

/// The state a run of the given level starts from: full health, no points,
/// the base pool, and nothing purchased, drawn, or settled yet.
pub open spec fn fresh_view(level: u32) -> PlayerView {
    PlayerView {
        health: MAX_HEALTH,
        points: 0,
        game_id: 1,
        milestone: milestone_for(level),
        orbs: base_orbs(),
        level,
        moonrocks: 0,
        cheddah: 0,
        purchased_orbs: Seq::empty(),
        pull_history: Seq::empty(),
        rewards_settled: false,
    }
}

/// `health` raised by `amount`, capped at `MAX_HEALTH`.
pub open spec fn capped_heal(health: u32, amount: u32) -> u32 {
    if health + amount <= MAX_HEALTH {
        (health + amount) as u32
    } else {
        MAX_HEALTH
    }
}

/// The pull history after one more draw: most recent last, oldest evicted
/// once the history would exceed `HISTORY_LIMIT` entries.
pub open spec fn record_pull(history: Seq<Orb>, orb: Orb) -> Seq<Orb> {
    let grown = history.push(orb);
    if grown.len() > HISTORY_LIMIT {
        grown.drop_first()
    } else {
        grown
    }
}

/// The effect of consuming one drawn orb on health and points.
pub open spec fn apply_orb(v: PlayerView, orb: Orb) -> PlayerView {
    match orb {
        Orb::Health => PlayerView { health: capped_heal(v.health, HEALTH_ORB_GAIN), ..v },
        Orb::Point => PlayerView { points: v.points.saturating_add(POINT_ORB_VALUE), ..v },
        Orb::Bomb => PlayerView { health: v.health.saturating_sub(BOMB_ORB_DAMAGE), ..v },
    }
}

/// The whole state after drawing the orb at index `i` of the pool: the orb
/// leaves the pool, its effect is applied, and the history records it.
pub open spec fn draw_resolved(v: PlayerView, i: int) -> PlayerView
    recommends
        0 <= i < v.orbs.len(),
{
    let orb = v.orbs[i];
    let applied = apply_orb(v, orb);
    PlayerView {
        orbs: v.orbs.remove(i),
        pull_history: record_pull(v.pull_history, orb),
        ..applied
    }
}

/// The state after one purchase attempt: with enough currency the cost is
/// debited and the orb joins the purchase ledger; otherwise nothing changes.
pub open spec fn purchase_applied(v: PlayerView, orb: Orb, cost: u32) -> PlayerView {
    if v.cheddah >= cost {
        PlayerView {
            cheddah: (v.cheddah - cost) as u32,
            purchased_orbs: v.purchased_orbs.push(orb),
            ..v
        }
    } else {
        v
    }
}

/// The state after settling a level clear: the level's points are credited
/// to currency exactly once, guarded by the `rewards_settled` flag. Without
/// a clear, or after a settlement, nothing changes.
pub open spec fn level_rewards_settled(v: PlayerView) -> PlayerView {
    if v.points >= v.milestone && !v.rewards_settled {
        PlayerView { cheddah: v.cheddah.saturating_add(v.points), rewards_settled: true, ..v }
    } else {
        v
    }
}

/// The state after advancing past a settled clear: the next level starts
/// fresh, except that currency persists and every purchased orb joins the
/// new base pool. At the final level, or before a settlement, nothing
/// changes.
pub open spec fn advanced(v: PlayerView) -> PlayerView {
    if v.level < MAX_LEVEL && v.rewards_settled {
        PlayerView {
            level: (v.level + 1) as u32,
            health: MAX_HEALTH,
            points: 0,
            milestone: milestone_for((v.level + 1) as u32),
            orbs: base_orbs() + v.purchased_orbs,
            pull_history: Seq::empty(),
            rewards_settled: false,
            ..v
        }
    } else {
        v
    }
}

/// The signal the presentation layer drives screen transitions from.
#[derive(Clone, Copy, Debug, PartialEq, Eq, Structural)]
pub enum Outcome {
    InProgress,
    LevelCleared,
    GameWon,
    GameLost,
}

/// Which signal the current state produces. Reaching the milestone is
/// checked before exhausted health: clearing a level while dropping to zero
/// health is a clear, never a loss.
pub open spec fn outcome_of(v: PlayerView) -> Outcome {
    if v.points >= v.milestone {
        if v.level >= MAX_LEVEL {
            Outcome::GameWon
        } else {
            Outcome::LevelCleared
        }
    } else if v.health == 0 {
        Outcome::GameLost
    } else {
        Outcome::InProgress
    }
}

} // verus!

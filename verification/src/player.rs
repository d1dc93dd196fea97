//! The player's progress state and every command that mutates it.

use vstd::prelude::*;

use rand::Rng;

use crate::orb::base_orbs;
use crate::orb::count_of;
use crate::orb::count_orbs;
use crate::orb::lemma_count_orbs_contains;
use crate::orb::Orb;
use crate::view::advanced;
use crate::view::capped_heal;
use crate::view::draw_resolved;
use crate::view::fresh_view;
use crate::view::level_rewards_settled;
use crate::view::outcome_of;
use crate::view::purchase_applied;
use crate::view::record_pull;
use crate::view::Outcome;
use crate::view::PlayerView;
use crate::BOMB_ORB_DAMAGE;
use crate::HISTORY_LIMIT;
use crate::MAX_HEALTH;
use crate::MAX_LEVEL;
use crate::MILESTONE_BASE;
use crate::MILESTONE_STEP;
use crate::POINT_ORB_VALUE;

verus! {

/// All player-visible progress of one run: health, points, currency, the
/// current level's orb pool, the purchase ledger, and the recent-draw
/// history. Mutated in place by the draw, purchase, and level commands.
pub struct PlayerGameState {
    pub health: u32,
    pub points: u32,
    pub game_id: u32,
    pub milestone: u32,
    pub orbs: Vec<Orb>,
    pub level: u32,
    pub moonrocks: u32,
    pub cheddah: u32,
    pub purchased_orbs: Vec<Orb>,
    pub pull_history: Vec<Orb>,
    pub rewards_settled: bool,
}

impl View for PlayerGameState {
    type V = PlayerView;

    open spec fn view(&self) -> PlayerView {
        PlayerView {
            health: self.health,
            points: self.points,
            game_id: self.game_id,
            milestone: self.milestone,
            orbs: self.orbs@,
            level: self.level,
            moonrocks: self.moonrocks,
            cheddah: self.cheddah,
            purchased_orbs: self.purchased_orbs@,
            pull_history: self.pull_history@,
            rewards_settled: self.rewards_settled,
        }
    }
}

/// Relies on rand::thread_rng and rand::Rng::gen_range: returns an index
/// sampled uniformly over `[0, bound)`. gen_range panics only on an empty
/// range, which the precondition rules out.
#[verifier::external_body]
fn random_index(bound: usize) -> (index: usize)
    requires
        bound > 0,
    ensures
        index < bound,
{
    rand::thread_rng().gen_range(0..bound)
}

impl PlayerGameState {
    /// A fresh state for the given level: full health, zero points, the
    /// level's milestone, the base pool, and empty ledgers.
    pub fn new_for_level(level: u32) -> (player: PlayerGameState)
        requires
            1 <= level <= MAX_LEVEL,
        ensures
            player@ == fresh_view(level),
            player@.wf(),
    {
        let orbs = Orb::create_base_set();
        let player = PlayerGameState {
            health: MAX_HEALTH,
            points: 0,
            game_id: 1,
            milestone: MILESTONE_BASE + level * MILESTONE_STEP,
            orbs,
            level,
            moonrocks: 0,
            cheddah: 0,
            purchased_orbs: Vec::new(),
            pull_history: Vec::new(),
            rewards_settled: false,
        };
        proof {
            assert(player@ =~= fresh_view(level));
        }
        player
    }

    /// Draws the orb at a known pool index and resolves it: the orb leaves
    /// the pool, heals, scores or damages, and enters the pull history. This
    /// deterministic entry point carries the whole draw logic; `pull_orb`
    /// merely samples the index for it.
    pub fn pull_orb_at(&mut self, index: usize) -> (orb: Orb)
        requires
            old(self)@.wf(),
            index < old(self).orbs.len(),
        ensures
            final(self)@ == draw_resolved(old(self)@, index as int),
            orb == old(self)@.orbs[index as int],
            final(self)@.wf(),
    {
        let orb = self.orbs.remove(index);
        self.pull_history.push(orb);
        if self.pull_history.len() > HISTORY_LIMIT {
            self.pull_history.remove(0);
            proof {
                assert(self.pull_history@ =~= record_pull(old(self)@.pull_history, orb));
            }
        }
        match orb {
            Orb::Health => {
                if self.health < MAX_HEALTH {
                    self.health = self.health + 1;
                }
            },
            Orb::Point => {
                self.points = self.points.saturating_add(POINT_ORB_VALUE);
            },
            Orb::Bomb => {
                self.health = self.health.saturating_sub(BOMB_ORB_DAMAGE);
            },
        }
        proof {
            assert(self@ =~= draw_resolved(old(self)@, index as int));
        }
        orb
    }

    /// Draws one orb uniformly at random from the pool and resolves it.
    /// From an empty pool nothing is drawn and nothing changes.
    pub fn pull_orb(&mut self) -> (orb: Option<Orb>)
        requires
            old(self)@.wf(),
        ensures
            old(self).orbs.len() == 0 ==> final(self)@ == old(self)@ && orb is None,
            old(self).orbs.len() > 0 ==> exists|i: int|
                0 <= i < old(self)@.orbs.len() && final(self)@ == draw_resolved(old(self)@, i)
                    && orb == Some(old(self)@.orbs[i]),
            final(self)@.wf(),
    {
        if self.orbs.is_empty() {
            return None;
        }
        let index = random_index(self.orbs.len());
        let orb = self.pull_orb_at(index);
        Some(orb)
    }

    /// The outcome the current state signals. The milestone check precedes
    /// the health check: a clear that costs the last health is still a clear.
    pub fn evaluate_outcome(&self) -> (outcome: Outcome)
        ensures
            outcome == outcome_of(self@),
    {
        if self.points >= self.milestone {
            if self.level >= MAX_LEVEL {
                Outcome::GameWon
            } else {
                Outcome::LevelCleared
            }
        } else if self.health == 0 {
            Outcome::GameLost
        } else {
            Outcome::InProgress
        }
    }

    /// Credits the cleared level's points to currency, exactly once per
    /// clear: a repeated call, or a call without a clear, changes nothing
    /// and reports `false`.
    pub fn complete_level(&mut self) -> (credited: bool)
        ensures
            final(self)@ == level_rewards_settled(old(self)@),
            credited == (old(self)@.points >= old(self)@.milestone
                && !old(self)@.rewards_settled),
    {
        if self.points >= self.milestone && !self.rewards_settled {
            self.cheddah = self.cheddah.saturating_add(self.points);
            self.rewards_settled = true;
            true
        } else {
            false
        }
    }

    /// Moves to the next level after a settled clear: health, points,
    /// milestone and history start fresh, and the new pool is the base set
    /// plus every orb ever purchased. At the final level, or before the
    /// clear is settled, nothing changes and `false` is reported.
    pub fn advance_to_next_level(&mut self) -> (did_advance: bool)
        requires
            old(self)@.wf(),
        ensures
            final(self)@ == advanced(old(self)@),
            did_advance == (old(self)@.level < MAX_LEVEL && old(self)@.rewards_settled),
            final(self)@.wf(),
    {
        if self.level < MAX_LEVEL && self.rewards_settled {
            let mut next_orbs = Orb::create_base_set();
            proof {
                assert(next_orbs@ =~= base_orbs() + self.purchased_orbs@.take(0));
            }
            let mut i: usize = 0;
            while i < self.purchased_orbs.len()
                invariant
                    i <= self.purchased_orbs.len(),
                    next_orbs@ == base_orbs() + self.purchased_orbs@.take(i as int),
                decreases self.purchased_orbs.len() - i,
            {
                let orb = self.purchased_orbs[i];
                next_orbs.push(orb);
                i = i + 1;
                proof {
                    assert(next_orbs@ =~= base_orbs() + self.purchased_orbs@.take(i as int));
                }
            }
            proof {
                assert(next_orbs@ =~= base_orbs() + self.purchased_orbs@);
            }
            self.level = self.level + 1;
            self.health = MAX_HEALTH;
            self.points = 0;
            self.milestone = MILESTONE_BASE + self.level * MILESTONE_STEP;
            self.pull_history.clear();
            self.orbs = next_orbs;
            self.rewards_settled = false;
            proof {
                assert(self@ =~= advanced(old(self)@));
            }
            true
        } else {
            false
        }
    }

    /// Reinitializes everything to the level-1 defaults, clearing the
    /// purchase ledger and the pull history. Used when quitting mid-run and
    /// when starting a brand-new game.
    pub fn reset_to_defaults(&mut self)
        ensures
            final(self)@ == fresh_view(1),
            final(self)@.wf(),
    {
        *self = PlayerGameState::new_for_level(1);
    }

    /// Whether the current level is the run's last.
    pub fn is_final_level(&self) -> (at_final: bool)
        ensures
            at_final == (self@.level >= MAX_LEVEL),
    {
        self.level >= MAX_LEVEL
    }

    /// Whether currency covers the given cost.
    pub fn can_afford_orb(&self, cost: u32) -> (affordable: bool)
        ensures
            affordable == (self@.cheddah >= cost),
    {
        self.cheddah >= cost
    }

    /// Attempts to buy one orb of the given kind at the given cost: with
    /// enough currency the cost is debited and the orb joins the purchase
    /// ledger; otherwise nothing changes and `false` is reported.
    pub fn purchase_orb(&mut self, orb_type: Orb, cost: u32) -> (purchased: bool)
        ensures
            final(self)@ == purchase_applied(old(self)@, orb_type, cost),
            purchased == (old(self)@.cheddah >= cost),
    {
        if self.cheddah >= cost {
            self.cheddah = self.cheddah - cost;
            self.purchased_orbs.push(orb_type);
            proof {
                assert(self@ =~= purchase_applied(old(self)@, orb_type, cost));
            }
            true
        } else {
            false
        }
    }

    /// Buys one health orb; see `purchase_orb`.
    pub fn purchase_health_orb(&mut self, cost: u32) -> (purchased: bool)
        ensures
            final(self)@ == purchase_applied(old(self)@, Orb::Health, cost),
            purchased == (old(self)@.cheddah >= cost),
    {
        self.purchase_orb(Orb::Health, cost)
    }

    /// Buys one point orb; see `purchase_orb`.
    pub fn purchase_point_orb(&mut self, cost: u32) -> (purchased: bool)
        ensures
            final(self)@ == purchase_applied(old(self)@, Orb::Point, cost),
            purchased == (old(self)@.cheddah >= cost),
    {
        self.purchase_orb(Orb::Point, cost)
    }

    /// Removes the first orb of the given kind from the pool, reporting
    /// whether one was present.
    pub fn remove_orb(&mut self, orb_type: Orb) -> (removed: bool)
        ensures
            removed == old(self)@.orbs.contains(orb_type),
            final(self)@ == (PlayerView {
                orbs: old(self)@.orbs.remove_value(orb_type),
                ..old(self)@
            }),
    {
        let mut i: usize = 0;
        while i < self.orbs.len()
            invariant
                i <= self.orbs.len(),
                self@ == old(self)@,
                forall|j: int| 0 <= j < i ==> self.orbs@[j] != orb_type,
            decreases self.orbs.len() - i,
        {
            if self.orbs[i] == orb_type {
                proof {
                    assert(old(self)@.orbs[i as int] == orb_type);
                    assert(old(self)@.orbs.contains(orb_type));
                    old(self)@.orbs.index_of_first_ensures(orb_type);
                    match old(self)@.orbs.index_of_first(orb_type) {
                        Some(idx) => {
                            if idx < i as int {
                                assert(old(self)@.orbs[idx] != orb_type);
                                assert(false);
                            }
                            if idx > i as int {
                                assert(old(self)@.orbs[i as int] != orb_type);
                                assert(false);
                            }
                        },
                        None => {
                            assert(false);
                        },
                    }
                    assert(old(self)@.orbs.index_of_first(orb_type) == Some(i as int));
                }
                self.orbs.remove(i);
                proof {
                    assert(self@ =~= (PlayerView {
                        orbs: old(self)@.orbs.remove_value(orb_type),
                        ..old(self)@
                    }));
                }
                return true;
            }
            i = i + 1;
        }
        proof {
            assert(!old(self)@.orbs.contains(orb_type));
            old(self)@.orbs.index_of_first_ensures(orb_type);
        }
        false
    }

    // Pure queries.

    /// Whether health has run out.
    pub fn is_dead(&self) -> (dead: bool)
        ensures
            dead == (self@.health == 0),
    {
        self.health == 0
    }

    /// Whether health stands at the cap.
    pub fn is_at_max_health(&self) -> (at_max: bool)
        ensures
            at_max == (self@.health == MAX_HEALTH),
    {
        self.health == MAX_HEALTH
    }

    /// Whether the pool holds at least one orb of the given kind.
    pub fn has_orb(&self, orb_type: Orb) -> (present: bool)
        ensures
            present == self@.orbs.contains(orb_type),
    {
        proof {
            lemma_count_orbs_contains(self@.orbs, orb_type);
        }
        count_of(&self.orbs, orb_type) > 0
    }

    /// How many orbs of the given kind the pool holds.
    pub fn orb_count(&self, orb_type: Orb) -> (count: usize)
        ensures
            count == count_orbs(self@.orbs, orb_type),
    {
        count_of(&self.orbs, orb_type)
    }

    /// How many orbs the pool holds in all.
    pub fn total_orb_count(&self) -> (count: usize)
        ensures
            count == self@.orbs.len(),
    {
        self.orbs.len()
    }

    /// How many health orbs the pool holds.
    pub fn health_orb_count(&self) -> (count: usize)
        ensures
            count == count_orbs(self@.orbs, Orb::Health),
    {
        self.orb_count(Orb::Health)
    }

    /// How many point orbs the pool holds.
    pub fn point_orb_count(&self) -> (count: usize)
        ensures
            count == count_orbs(self@.orbs, Orb::Point),
    {
        self.orb_count(Orb::Point)
    }

    /// How many bomb orbs the pool holds.
    pub fn bomb_orb_count(&self) -> (count: usize)
        ensures
            count == count_orbs(self@.orbs, Orb::Bomb),
    {
        self.orb_count(Orb::Bomb)
    }

    /// How many orbs of the given kind have been purchased this run.
    pub fn purchased_orb_count(&self, orb_type: Orb) -> (count: usize)
        ensures
            count == count_orbs(self@.purchased_orbs, orb_type),
    {
        count_of(&self.purchased_orbs, orb_type)
    }

    /// How many orbs have been purchased this run in all.
    pub fn total_purchased_orbs(&self) -> (count: usize)
        ensures
            count == self@.purchased_orbs.len(),
    {
        self.purchased_orbs.len()
    }

    /// Whether at least `count` moonrocks are held.
    pub fn has_moonrocks(&self, count: u32) -> (enough: bool)
        ensures
            enough == (self@.moonrocks >= count),
    {
        self.moonrocks >= count
    }

    /// Whether at least `count` cheddah is held.
    pub fn has_cheddah(&self, count: u32) -> (enough: bool)
        ensures
            enough == (self@.cheddah >= count),
    {
        self.cheddah >= count
    }

    // Snapshot accessors.

    /// Current health.
    pub fn health(&self) -> (value: u32)
        ensures
            value == self@.health,
    {
        self.health
    }

    /// Points scored this level.
    pub fn points(&self) -> (value: u32)
        ensures
            value == self@.points,
    {
        self.points
    }

    /// Identifier of the running game.
    pub fn game_id(&self) -> (value: u32)
        ensures
            value == self@.game_id,
    {
        self.game_id
    }

    /// The point threshold that clears the current level.
    pub fn milestone(&self) -> (value: u32)
        ensures
            value == self@.milestone,
    {
        self.milestone
    }

    /// The current level's remaining orb pool.
    pub fn orbs(&self) -> (pool: &Vec<Orb>)
        ensures
            pool@ == self@.orbs,
    {
        &self.orbs
    }

    /// Current level number.
    pub fn level(&self) -> (value: u32)
        ensures
            value == self@.level,
    {
        self.level
    }

    /// Moonrocks held.
    pub fn moonrocks(&self) -> (value: u32)
        ensures
            value == self@.moonrocks,
    {
        self.moonrocks
    }

    /// Cheddah held.
    pub fn cheddah(&self) -> (value: u32)
        ensures
            value == self@.cheddah,
    {
        self.cheddah
    }

    /// The recent draws, most recent last, at most `HISTORY_LIMIT` entries.
    pub fn pull_history(&self) -> (history: &Vec<Orb>)
        ensures
            history@ == self@.pull_history,
    {
        &self.pull_history
    }

    // Raw field commands. Each replaces or adjusts one field and leaves the
    // rest untouched; the setters that feed an invariant field require the
    // invariant's bound.

    /// Sets health outright; the cap is the state invariant's bound.
    pub fn set_health(&mut self, value: u32)
        requires
            value <= MAX_HEALTH,
        ensures
            final(self)@ == (PlayerView { health: value, ..old(self)@ }),
    {
        self.health = value;
    }

    /// Sets the points scored this level.
    pub fn set_points(&mut self, value: u32)
        ensures
            final(self)@ == (PlayerView { points: value, ..old(self)@ }),
    {
        self.points = value;
    }

    /// Sets the game identifier.
    pub fn set_game_id(&mut self, value: u32)
        ensures
            final(self)@ == (PlayerView { game_id: value, ..old(self)@ }),
    {
        self.game_id = value;
    }

    /// Sets the milestone outright.
    pub fn set_milestone(&mut self, value: u32)
        ensures
            final(self)@ == (PlayerView { milestone: value, ..old(self)@ }),
    {
        self.milestone = value;
    }

    /// Replaces the orb pool outright.
    pub fn set_orbs(&mut self, orbs: Vec<Orb>)
        ensures
            final(self)@ == (PlayerView { orbs: orbs@, ..old(self)@ }),
    {
        self.orbs = orbs;
    }

    /// Sets the level; levels run from 1 to `MAX_LEVEL`.
    pub fn set_level(&mut self, value: u32)
        requires
            1 <= value <= MAX_LEVEL,
        ensures
            final(self)@ == (PlayerView { level: value, ..old(self)@ }),
    {
        self.level = value;
    }

    /// Sets the moonrocks held.
    pub fn set_moonrocks(&mut self, value: u32)
        ensures
            final(self)@ == (PlayerView { moonrocks: value, ..old(self)@ }),
    {
        self.moonrocks = value;
    }

    /// Sets the cheddah held.
    pub fn set_cheddah(&mut self, value: u32)
        ensures
            final(self)@ == (PlayerView { cheddah: value, ..old(self)@ }),
    {
        self.cheddah = value;
    }

    /// Heals by `amount`, capped at `MAX_HEALTH`.
    pub fn add_health(&mut self, amount: u32)
        ensures
            final(self)@ == (PlayerView {
                health: capped_heal(old(self)@.health, amount),
                ..old(self)@
            }),
    {
        if amount <= MAX_HEALTH && self.health <= MAX_HEALTH - amount {
            self.health = self.health + amount;
        } else {
            self.health = MAX_HEALTH;
        }
    }

    /// Scores `amount` points, saturating at the type's ceiling.
    pub fn add_points(&mut self, amount: u32)
        ensures
            final(self)@ == (PlayerView {
                points: old(self)@.points.saturating_add(amount),
                ..old(self)@
            }),
    {
        self.points = self.points.saturating_add(amount);
    }

    /// Adds one orb to the pool.
    pub fn add_orb(&mut self, orb: Orb)
        ensures
            final(self)@ == (PlayerView { orbs: old(self)@.orbs.push(orb), ..old(self)@ }),
    {
        self.orbs.push(orb);
    }

    /// Gains `amount` moonrocks, saturating at the type's ceiling.
    pub fn add_moonrocks(&mut self, amount: u32)
        ensures
            final(self)@ == (PlayerView {
                moonrocks: old(self)@.moonrocks.saturating_add(amount),
                ..old(self)@
            }),
    {
        self.moonrocks = self.moonrocks.saturating_add(amount);
    }

    /// Gains `amount` cheddah, saturating at the type's ceiling.
    pub fn add_cheddah(&mut self, amount: u32)
        ensures
            final(self)@ == (PlayerView {
                cheddah: old(self)@.cheddah.saturating_add(amount),
                ..old(self)@
            }),
    {
        self.cheddah = self.cheddah.saturating_add(amount);
    }

    /// Raises the milestone by one, saturating at the type's ceiling.
    pub fn increase_milestone(&mut self)
        ensures
            final(self)@ == (PlayerView {
                milestone: old(self)@.milestone.saturating_add(1),
                ..old(self)@
            }),
    {
        self.milestone = self.milestone.saturating_add(1);
    }

    /// Raises the level by one; levels never pass `MAX_LEVEL`.
    pub fn level_up(&mut self)
        requires
            old(self)@.level < MAX_LEVEL,
        ensures
            final(self)@ == (PlayerView {
                level: (old(self)@.level + 1) as u32,
                ..old(self)@
            }),
    {
        self.level = self.level + 1;
    }

    /// Damages by `amount`, never below zero health.
    pub fn subtract_health(&mut self, amount: u32)
        ensures
            final(self)@ == (PlayerView {
                health: old(self)@.health.saturating_sub(amount),
                ..old(self)@
            }),
    {
        self.health = self.health.saturating_sub(amount);
    }

    /// Deducts `amount` points, never below zero.
    pub fn subtract_points(&mut self, amount: u32)
        ensures
            final(self)@ == (PlayerView {
                points: old(self)@.points.saturating_sub(amount),
                ..old(self)@
            }),
    {
        self.points = self.points.saturating_sub(amount);
    }

    /// Spends `amount` moonrocks, never below zero.
    pub fn subtract_moonrocks(&mut self, amount: u32)
        ensures
            final(self)@ == (PlayerView {
                moonrocks: old(self)@.moonrocks.saturating_sub(amount),
                ..old(self)@
            }),
    {
        self.moonrocks = self.moonrocks.saturating_sub(amount);
    }

    /// Spends `amount` cheddah, never below zero.
    pub fn subtract_cheddah(&mut self, amount: u32)
        ensures
            final(self)@ == (PlayerView {
                cheddah: old(self)@.cheddah.saturating_sub(amount),
                ..old(self)@
            }),
    {
        self.cheddah = self.cheddah.saturating_sub(amount);
    }
}

impl Default for PlayerGameState {
    /// The state a brand-new game starts from: level 1 with its defaults.
    fn default() -> (player: Self)
        ensures
            player@ == fresh_view(1),
            player@.wf(),
    {
        PlayerGameState::new_for_level(1)
    }
}

} // verus!

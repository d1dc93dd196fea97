//! Laws of the progression engine, proved once over the abstract
//! transitions that the commands of `PlayerGameState` promise to follow.

use vstd::prelude::*;

use crate::orb::base_orbs;
use crate::orb::count_orbs;
use crate::orb::lemma_base_orb_counts;
use crate::orb::lemma_count_orbs_add;
use crate::orb::Orb;
use crate::view::advanced;
use crate::view::draw_resolved;
use crate::view::level_rewards_settled;
use crate::view::outcome_of;
use crate::view::purchase_applied;
use crate::view::Outcome;
use crate::view::PlayerView;
use crate::BASE_ORBS_PER_KIND;
use crate::HISTORY_LIMIT;
use crate::MAX_HEALTH;
use crate::MAX_LEVEL;

verus! {

/// One draw attempt at index `i`: a draw resolves when the index lies in
/// the pool, and changes nothing otherwise — in particular, every attempt
/// on an empty pool is a no-op.
pub open spec fn draw_step(v: PlayerView, i: int) -> PlayerView {
    if 0 <= i < v.orbs.len() {
        draw_resolved(v, i)
    } else {
        v
    }
}

/// The state after a whole sequence of draw attempts, first pick first.
pub open spec fn run_draws(v: PlayerView, picks: Seq<int>) -> PlayerView
    decreases picks.len(),
{
    if picks.len() == 0 {
        v
    } else {
        run_draws(draw_step(v, picks[0]), picks.drop_first())
    }
}

/// The orbs the picks actually draw, in draw order; attempts that miss the
/// pool draw nothing.
pub open spec fn drawn_orbs(v: PlayerView, picks: Seq<int>) -> Seq<Orb>
    decreases picks.len(),
{
    if picks.len() == 0 {
        Seq::empty()
    } else if 0 <= picks[0] < v.orbs.len() {
        seq![v.orbs[picks[0]]] + drawn_orbs(draw_resolved(v, picks[0]), picks.drop_first())
    } else {
        drawn_orbs(v, picks.drop_first())
    }
}

/// The last `n` entries of a sequence, or all of it when it is shorter.
pub open spec fn last_entries(s: Seq<Orb>, n: int) -> Seq<Orb> {
    if s.len() <= n {
        s
    } else {
        s.skip(s.len() - n)
    }
}

/// One draw preserves the state invariant: in particular, healing is capped
/// and damage saturates at zero health.
pub proof fn lemma_draw_step_preserves_wf(v: PlayerView, i: int)
    requires
        v.wf(),
    ensures
        draw_step(v, i).wf(),
{
}

/// However many orbs are drawn, in whatever order, health never exceeds
/// `MAX_HEALTH` and the whole state invariant holds.
pub proof fn lemma_draws_preserve_wf(v: PlayerView, picks: Seq<int>)
    requires
        v.wf(),
    ensures
        run_draws(v, picks).wf(),
        run_draws(v, picks).health <= MAX_HEALTH,
    decreases picks.len(),
{
    if picks.len() > 0 {
        lemma_draw_step_preserves_wf(v, picks[0]);
        lemma_draws_preserve_wf(draw_step(v, picks[0]), picks.drop_first());
    }
}

/// Within a level, points never go down: no draw lowers them.
pub proof fn lemma_draws_never_lower_points(v: PlayerView, picks: Seq<int>)
    ensures
        run_draws(v, picks).points >= v.points,
    decreases picks.len(),
{
    if picks.len() > 0 {
        lemma_draws_never_lower_points(draw_step(v, picks[0]), picks.drop_first());
    }
}

/// Evicting the oldest entry of a long-enough prefix does not change the
/// last `n` entries of the concatenation.
proof fn lemma_last_entries_drop_first(s: Seq<Orb>, d: Seq<Orb>, n: int)
    requires
        0 <= n < s.len(),
    ensures
        last_entries(s.drop_first() + d, n) == last_entries(s + d, n),
{
    if s.drop_first().len() + d.len() <= n {
        assert(s.drop_first() + d =~= (s + d).skip(s.len() + d.len() - n));
    } else {
        let lhs = (s.drop_first() + d).skip(s.len() - 1 + d.len() - n);
        let rhs = (s + d).skip(s.len() + d.len() - n);
        assert forall|j: int| 0 <= j < n implies lhs[j] == rhs[j] by {
            let k: int = s.len() - 1 + d.len() - n + j;
            if k < s.len() - 1 {
                assert(s.drop_first()[k] == s[k + 1]);
            } else {
                assert((s.drop_first() + d)[k] == d[k - (s.len() - 1)]);
                assert((s + d)[k + 1] == d[k + 1 - s.len()]);
            }
        }
        assert(lhs =~= rhs);
    }
}

/// After any sequence of draw attempts, the pull history holds exactly the
/// last `HISTORY_LIMIT` entries of the old history followed by the drawn
/// orbs, most recent last. Starting from an empty history, its length is
/// the number of orbs drawn, capped at `HISTORY_LIMIT`.
pub proof fn lemma_history_tracks_draws(v: PlayerView, picks: Seq<int>)
    requires
        v.wf(),
    ensures
        run_draws(v, picks).pull_history == last_entries(
            v.pull_history + drawn_orbs(v, picks),
            HISTORY_LIMIT as int,
        ),
        run_draws(v, picks).pull_history.len() <= HISTORY_LIMIT,
        run_draws(v, picks).pull_history.len() == if v.pull_history.len() + drawn_orbs(
            v,
            picks,
        ).len() <= HISTORY_LIMIT {
            v.pull_history.len() + drawn_orbs(v, picks).len()
        } else {
            HISTORY_LIMIT as nat
        },
    decreases picks.len(),
{
    let limit = HISTORY_LIMIT as int;
    if picks.len() == 0 {
        assert(v.pull_history + drawn_orbs(v, picks) =~= v.pull_history);
    } else {
        let rest = picks.drop_first();
        if 0 <= picks[0] < v.orbs.len() {
            let w = draw_resolved(v, picks[0]);
            let orb = v.orbs[picks[0]];
            lemma_draw_step_preserves_wf(v, picks[0]);
            lemma_history_tracks_draws(w, rest);
            let tail = drawn_orbs(w, rest);
            assert(drawn_orbs(v, picks) =~= seq![orb] + tail);
            let pushed = v.pull_history.push(orb);
            assert(pushed + tail =~= v.pull_history + (seq![orb] + tail));
            if pushed.len() > limit {
                assert(w.pull_history == pushed.drop_first());
                lemma_last_entries_drop_first(pushed, tail, limit);
                assert(pushed.drop_first() + tail =~= w.pull_history + tail);
            } else {
                assert(pushed + tail =~= w.pull_history + tail);
            }
            assert(run_draws(v, picks).pull_history == last_entries(
                v.pull_history + drawn_orbs(v, picks),
                limit,
            ));
        } else {
            lemma_history_tracks_draws(v, rest);
            assert(drawn_orbs(v, picks) == drawn_orbs(v, rest));
        }
    }
}

/// The state after a whole sequence of purchase attempts, each a kind to
/// buy and the price asked, first attempt first.
pub open spec fn run_purchases(v: PlayerView, attempts: Seq<(Orb, u32)>) -> PlayerView
    decreases attempts.len(),
{
    if attempts.len() == 0 {
        v
    } else {
        run_purchases(purchase_applied(v, attempts[0].0, attempts[0].1), attempts.drop_first())
    }
}

/// Currency as an unbounded integer after the same attempts: a cost is
/// debited only when covered, so starting from a non-negative balance the
/// balance never goes negative.
pub open spec fn currency_after(balance: int, costs: Seq<int>) -> int
    decreases costs.len(),
{
    if costs.len() == 0 {
        balance
    } else if balance >= costs[0] {
        currency_after(balance - costs[0], costs.drop_first())
    } else {
        currency_after(balance, costs.drop_first())
    }
}

/// Over any sequence of purchase attempts the currency tracks the exact
/// integer fold of guarded debits — nothing wraps around — and that fold
/// never goes negative.
pub proof fn lemma_purchases_keep_currency_non_negative(v: PlayerView, attempts: Seq<(Orb, u32)>)
    ensures
        run_purchases(v, attempts).cheddah == currency_after(
            v.cheddah as int,
            attempts.map_values(|attempt: (Orb, u32)| attempt.1 as int),
        ),
        run_purchases(v, attempts).cheddah >= 0,
    decreases attempts.len(),
{
    if attempts.len() > 0 {
        let next = purchase_applied(v, attempts[0].0, attempts[0].1);
        lemma_purchases_keep_currency_non_negative(next, attempts.drop_first());
        assert(attempts.drop_first().map_values(|attempt: (Orb, u32)| attempt.1 as int)
            =~= attempts.map_values(|attempt: (Orb, u32)| attempt.1 as int).drop_first());
    }
}

/// A state that has reached its milestone never signals a loss, whatever
/// its health: the milestone check precedes the health check.
pub proof fn lemma_win_precedes_loss(v: PlayerView)
    requires
        v.points >= v.milestone,
    ensures
        outcome_of(v) != Outcome::GameLost,
        v.level >= MAX_LEVEL ==> outcome_of(v) == Outcome::GameWon,
        v.level < MAX_LEVEL ==> outcome_of(v) == Outcome::LevelCleared,
{
}

/// Advancing composes the next pool from the base set plus every orb ever
/// purchased, kind for kind, and neither the ledger nor the currency is
/// consumed by advancing.
pub proof fn lemma_advance_pool_composition(v: PlayerView, orb: Orb)
    requires
        v.wf(),
        v.rewards_settled,
        v.level < MAX_LEVEL,
    ensures
        count_orbs(advanced(v).orbs, orb) == BASE_ORBS_PER_KIND + count_orbs(
            v.purchased_orbs,
            orb,
        ),
        advanced(v).purchased_orbs == v.purchased_orbs,
        advanced(v).cheddah == v.cheddah,
{
    lemma_base_orb_counts(orb);
    lemma_count_orbs_add(base_orbs(), v.purchased_orbs, orb);
}

/// No step of a run ever consumes the purchase ledger: draws, settlement
/// and advancing all carry it over unchanged.
pub proof fn lemma_purchases_persist(v: PlayerView, i: int)
    ensures
        draw_step(v, i).purchased_orbs == v.purchased_orbs,
        level_rewards_settled(v).purchased_orbs == v.purchased_orbs,
        advanced(v).purchased_orbs == v.purchased_orbs,
{
}

/// Settling the same clear twice credits the currency only once.
pub proof fn lemma_settle_idempotent(v: PlayerView)
    ensures
        level_rewards_settled(level_rewards_settled(v)) == level_rewards_settled(v),
{
    assert(level_rewards_settled(level_rewards_settled(v)) =~= level_rewards_settled(v));
}

} // verus!

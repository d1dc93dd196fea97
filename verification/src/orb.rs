//! Orbs: the drawable tokens of the game, and counting over sequences of them.

use vstd::prelude::*;

use crate::BASE_ORBS_PER_KIND;

verus! {

/// A drawable token. Drawing one heals, scores, or damages the player.
///
/// Orbs are compared by kind alone; the effect magnitudes are the crate-level
/// constants `HEALTH_ORB_GAIN`, `POINT_ORB_VALUE` and `BOMB_ORB_DAMAGE`.
#[derive(Clone, Copy, Debug, PartialEq, Eq, Structural)]
pub enum Orb {
    Health,
    Point,
    Bomb,
}

/// How many occurrences of `orb` the sequence `s` holds.
pub open spec fn count_orbs(s: Seq<Orb>, orb: Orb) -> nat
    decreases s.len(),
{
    if s.len() == 0 {
        0
    } else {
        count_orbs(s.drop_last(), orb) + if s.last() == orb {
            1nat
        } else {
            0nat
        }
    }
}

/// Counting distributes over concatenation.
pub proof fn lemma_count_orbs_add(a: Seq<Orb>, b: Seq<Orb>, orb: Orb)
    ensures
        count_orbs(a + b, orb) == count_orbs(a, orb) + count_orbs(b, orb),
    decreases b.len(),
{
    if b.len() == 0 {
        assert(a + b =~= a);
    } else {
        assert((a + b).drop_last() =~= a + b.drop_last());
        lemma_count_orbs_add(a, b.drop_last(), orb);
    }
}

/// A positive count means the sequence contains the orb, and conversely.
pub proof fn lemma_count_orbs_contains(s: Seq<Orb>, orb: Orb)
    ensures
        count_orbs(s, orb) > 0 <==> s.contains(orb),
    decreases s.len(),
{
    if s.len() > 0 {
        lemma_count_orbs_contains(s.drop_last(), orb);
        if s.last() == orb {
            assert(s[s.len() - 1] == orb);
        } else if count_orbs(s.drop_last(), orb) > 0 {
            let j = choose|j: int| 0 <= j < s.drop_last().len() && s.drop_last()[j] == orb;
            assert(s[j] == orb);
        } else if s.contains(orb) {
            let j = choose|j: int| 0 <= j < s.len() && s[j] == orb;
            assert(s.drop_last()[j] == orb);
        }
    }
}

/// `n` rounds of the base composition: one health, one point, one bomb orb each.
pub open spec fn base_orb_rounds(n: nat) -> Seq<Orb>
    decreases n,
{
    if n == 0 {
        Seq::empty()
    } else {
        base_orb_rounds((n - 1) as nat) + seq![Orb::Health, Orb::Point, Orb::Bomb]
    }
}

/// The base pool every level starts from: `BASE_ORBS_PER_KIND` of each kind.
pub open spec fn base_orbs() -> Seq<Orb> {
    base_orb_rounds(BASE_ORBS_PER_KIND as nat)
}

/// The base pool holds `BASE_ORBS_PER_KIND` orbs of every kind.
pub proof fn lemma_base_orb_counts(orb: Orb)
    ensures
        count_orbs(base_orbs(), orb) == BASE_ORBS_PER_KIND,
        base_orbs().len() == 3 * BASE_ORBS_PER_KIND,
{
    lemma_base_orb_rounds_counts(BASE_ORBS_PER_KIND as nat, orb);
}

proof fn lemma_base_orb_rounds_counts(n: nat, orb: Orb)
    ensures
        count_orbs(base_orb_rounds(n), orb) == n,
        base_orb_rounds(n).len() == 3 * n,
    decreases n,
{
    if n > 0 {
        lemma_base_orb_rounds_counts((n - 1) as nat, orb);
        let round = seq![Orb::Health, Orb::Point, Orb::Bomb];
        assert(count_orbs(round, orb) == 1) by {
            reveal_with_fuel(count_orbs, 5);
            assert(round.drop_last() =~= seq![Orb::Health, Orb::Point]);
            assert(round.drop_last().drop_last() =~= seq![Orb::Health]);
            assert(round.drop_last().drop_last().drop_last() =~= Seq::<Orb>::empty());
        }
        lemma_count_orbs_add(base_orb_rounds((n - 1) as nat), round, orb);
    }
}

/// How many occurrences of `orb` the vector holds.
pub fn count_of(orbs: &Vec<Orb>, orb: Orb) -> (count: usize)
    ensures
        count == count_orbs(orbs@, orb),
{
    proof {
        assert(orbs@.take(0) =~= Seq::<Orb>::empty());
    }
    let mut count: usize = 0;
    let mut i: usize = 0;
    while i < orbs.len()
        invariant
            i <= orbs.len(),
            count <= i,
            count == count_orbs(orbs@.take(i as int), orb),
        decreases orbs.len() - i,
    {
        if orbs[i] == orb {
            count = count + 1;
        }
        i = i + 1;
        proof {
            assert(orbs@.take(i as int).drop_last() =~= orbs@.take(i - 1));
            assert(orbs@.take(i as int).last() == orbs@[i - 1]);
        }
    }
    proof {
        assert(orbs@.take(orbs@.len() as int) =~= orbs@);
    }
    count
}

impl Orb {
    /// The base pool as a vector, in round order: health, point, bomb, five times.
    pub fn create_base_set() -> (orbs: Vec<Orb>)
        ensures
            orbs@ == base_orbs(),
    {
        let mut orbs: Vec<Orb> = Vec::new();
        let mut i: u32 = 0;
        while i < BASE_ORBS_PER_KIND
            invariant
                i <= BASE_ORBS_PER_KIND,
                orbs@ == base_orb_rounds(i as nat),
            decreases BASE_ORBS_PER_KIND - i,
        {
            let ghost before = orbs@;
            orbs.push(Orb::Health);
            orbs.push(Orb::Point);
            orbs.push(Orb::Bomb);
            i = i + 1;
            proof {
                assert(orbs@ =~= before + seq![Orb::Health, Orb::Point, Orb::Bomb]);
            }
        }
        assert(orbs@ =~= base_orbs());
        orbs
    }

    /// A short label for display: the kind's initial and its signed magnitude.
    pub open spec fn display_view(self) -> Seq<char> {
        match self {
            Orb::Health => "H(+1)"@,
            Orb::Point => "P(+5)"@,
            Orb::Bomb => "B(-2)"@,
        }
    }

    /// The display label as an owned string.
    pub fn display_text(&self) -> (text: String)
        ensures
            text@ == self.display_view(),
    {
        match self {
            Orb::Health => "H(+1)".to_owned(),
            Orb::Point => "P(+5)".to_owned(),
            Orb::Bomb => "B(-2)".to_owned(),
        }
    }
}

} // verus!

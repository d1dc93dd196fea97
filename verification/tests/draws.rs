use glitchbombv2::orb::Orb;
use glitchbombv2::player::PlayerGameState;
use glitchbombv2::view::Outcome;

fn pool_of(orbs: &[Orb]) -> Vec<Orb> {
    orbs.to_vec()
}

fn position_of(player: &PlayerGameState, orb: Orb) -> usize {
    player
        .orbs()
        .iter()
        .position(|&o| o == orb)
        .expect("orb kind not in pool")
}

#[test]
fn point_draw_scores() {
    let mut p = PlayerGameState::new_for_level(1);
    p.set_orbs(pool_of(&[Orb::Point, Orb::Bomb]));
    let orb = p.pull_orb_at(0);
    assert_eq!(orb, Orb::Point);
    assert_eq!(p.points(), 5);
    assert_eq!(p.health(), 5);
    assert_eq!(p.total_orb_count(), 1);
}

#[test]
fn bomb_draw_damages() {
    let mut p = PlayerGameState::new_for_level(1);
    p.set_orbs(pool_of(&[Orb::Bomb]));
    let orb = p.pull_orb_at(0);
    assert_eq!(orb, Orb::Bomb);
    assert_eq!(p.health(), 3);
    assert_eq!(p.points(), 0);
    assert_eq!(p.total_orb_count(), 0);
}

#[test]
fn bomb_draw_saturates_at_zero_health() {
    let mut p = PlayerGameState::new_for_level(1);
    p.set_health(1);
    p.set_orbs(pool_of(&[Orb::Bomb]));
    p.pull_orb_at(0);
    assert_eq!(p.health(), 0);
}

#[test]
fn health_draw_heals_by_one() {
    let mut p = PlayerGameState::new_for_level(1);
    p.set_health(2);
    p.set_orbs(pool_of(&[Orb::Health]));
    let orb = p.pull_orb_at(0);
    assert_eq!(orb, Orb::Health);
    assert_eq!(p.health(), 3);
}

#[test]
fn health_draw_at_max_has_no_effect() {
    let mut p = PlayerGameState::new_for_level(1);
    assert!(p.is_at_max_health());
    p.set_orbs(pool_of(&[Orb::Health]));
    p.pull_orb_at(0);
    assert_eq!(p.health(), 5);
}

#[test]
fn health_never_exceeds_cap_over_any_draw_sequence() {
    let mut p = PlayerGameState::new_for_level(1);
    p.set_health(0);
    p.set_orbs(pool_of(&[Orb::Health; 10]));
    for draws in 1..=10u32 {
        p.pull_orb_at(0);
        assert!(p.health() <= 5);
        assert_eq!(p.health(), draws.min(5));
    }
}

#[test]
fn pull_from_empty_pool_draws_nothing() {
    let mut p = PlayerGameState::new_for_level(1);
    p.set_orbs(Vec::new());
    assert_eq!(p.pull_orb(), None);
    assert_eq!(p.health(), 5);
    assert_eq!(p.points(), 0);
    assert_eq!(p.total_orb_count(), 0);
    assert_eq!(p.pull_history().len(), 0);
}

#[test]
fn pull_removes_exactly_one_pool_orb() {
    let mut p = PlayerGameState::new_for_level(1);
    let before = p.total_orb_count();
    let orb = p.pull_orb().expect("pool is not empty");
    assert_eq!(p.total_orb_count(), before - 1);
    assert!(matches!(orb, Orb::Health | Orb::Point | Orb::Bomb));
}

#[test]
fn pull_from_single_orb_pool_returns_that_orb() {
    let mut p = PlayerGameState::new_for_level(1);
    p.set_orbs(pool_of(&[Orb::Point]));
    assert_eq!(p.pull_orb(), Some(Orb::Point));
    assert_eq!(p.total_orb_count(), 0);
    assert_eq!(p.points(), 5);
}

#[test]
fn history_keeps_the_last_five_draws_most_recent_last() {
    let mut p = PlayerGameState::new_for_level(1);
    let script = [
        Orb::Point,
        Orb::Bomb,
        Orb::Health,
        Orb::Point,
        Orb::Point,
        Orb::Bomb,
        Orb::Health,
        Orb::Point,
    ];
    p.set_orbs(pool_of(&script));
    let mut drawn: Vec<Orb> = Vec::new();
    for draws in 1..=script.len() {
        drawn.push(p.pull_orb_at(0));
        assert_eq!(p.pull_history().len(), draws.min(5));
        let expected: Vec<Orb> = drawn[drawn.len().saturating_sub(5)..].to_vec();
        assert_eq!(p.pull_history(), &expected);
    }
    assert_eq!(drawn, script.to_vec());
}

#[test]
fn level_one_scenario_three_point_draws_clear_the_level() {
    let mut p = PlayerGameState::new_for_level(1);
    assert_eq!(p.health(), 5);
    assert_eq!(p.points(), 0);
    assert_eq!(p.milestone(), 15);
    assert_eq!(p.health_orb_count(), 5);
    assert_eq!(p.point_orb_count(), 5);
    assert_eq!(p.bomb_orb_count(), 5);
    for _ in 0..3 {
        let pos = position_of(&p, Orb::Point);
        let orb = p.pull_orb_at(pos);
        assert_eq!(orb, Orb::Point);
    }
    assert_eq!(p.points(), 15);
    assert_eq!(p.evaluate_outcome(), Outcome::LevelCleared);
}

#[test]
fn draw_frequencies_follow_pool_composition() {
    // Composition 2 health, 3 point, 5 bomb; the pool is reset before every
    // trial, so each kind's draw frequency must approach its proportion.
    let template = {
        let mut v = vec![Orb::Health; 2];
        v.extend(vec![Orb::Point; 3]);
        v.extend(vec![Orb::Bomb; 5]);
        v
    };
    let trials = 4000u32;
    let mut health = 0u32;
    let mut point = 0u32;
    let mut bomb = 0u32;
    let mut p = PlayerGameState::new_for_level(1);
    for _ in 0..trials {
        p.set_orbs(template.clone());
        p.set_health(5);
        p.set_points(0);
        match p.pull_orb().expect("pool is not empty") {
            Orb::Health => health += 1,
            Orb::Point => point += 1,
            Orb::Bomb => bomb += 1,
        }
    }
    assert_eq!(health + point + bomb, trials);
    let expect_health = trials / 5;
    let expect_point = trials * 3 / 10;
    let expect_bomb = trials / 2;
    let tolerance = 200;
    assert!(health.abs_diff(expect_health) < tolerance, "health draws: {health}");
    assert!(point.abs_diff(expect_point) < tolerance, "point draws: {point}");
    assert!(bomb.abs_diff(expect_bomb) < tolerance, "bomb draws: {bomb}");
}

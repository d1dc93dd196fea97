use glitchbombv2::orb::Orb;
use glitchbombv2::player::PlayerGameState;
use glitchbombv2::view::Outcome;

#[test]
fn purchase_with_enough_currency_succeeds() {
    let mut p = PlayerGameState::new_for_level(1);
    p.set_cheddah(5);
    assert!(p.can_afford_orb(2));
    assert!(p.purchase_health_orb(2));
    assert_eq!(p.cheddah(), 3);
    assert_eq!(p.purchased_orb_count(Orb::Health), 1);
    assert_eq!(p.total_purchased_orbs(), 1);
}

#[test]
fn purchase_without_enough_currency_changes_nothing() {
    let mut p = PlayerGameState::new_for_level(1);
    p.set_cheddah(1);
    assert!(!p.can_afford_orb(2));
    assert!(!p.purchase_point_orb(2));
    assert_eq!(p.cheddah(), 1);
    assert_eq!(p.total_purchased_orbs(), 0);
}

#[test]
fn purchase_attempts_never_drive_currency_negative() {
    let mut p = PlayerGameState::new_for_level(1);
    p.set_cheddah(5);
    let attempts = [2u32, 2, 2, 1, 1, 3];
    let mut expected = 5u32;
    for &cost in &attempts {
        let before_ledger = p.total_purchased_orbs();
        let bought = p.purchase_point_orb(cost);
        assert_eq!(bought, expected >= cost);
        if bought {
            expected -= cost;
        } else {
            assert_eq!(p.total_purchased_orbs(), before_ledger);
        }
        assert_eq!(p.cheddah(), expected);
    }
    assert_eq!(p.cheddah(), 0);
}

#[test]
fn settlement_credits_points_once() {
    let mut p = PlayerGameState::new_for_level(1);
    p.set_points(18);
    assert!(p.complete_level());
    assert_eq!(p.cheddah(), 18);
    assert!(!p.complete_level());
    assert_eq!(p.cheddah(), 18);
}

#[test]
fn settlement_without_a_clear_changes_nothing() {
    let mut p = PlayerGameState::new_for_level(1);
    p.set_points(14);
    assert!(!p.complete_level());
    assert_eq!(p.cheddah(), 0);
}

#[test]
fn advance_resets_the_level_and_keeps_currency() {
    let mut p = PlayerGameState::new_for_level(1);
    p.set_points(20);
    p.set_health(1);
    assert!(p.complete_level());
    assert!(p.advance_to_next_level());
    assert_eq!(p.level(), 2);
    assert_eq!(p.milestone(), 25);
    assert_eq!(p.health(), 5);
    assert_eq!(p.points(), 0);
    assert_eq!(p.cheddah(), 20);
    assert_eq!(p.pull_history().len(), 0);
    assert_eq!(p.total_orb_count(), 15);
}

#[test]
fn advance_before_settlement_is_a_no_op() {
    let mut p = PlayerGameState::new_for_level(1);
    p.set_points(20);
    assert!(!p.advance_to_next_level());
    assert_eq!(p.level(), 1);
    assert_eq!(p.points(), 20);
}

#[test]
fn advance_twice_after_one_clear_moves_only_once() {
    let mut p = PlayerGameState::new_for_level(1);
    p.set_points(20);
    assert!(p.complete_level());
    assert!(p.advance_to_next_level());
    assert!(!p.advance_to_next_level());
    assert_eq!(p.level(), 2);
}

#[test]
fn advance_at_final_level_is_a_no_op() {
    let mut p = PlayerGameState::new_for_level(5);
    assert!(p.is_final_level());
    p.set_points(60);
    assert!(p.complete_level());
    assert!(!p.advance_to_next_level());
    assert_eq!(p.level(), 5);
    assert_eq!(p.cheddah(), 60);
}

#[test]
fn purchases_persist_and_compound_across_levels() {
    let mut p = PlayerGameState::new_for_level(2);
    p.set_cheddah(4);
    assert!(p.purchase_health_orb(2));
    assert!(p.purchase_health_orb(2));
    for _ in 0..3 {
        let milestone = p.milestone();
        p.set_points(milestone);
        assert!(p.complete_level());
        assert!(p.advance_to_next_level());
    }
    assert_eq!(p.level(), 5);
    assert_eq!(p.health_orb_count(), 7);
    assert_eq!(p.point_orb_count(), 5);
    assert_eq!(p.bomb_orb_count(), 5);
    assert_eq!(p.total_orb_count(), 17);
    assert_eq!(p.purchased_orb_count(Orb::Health), 2);
}

#[test]
fn clearing_while_health_drops_to_zero_is_a_clear_not_a_loss() {
    let mut p = PlayerGameState::new_for_level(1);
    p.set_health(2);
    p.set_points(p.milestone() - 3);
    // One resolve that finishes the level while health runs out: the
    // milestone check precedes the health check.
    p.set_points(p.milestone());
    p.set_health(0);
    assert_eq!(p.evaluate_outcome(), Outcome::LevelCleared);
}

#[test]
fn outcome_signals_cover_every_case() {
    let mut p = PlayerGameState::new_for_level(1);
    assert_eq!(p.evaluate_outcome(), Outcome::InProgress);
    p.set_points(15);
    assert_eq!(p.evaluate_outcome(), Outcome::LevelCleared);
    let mut last = PlayerGameState::new_for_level(5);
    last.set_points(55);
    assert_eq!(last.evaluate_outcome(), Outcome::GameWon);
    let mut lost = PlayerGameState::new_for_level(1);
    lost.set_health(0);
    assert_eq!(lost.evaluate_outcome(), Outcome::GameLost);
    assert!(lost.is_dead());
}

#[test]
fn reset_restores_the_level_one_defaults() {
    let mut p = PlayerGameState::new_for_level(3);
    p.set_cheddah(9);
    p.set_moonrocks(2);
    assert!(p.purchase_health_orb(2));
    p.set_orbs(vec![Orb::Bomb]);
    p.pull_orb_at(0);
    p.reset_to_defaults();
    assert_eq!(p.level(), 1);
    assert_eq!(p.health(), 5);
    assert_eq!(p.points(), 0);
    assert_eq!(p.milestone(), 15);
    assert_eq!(p.cheddah(), 0);
    assert_eq!(p.moonrocks(), 0);
    assert_eq!(p.total_purchased_orbs(), 0);
    assert_eq!(p.pull_history().len(), 0);
    assert_eq!(p.total_orb_count(), 15);
}

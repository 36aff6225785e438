//! Tests of `status_effects`.

use cc_core::commands::{EntityId};
use cc_core::status_effects::{StatusEffectId, StatusEffects, StatusInstance, is_cc};

#[test]
fn is_cc_identifies_cc_effects() {
    assert!(is_cc(StatusEffectId::Disoriented));
    assert!(is_cc(StatusEffectId::Drowsed));
    assert!(is_cc(StatusEffectId::Tilted));
    assert!(!is_cc(StatusEffectId::Annoyed));
    assert!(!is_cc(StatusEffectId::Zoomies));
    assert!(!is_cc(StatusEffectId::Tagged));
    assert!(!is_cc(StatusEffectId::SpiteCarryBuff));
    assert!(!is_cc(StatusEffectId::PowerNapping));
}

#[test]
fn status_effects_default_empty() {
    let se = StatusEffects::default();
    assert!(se.effects.is_empty());
    assert_eq!(se.cc_immunity_remaining, 0);
    assert!(!se.has(StatusEffectId::Annoyed));
    assert!(!se.has_active_cc());
    assert!(!se.is_cc_immune());
}

#[test]
fn has_detects_active_effects() {
    let mut se = StatusEffects::default();
    se.effects.push(StatusInstance {
        effect: StatusEffectId::Zoomies,
        remaining_ticks: 30,
        stacks: 1,
        source: EntityId(0),
    });
    assert!(se.has(StatusEffectId::Zoomies));
    assert!(!se.has(StatusEffectId::Annoyed));
}

#[test]
fn has_ignores_expired_effects() {
    let mut se = StatusEffects::default();
    se.effects.push(StatusInstance {
        effect: StatusEffectId::Zoomies,
        remaining_ticks: 0,
        stacks: 1,
        source: EntityId(0),
    });
    assert!(!se.has(StatusEffectId::Zoomies));
}

#[test]
fn stacks_of_sums_correctly() {
    let mut se = StatusEffects::default();
    se.effects.push(StatusInstance {
        effect: StatusEffectId::Annoyed,
        remaining_ticks: 50,
        stacks: 3,
        source: EntityId(1),
    });
    se.effects.push(StatusInstance {
        effect: StatusEffectId::Annoyed,
        remaining_ticks: 30,
        stacks: 2,
        source: EntityId(2),
    });
    assert_eq!(se.stacks_of(StatusEffectId::Annoyed), 5);
    assert_eq!(se.stacks_of(StatusEffectId::Corroded), 0);
}

#[test]
fn has_active_cc_detects_cc() {
    let mut se = StatusEffects::default();
    se.effects.push(StatusInstance {
        effect: StatusEffectId::Disoriented,
        remaining_ticks: 10,
        stacks: 1,
        source: EntityId(0),
    });
    assert!(se.has_active_cc());
}

#[test]
fn cc_immunity_works() {
    let mut se = StatusEffects::default();
    assert!(!se.is_cc_immune());
    se.cc_immunity_remaining = 10;
    assert!(se.is_cc_immune());
}

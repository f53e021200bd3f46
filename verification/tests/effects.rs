use osrs_sim::effects::{
    default_effects, Condition, Effect, EffectContext, EffectRegistry, EngineState, Op, Stage, Stat,
};
use osrs_sim::Ratio;

fn melee_context() -> EffectContext {
    EffectContext {
        on_slayer_task: false,
        in_wilderness: false,
        target_attributes: vec![],
        combat: "melee".to_string(),
    }
}

fn effect(id: &str, stage: Stage, priority: i16, group: Option<&str>, condition: Condition, op: Op) -> Effect {
    Effect {
        id: id.to_string(),
        name: id.to_string(),
        stage,
        priority,
        exclusive_group: group.map(|g| g.to_string()),
        condition,
        op,
    }
}

#[test]
fn test_effect_conditions_slayer_task() {
    let effect = Effect {
        id: "test".to_string(),
        name: "Test".to_string(),
        stage: Stage::PostMaxHit,
        priority: 0,
        exclusive_group: None,
        condition: Condition {
            on_slayer_task: Some(true),
            ..Default::default()
        },
        op: Op::Multiply {
            stat: Stat::MaxHit,
            num: 7,
            den: 6,
        },
    };

    let ctx_on_task = EffectContext {
        on_slayer_task: true,
        in_wilderness: false,
        target_attributes: vec![],
        combat: "melee".to_string(),
    };

    let ctx_off_task = EffectContext {
        on_slayer_task: false,
        in_wilderness: false,
        target_attributes: vec![],
        combat: "melee".to_string(),
    };

    assert!(effect.conditions_met(&ctx_on_task));
    assert!(!effect.conditions_met(&ctx_off_task));
}

#[test]
fn test_effect_apply_multiply() {
    let mut state = EngineState {
        max_hit: 30,
        ..Default::default()
    };

    let op = Op::Multiply {
        stat: Stat::MaxHit,
        num: 7,
        den: 6,
    };

    state.apply(&op);
    assert_eq!(state.max_hit, 35); // 30 * 7/6 = 35
}

#[test]
fn test_exclusive_group() {
    let mut registry = EffectRegistry::new();

    registry.register(Effect {
        id: "effect_a".to_string(),
        name: "Effect A".to_string(),
        stage: Stage::PostMaxHit,
        priority: 10,
        exclusive_group: Some("group1".to_string()),
        condition: Condition::default(),
        op: Op::Multiply {
            stat: Stat::MaxHit,
            num: 2,
            den: 1,
        },
    });

    registry.register(Effect {
        id: "effect_b".to_string(),
        name: "Effect B".to_string(),
        stage: Stage::PostMaxHit,
        priority: 20,
        exclusive_group: Some("group1".to_string()),
        condition: Condition::default(),
        op: Op::Multiply {
            stat: Stat::MaxHit,
            num: 3,
            den: 1,
        },
    });

    let ctx = EffectContext {
        on_slayer_task: false,
        in_wilderness: false,
        target_attributes: vec![],
        combat: "melee".to_string(),
    };

    let mut state = EngineState {
        max_hit: 10,
        ..Default::default()
    };

    let applied = registry.apply_stage(Stage::PostMaxHit, &ctx, &mut state);

    // Only effect_a should apply (lower priority)
    assert_eq!(applied.len(), 1);
    assert_eq!(applied[0], "effect_a");
    assert_eq!(state.max_hit, 20); // 10 * 2 = 20, not 10 * 2 * 3 = 60
}

#[test]
fn exclusive_group_goes_to_the_lower_priority_whatever_the_registration_order() {
    let mut registry = EffectRegistry::new();
    registry.register(effect(
        "late",
        Stage::PostMaxHit,
        20,
        Some("g"),
        Condition::default(),
        Op::Multiply { stat: Stat::MaxHit, num: 3, den: 1 },
    ));
    registry.register(effect(
        "early",
        Stage::PostMaxHit,
        10,
        Some("g"),
        Condition::default(),
        Op::Multiply { stat: Stat::MaxHit, num: 2, den: 1 },
    ));
    let mut state = EngineState { max_hit: 10, ..Default::default() };
    let applied = registry.apply_stage(Stage::PostMaxHit, &melee_context(), &mut state);
    assert_eq!(applied, vec!["early".to_string()]);
    assert_eq!(state.max_hit, 20);

    let mut alone = EngineState { max_hit: 10, ..Default::default() };
    alone.apply(&Op::Multiply { stat: Stat::MaxHit, num: 2, den: 1 });
    assert_eq!(state.max_hit, alone.max_hit);
    assert_eq!(state.effective_attack, alone.effective_attack);
    assert_eq!(state.effective_strength, alone.effective_strength);
    assert_eq!(state.attack_roll, alone.attack_roll);
    assert_eq!((state.accuracy.num, state.accuracy.den), (alone.accuracy.num, alone.accuracy.den));
}

#[test]
fn exclusive_group_passes_to_the_next_effect_whose_condition_holds() {
    let mut registry = EffectRegistry::new();
    registry.register(effect(
        "on_task",
        Stage::PostMaxHit,
        10,
        Some("g"),
        Condition { on_slayer_task: Some(true), ..Default::default() },
        Op::Multiply { stat: Stat::MaxHit, num: 2, den: 1 },
    ));
    registry.register(effect(
        "always",
        Stage::PostMaxHit,
        20,
        Some("g"),
        Condition::default(),
        Op::Multiply { stat: Stat::MaxHit, num: 3, den: 1 },
    ));
    let mut state = EngineState { max_hit: 10, ..Default::default() };
    let applied = registry.apply_stage(Stage::PostMaxHit, &melee_context(), &mut state);
    assert_eq!(applied, vec!["always".to_string()]);
    assert_eq!(state.max_hit, 30);
}

#[test]
fn exclusive_group_is_not_carried_over_to_the_next_call() {
    let mut registry = EffectRegistry::new();
    registry.register(effect(
        "a",
        Stage::PostMaxHit,
        0,
        Some("g"),
        Condition::default(),
        Op::Add { stat: Stat::MaxHit, value: 1 },
    ));
    let mut state = EngineState::default();
    assert_eq!(registry.apply_stage(Stage::PostMaxHit, &melee_context(), &mut state).len(), 1);
    assert_eq!(registry.apply_stage(Stage::PostMaxHit, &melee_context(), &mut state).len(), 1);
    assert_eq!(state.max_hit, 2);
}

#[test]
fn effects_without_a_group_stack() {
    let mut registry = EffectRegistry::new();
    for id in ["a", "b", "c"] {
        registry.register(effect(
            id,
            Stage::PreRolls,
            5,
            None,
            Condition::default(),
            Op::Add { stat: Stat::AttackRoll, value: 7 },
        ));
    }
    let mut state = EngineState::default();
    let applied = registry.apply_stage(Stage::PreRolls, &melee_context(), &mut state);
    assert_eq!(applied, vec!["a".to_string(), "b".to_string(), "c".to_string()]);
    assert_eq!(state.attack_roll, 21);
}

#[test]
fn for_stage_sorts_by_priority_and_keeps_registration_order_among_equals() {
    let mut registry = EffectRegistry::new();
    let entries: [(&str, Stage, i16); 7] = [
        ("five_first", Stage::PostMaxHit, 5),
        ("other_stage", Stage::PreRolls, -100),
        ("one", Stage::PostMaxHit, 1),
        ("five_second", Stage::PostMaxHit, 5),
        ("lowest", Stage::PostMaxHit, i16::MIN),
        ("five_third", Stage::PostMaxHit, 5),
        ("highest", Stage::PostMaxHit, i16::MAX),
    ];
    for (id, stage, priority) in entries {
        registry.register(effect(
            id,
            stage,
            priority,
            None,
            Condition::default(),
            Op::Add { stat: Stat::MaxHit, value: 0 },
        ));
    }
    let ids: Vec<&str> = registry.for_stage(Stage::PostMaxHit).iter().map(|e| e.id.as_str()).collect();
    assert_eq!(ids, vec!["lowest", "one", "five_first", "five_second", "five_third", "highest"]);
    assert_eq!(registry.stage_indices(Stage::PostMaxHit), vec![4, 2, 0, 3, 5, 6]);
    assert_eq!(registry.stage_indices(Stage::PreRolls), vec![1]);
    assert!(registry.for_stage(Stage::PostAccuracy).is_empty());
}

#[test]
fn order_of_application_matters_and_follows_priority() {
    // (10 + 5) * 2 = 30, not 10 * 2 + 5 = 25
    let mut registry = EffectRegistry::new();
    registry.register(effect(
        "double",
        Stage::PostMaxHit,
        2,
        None,
        Condition::default(),
        Op::Multiply { stat: Stat::MaxHit, num: 2, den: 1 },
    ));
    registry.register(effect(
        "plus_five",
        Stage::PostMaxHit,
        1,
        None,
        Condition::default(),
        Op::Add { stat: Stat::MaxHit, value: 5 },
    ));
    let mut state = EngineState { max_hit: 10, ..Default::default() };
    let applied = registry.apply_stage(Stage::PostMaxHit, &melee_context(), &mut state);
    assert_eq!(applied, vec!["plus_five".to_string(), "double".to_string()]);
    assert_eq!(state.max_hit, 30);
}

#[test]
fn register_appends_and_accepts_duplicate_ids() {
    let mut registry = EffectRegistry::new();
    assert!(registry.effects.is_empty());
    for _ in 0..2 {
        registry.register(effect(
            "same",
            Stage::PreRolls,
            0,
            None,
            Condition::default(),
            Op::Add { stat: Stat::AttackRoll, value: 1 },
        ));
    }
    assert_eq!(registry.effects.len(), 2);
    assert_eq!(registry.effects[1].id, "same");
}

#[test]
fn a_condition_that_asks_for_nothing_always_holds() {
    let e = effect(
        "e",
        Stage::PreRolls,
        0,
        None,
        Condition::default(),
        Op::Add { stat: Stat::MaxHit, value: 0 },
    );
    for on_task in [false, true] {
        for wilderness in [false, true] {
            let ctx = EffectContext {
                on_slayer_task: on_task,
                in_wilderness: wilderness,
                target_attributes: vec!["undead".to_string()],
                combat: "magic".to_string(),
            };
            assert!(e.conditions_met(&ctx));
        }
    }
}

fn full_condition() -> Condition {
    Condition {
        on_slayer_task: Some(true),
        in_wilderness: Some(false),
        target_attributes: vec!["undead".to_string(), "demon".to_string()],
        combat: Some("Melee".to_string()),
    }
}

fn matching_context() -> EffectContext {
    EffectContext {
        on_slayer_task: true,
        in_wilderness: false,
        target_attributes: vec!["fiery".to_string(), "demon".to_string()],
        combat: "MELEE".to_string(),
    }
}

#[test]
fn each_single_mismatch_fails_the_condition() {
    let e = effect(
        "e",
        Stage::PreRolls,
        0,
        None,
        full_condition(),
        Op::Add { stat: Stat::MaxHit, value: 0 },
    );
    assert!(e.conditions_met(&matching_context()));

    let mut ctx = matching_context();
    ctx.on_slayer_task = false;
    assert!(!e.conditions_met(&ctx));

    let mut ctx = matching_context();
    ctx.in_wilderness = true;
    assert!(!e.conditions_met(&ctx));

    let mut ctx = matching_context();
    ctx.target_attributes = vec!["fiery".to_string()];
    assert!(!e.conditions_met(&ctx));

    let mut ctx = matching_context();
    ctx.target_attributes = vec![];
    assert!(!e.conditions_met(&ctx));

    let mut ctx = matching_context();
    ctx.combat = "ranged".to_string();
    assert!(!e.conditions_met(&ctx));
}

#[test]
fn attributes_match_letter_for_letter_and_combat_without_regard_to_case() {
    let e = effect(
        "e",
        Stage::PreRolls,
        0,
        None,
        Condition {
            target_attributes: vec!["undead".to_string()],
            combat: Some("melee".to_string()),
            ..Default::default()
        },
        Op::Add { stat: Stat::MaxHit, value: 0 },
    );
    let mut ctx = melee_context();
    ctx.target_attributes = vec!["Undead".to_string()];
    assert!(!e.conditions_met(&ctx));
    ctx.target_attributes = vec!["undead".to_string()];
    assert!(e.conditions_met(&ctx));
    ctx.combat = "MeLeE".to_string();
    assert!(e.conditions_met(&ctx));
    ctx.combat = "melee ".to_string();
    assert!(!e.conditions_met(&ctx));
}

#[test]
fn multiply_rounds_toward_zero() {
    let mut state = EngineState {
        effective_attack: 107,
        effective_strength: -107,
        max_hit: 25,
        attack_roll: 15840,
        ..Default::default()
    };
    state.apply(&Op::Multiply { stat: Stat::EffectiveAttack, num: 11, den: 10 });
    assert_eq!(state.effective_attack, 117); // 117.7
    state.apply(&Op::Multiply { stat: Stat::EffectiveStrength, num: 11, den: 10 });
    assert_eq!(state.effective_strength, -117); // -117.7
    state.apply(&Op::Multiply { stat: Stat::MaxHit, num: 6, den: 5 });
    assert_eq!(state.max_hit, 30);
    state.apply(&Op::Multiply { stat: Stat::AttackRoll, num: 1, den: -7 });
    assert_eq!(state.attack_roll, -2262); // -2262.86
}

#[test]
fn add_changes_one_register() {
    let mut state = EngineState::default();
    state.apply(&Op::Add { stat: Stat::EffectiveAttack, value: 1 });
    state.apply(&Op::Add { stat: Stat::EffectiveStrength, value: -2 });
    state.apply(&Op::Add { stat: Stat::MaxHit, value: 3 });
    state.apply(&Op::Add { stat: Stat::AttackRoll, value: -4 });
    assert_eq!(
        (state.effective_attack, state.effective_strength, state.max_hit, state.attack_roll),
        (1, -2, 3, -4)
    );
    assert_eq!((state.accuracy.num, state.accuracy.den), (0, 1));
}

#[test]
fn accuracy_is_changed_as_an_exact_fraction() {
    let mut state = EngineState { accuracy: Ratio::new(1, 4), ..Default::default() };
    state.apply(&Op::Multiply { stat: Stat::Accuracy, num: 7, den: 6 });
    assert_eq!((state.accuracy.num, state.accuracy.den), (7, 24));
    state.apply(&Op::Add { stat: Stat::Accuracy, value: 2 });
    assert_eq!((state.accuracy.num, state.accuracy.den), (55, 24));
    state.apply(&Op::Multiply { stat: Stat::Accuracy, num: 1, den: 0 });
    assert!(!state.accuracy.is_defined());
    assert_eq!(state.max_hit, 0);
}

#[test]
fn default_state_is_all_zero() {
    let state = EngineState::default();
    assert_eq!(
        (state.effective_attack, state.effective_strength, state.max_hit, state.attack_roll),
        (0, 0, 0, 0)
    );
    assert_eq!((state.accuracy.num, state.accuracy.den), (0, 1));
}

#[test]
fn built_in_effects() {
    let registry = default_effects();
    let summary: Vec<(&str, &str, Stage, i16, Option<&str>)> = registry
        .effects
        .iter()
        .map(|e| (e.id.as_str(), e.name.as_str(), e.stage, e.priority, e.exclusive_group.as_deref()))
        .collect();
    assert_eq!(
        summary,
        vec![
            ("slayer_helm_melee", "Slayer helm (i) - Melee", Stage::PostMaxHit, 50, Some("slayer_salve")),
            ("salve_ei_melee", "Salve amulet (ei) - Melee", Stage::PostMaxHit, 50, Some("slayer_salve")),
            ("void_melee_str", "Void Knight - Melee Strength", Stage::PostEffectiveLevel, 100, None),
            ("void_melee_atk", "Void Knight - Melee Attack", Stage::PostEffectiveLevel, 100, None),
        ]
    );
    let helm = &registry.effects[0];
    assert_eq!(helm.condition.on_slayer_task, Some(true));
    assert_eq!(helm.condition.in_wilderness, None);
    assert!(helm.condition.target_attributes.is_empty());
    assert_eq!(helm.condition.combat.as_deref(), Some("melee"));
    assert!(matches!(helm.op, Op::Multiply { stat: Stat::MaxHit, num: 7, den: 6 }));
    let salve = &registry.effects[1];
    assert_eq!(salve.condition.on_slayer_task, None);
    assert_eq!(salve.condition.target_attributes, vec!["undead".to_string()]);
    assert!(matches!(salve.op, Op::Multiply { stat: Stat::MaxHit, num: 6, den: 5 }));
    assert!(matches!(
        registry.effects[2].op,
        Op::Multiply { stat: Stat::EffectiveStrength, num: 11, den: 10 }
    ));
    assert!(matches!(
        registry.effects[3].op,
        Op::Multiply { stat: Stat::EffectiveAttack, num: 11, den: 10 }
    ));
}

#[test]
fn built_in_helm_and_salve_exclude_each_other() {
    let registry = default_effects();
    let ctx = EffectContext {
        on_slayer_task: true,
        in_wilderness: false,
        target_attributes: vec!["undead".to_string()],
        combat: "melee".to_string(),
    };
    let mut state = EngineState { max_hit: 30, ..Default::default() };
    let applied = registry.apply_stage(Stage::PostMaxHit, &ctx, &mut state);
    assert_eq!(applied, vec!["slayer_helm_melee".to_string()]);
    assert_eq!(state.max_hit, 35);

    let off_task = EffectContext { on_slayer_task: false, ..ctx };
    let mut state = EngineState { max_hit: 30, ..Default::default() };
    let applied = registry.apply_stage(Stage::PostMaxHit, &off_task, &mut state);
    assert_eq!(applied, vec!["salve_ei_melee".to_string()]);
    assert_eq!(state.max_hit, 36);
}

#[test]
fn built_in_void_applies_to_both_levels() {
    let registry = default_effects();
    let mut state = EngineState { effective_attack: 110, effective_strength: 107, ..Default::default() };
    let applied = registry.apply_stage(Stage::PostEffectiveLevel, &melee_context(), &mut state);
    assert_eq!(applied, vec!["void_melee_str".to_string(), "void_melee_atk".to_string()]);
    assert_eq!((state.effective_attack, state.effective_strength), (121, 117));
}

#[test]
fn try_apply_leaves_the_registers_where_it_cannot_apply() {
    let mut state = EngineState {
        effective_attack: 7,
        effective_strength: i32::MAX,
        max_hit: i32::MIN,
        attack_roll: 65536,
        accuracy: Ratio::new(i128::MAX, 3),
    };
    let refused = [
        Op::Multiply { stat: Stat::EffectiveAttack, num: 1, den: 0 },
        Op::Multiply { stat: Stat::EffectiveAttack, num: i32::MAX, den: 6 },
        Op::Add { stat: Stat::EffectiveStrength, value: 1 },
        Op::Add { stat: Stat::MaxHit, value: -1 },
        Op::Multiply { stat: Stat::MaxHit, num: -1, den: 1 },
        Op::Multiply { stat: Stat::AttackRoll, num: 65536, den: 2 },
        Op::Multiply { stat: Stat::Accuracy, num: 2, den: 1 },
        Op::Add { stat: Stat::Accuracy, value: 1 },
    ];
    for op in &refused {
        assert!(!state.admits(op), "{op:?}");
        assert!(!state.try_apply(op), "{op:?}");
        assert_eq!(
            (state.effective_attack, state.effective_strength, state.max_hit, state.attack_roll),
            (7, i32::MAX, i32::MIN, 65536)
        );
        assert_eq!((state.accuracy.num, state.accuracy.den), (i128::MAX, 3));
    }
    let accepted = [
        (Op::Multiply { stat: Stat::EffectiveAttack, num: i32::MAX, den: 7 }, (i32::MAX, i32::MAX, i32::MIN, 65536)),
        (Op::Add { stat: Stat::EffectiveStrength, value: -1 }, (i32::MAX, i32::MAX - 1, i32::MIN, 65536)),
        (Op::Multiply { stat: Stat::MaxHit, num: 1, den: -2 }, (i32::MAX, i32::MAX - 1, 1 << 30, 65536)),
        (Op::Multiply { stat: Stat::AttackRoll, num: 32767, den: 1 }, (i32::MAX, i32::MAX - 1, 1 << 30, 32767 << 16)),
    ];
    for (op, expected) in &accepted {
        assert!(state.admits(op), "{op:?}");
        assert!(state.try_apply(op), "{op:?}");
        assert_eq!(
            (state.effective_attack, state.effective_strength, state.max_hit, state.attack_roll),
            *expected
        );
    }
    assert!(state.try_apply(&Op::Add { stat: Stat::Accuracy, value: -1 }));
    assert_eq!((state.accuracy.num, state.accuracy.den), (i128::MAX - 3, 3));
    assert!(state.try_apply(&Op::Multiply { stat: Stat::Accuracy, num: 0, den: 0 }));
    assert_eq!((state.accuracy.num, state.accuracy.den), (0, 0));
}

#[test]
fn try_apply_stage_gives_the_registers_back_where_it_stops() {
    let mut registry = EffectRegistry::new();
    registry.register(effect(
        "first",
        Stage::PostMaxHit,
        1,
        None,
        Condition::default(),
        Op::Add { stat: Stat::MaxHit, value: 5 },
    ));
    registry.register(effect(
        "second",
        Stage::PostMaxHit,
        2,
        None,
        Condition { on_slayer_task: Some(true), ..Default::default() },
        Op::Multiply { stat: Stat::MaxHit, num: 1, den: 0 },
    ));
    let mut on_task = melee_context();
    on_task.on_slayer_task = true;
    let mut state = EngineState { max_hit: 10, ..Default::default() };
    assert!(registry.try_apply_stage(Stage::PostMaxHit, &on_task, &mut state).is_none());
    assert_eq!(state.max_hit, 10);
    let applied = registry.try_apply_stage(Stage::PostMaxHit, &melee_context(), &mut state);
    assert_eq!(applied, Some(vec!["first".to_string()]));
    assert_eq!(state.max_hit, 15);
    let applied = registry.try_apply_stage(Stage::PreRolls, &on_task, &mut state);
    assert_eq!(applied, Some(vec![]));
    assert_eq!(state.max_hit, 15);
}

#[test]
fn condition_is_judged_on_the_folded_styles_it_is_given() {
    let condition = full_condition();
    let ctx = matching_context();
    let melee = "melee".to_string();
    assert!(condition.met_folded(&ctx, &Some(melee.clone()), &melee));
    // the styles are compared as they are given
    assert!(!condition.met_folded(&ctx, &Some("Melee".to_string()), &melee));
    assert!(!condition.met_folded(&ctx, &Some(melee.clone()), &"magic".to_string()));
    // no required style: any actual style will do
    assert!(condition.met_folded(&ctx, &None, &"magic".to_string()));
    let mut off_task = matching_context();
    off_task.on_slayer_task = false;
    assert!(!condition.met_folded(&off_task, &None, &melee));
    let mut wilderness = matching_context();
    wilderness.in_wilderness = true;
    assert!(!condition.met_folded(&wilderness, &None, &melee));
    let mut plain = matching_context();
    plain.target_attributes = vec!["tall".to_string()];
    assert!(!condition.met_folded(&plain, &None, &melee));
    assert!(Condition::default().met_folded(&plain, &None, &melee));
}

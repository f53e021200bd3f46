use osrs_sim::model::{
    DefenceBonusesPartial, TargetByIdInput, TargetCustomInput, TargetOverrides, CustomTarget,
    CustomTargetLevels, SkillsInput, BoostsInput, FlagsInput, SCHEMA_VERSION_V1,
};
use osrs_sim::{
    evaluate, evaluate_with, try_evaluate, AttackType, BuildInput, BuildResolved, Combat,
    DefenceBonuses, EquipmentBonuses, EquipmentInput, EvalContext, EvalResult, PlayerInput,
    PlayerState, Ratio, Stance, StyleInput, TargetInput, TargetResolved,
};
use osrs_sim::effects::{
    default_effects, Condition, Effect, EffectRegistry, Op, Stat, Stage,
};
use osrs_sim::formulas::{effect_context, try_evaluate_with};

fn tags(list: &[&str]) -> Vec<String> {
    list.iter().map(|t| t.to_string()).collect()
}

#[test]
fn stance_bonuses() {
    assert_eq!(Stance::Accurate.melee_bonuses(), (3, 0));
    assert_eq!(Stance::Aggressive.melee_bonuses(), (0, 3));
    assert_eq!(Stance::Defensive.melee_bonuses(), (0, 0));
    assert_eq!(Stance::Controlled.melee_bonuses(), (1, 1));
    assert_eq!(Stance::Rapid.melee_bonuses(), (0, 0));
    assert_eq!(Stance::Longrange.melee_bonuses(), (0, 0));
}

fn player_input(version: u32) -> PlayerInput {
    PlayerInput {
        schema_version: version,
        skills: SkillsInput { attack: 1, strength: 1, defence: 1, ranged: 1, magic: 1, prayer: 1, hitpoints: 10 },
        prayers: vec![],
        boosts: BoostsInput::default(),
        flags: FlagsInput::default(),
    }
}

fn build_input(version: u32) -> BuildInput {
    BuildInput {
        schema_version: version,
        equipment: EquipmentInput {
            weapon: 1,
            head: None,
            cape: None,
            neck: None,
            ammo: None,
            body: None,
            shield: None,
            legs: None,
            hands: None,
            feet: None,
            ring: None,
        },
        style: StyleInput {
            combat: Combat::Melee,
            attack_type: AttackType::Slash,
            stance: Stance::Accurate,
            special_attack: false,
        },
    }
}

#[test]
fn documents_must_carry_the_schema_version() {
    assert_eq!(SCHEMA_VERSION_V1, 1);
    assert_eq!(player_input(1).validate_basic(), Ok(()));
    assert_eq!(player_input(2).validate_basic(), Err("player.schema_version must be 1".to_string()));
    assert_eq!(player_input(0).validate_basic(), Err("player.schema_version must be 1".to_string()));
    assert_eq!(build_input(1).validate_basic(), Ok(()));
    assert_eq!(build_input(7).validate_basic(), Err("build.schema_version must be 1".to_string()));
    let by_id = |v| TargetInput::ById(TargetByIdInput { schema_version: v, monster_id: 1, overrides: None });
    let custom = |v| {
        TargetInput::Custom(TargetCustomInput {
            schema_version: v,
            custom: CustomTarget {
                name: "x".to_string(),
                levels: CustomTargetLevels {
                    defence: 1,
                    hitpoints: 1,
                    attack: None,
                    strength: None,
                    magic: None,
                    ranged: None,
                },
                defence_bonuses: DefenceBonuses::default(),
                attributes: vec![],
            },
        })
    };
    assert_eq!(by_id(1).validate_basic(), Ok(()));
    assert_eq!(by_id(3).validate_basic(), Err("target.schema_version must be 1".to_string()));
    assert_eq!(custom(1).validate_basic(), Ok(()));
    assert_eq!(custom(u32::MAX).validate_basic(), Err("target.schema_version must be 1".to_string()));
}

#[test]
fn defaults() {
    let p = PlayerState::default();
    assert_eq!((p.attack, p.strength, p.defence, p.ranged, p.magic, p.prayer, p.hitpoints), (99, 99, 99, 99, 99, 99, 99));
    assert_eq!((p.prayer_attack_mult, p.prayer_strength_mult, p.prayer_defence_mult), ((1, 1), (1, 1), (1, 1)));
    assert_eq!((p.potion_attack_boost, p.potion_strength_boost, p.potion_defence_boost), (0, 0, 0));
    assert!(!p.on_slayer_task && !p.in_wilderness);
    let b = BuildResolved::default();
    assert_eq!(b.attack_speed, 4);
    assert_eq!((b.combat, b.attack_type, b.stance), (Combat::Melee, AttackType::Slash, Stance::Accurate));
    assert_eq!(b.bonuses.melee_strength, 0);
    assert_eq!(EquipmentBonuses::default().attack_slash, 0);
    let t = TargetResolved::default();
    assert_eq!(t.name, "Dummy");
    assert_eq!((t.hitpoints, t.defence_level), (100, 1));
    assert!(t.attributes.is_empty());
    let r = EvalResult::default();
    assert_eq!((r.max_hit, r.attack_roll, r.defence_roll, r.interval_ticks), (0, 0, 0, 4));
    assert_eq!((r.dps.num, r.dps.den, r.accuracy.num, r.accuracy.den), (0, 1, 0, 1));
    let d = Ratio::default();
    assert_eq!((d.num, d.den), (0, 1));
}

#[test]
fn attributes_are_added_once_and_keep_their_order() {
    let mut target = TargetResolved::default();
    for tag in ["undead", "demon", "undead", "fiery", "demon"] {
        target.add_attribute(&tag.to_string());
    }
    assert_eq!(target.attributes, tags(&["undead", "demon", "fiery"]));
    target.remove_attribute(&"demon".to_string());
    assert_eq!(target.attributes, tags(&["undead", "fiery"]));
    target.remove_attribute(&"absent".to_string());
    assert_eq!(target.attributes, tags(&["undead", "fiery"]));
    // what was there more than once goes altogether
    target.attributes = tags(&["a", "b", "a", "c", "a"]);
    target.remove_attribute(&"a".to_string());
    assert_eq!(target.attributes, tags(&["b", "c"]));
    assert_eq!(target.name, "Dummy");
}

#[test]
fn overrides_replace_fields_and_edit_attributes() {
    let mut target = TargetResolved {
        name: "Jad".to_string(),
        hitpoints: 250,
        defence_level: 480,
        defence_bonuses: DefenceBonuses { stab: 1, slash: 2, crush: 3, magic: 4, ranged: 5 },
        attributes: tags(&["fiery"]),
    };
    target.apply_overrides(&TargetOverrides::default());
    assert_eq!(target.defence_level, 480);
    assert_eq!(target.attributes, tags(&["fiery"]));

    target.apply_overrides(&TargetOverrides {
        attributes_add: tags(&["undead", "fiery", "tall"]),
        attributes_remove: tags(&["tall", "fiery"]),
        attack_level: Some(1),
        strength_level: Some(1),
        defence_level: Some(10),
        magic_level: Some(1),
        ranged_level: Some(1),
        hitpoints_level: Some(1),
        defence_bonuses: Some(DefenceBonusesPartial {
            stab: Some(-1),
            slash: None,
            crush: Some(0),
            magic: None,
            ranged: Some(50),
        }),
    });
    assert_eq!(target.name, "Jad");
    assert_eq!(target.hitpoints, 250);
    assert_eq!(target.defence_level, 10);
    let d = target.defence_bonuses;
    assert_eq!((d.stab, d.slash, d.crush, d.magic, d.ranged), (-1, 2, 0, 4, 50));
    assert_eq!(target.attributes, tags(&["undead"]));

    // an attribute both added and removed is gone
    target.apply_overrides(&TargetOverrides {
        attributes_add: tags(&["x"]),
        attributes_remove: tags(&["x"]),
        ..Default::default()
    });
    assert_eq!(target.attributes, tags(&["undead"]));
}

#[test]
fn partial_bonuses_replace_what_they_set() {
    let mut d = DefenceBonuses { stab: 1, slash: 2, crush: 3, magic: 4, ranged: 5 };
    d.apply_partial(&DefenceBonusesPartial::default());
    assert_eq!((d.stab, d.slash, d.crush, d.magic, d.ranged), (1, 2, 3, 4, 5));
    d.apply_partial(&DefenceBonusesPartial { magic: Some(-9), slash: Some(7), ..Default::default() });
    assert_eq!((d.stab, d.slash, d.crush, d.magic, d.ranged), (1, 7, 3, -9, 5));
}

fn value(r: Ratio) -> f64 {
    r.num as f64 / r.den as f64
}

fn build(slash: i32, strength: i32, stance: Stance) -> BuildResolved {
    let mut build = BuildResolved::default();
    build.bonuses.attack_slash = slash;
    build.bonuses.melee_strength = strength;
    build.stance = stance;
    build
}

fn target(defence_level: u16, attributes: &[&str]) -> TargetResolved {
    TargetResolved { defence_level, attributes: tags(attributes), ..Default::default() }
}

#[test]
fn evaluate_applies_the_formulas_in_turn() {
    let mut player = PlayerState::default();
    player.potion_strength_boost = 19;
    let build = build(80, 86, Stance::Accurate);
    let target = target(480, &[]);
    let ctx = EvalContext { player: &player, build: &build, target: &target };
    assert!(try_evaluate(&ctx).is_some());
    let r = evaluate(&ctx);
    assert_eq!(r.max_hit, 30);
    assert_eq!(r.attack_roll, 15840);
    assert_eq!(r.defence_roll, 31296);
    assert!((value(r.accuracy) - 0.2531).abs() < 0.001);
    assert!((value(r.dps) - 1.585).abs() < 0.01);
    assert_eq!(r.interval_ticks, 4);
}

#[test]
fn evaluate_picks_the_bonuses_of_the_attack_type() {
    let player = PlayerState::default();
    let mut build = BuildResolved::default();
    build.bonuses.attack_stab = 1;
    build.bonuses.attack_slash = 2;
    build.bonuses.attack_crush = 3;
    build.bonuses.attack_magic = 4;
    build.bonuses.attack_ranged = 5;
    let mut target = TargetResolved::default();
    target.defence_bonuses = DefenceBonuses { stab: 10, slash: 20, crush: 30, magic: 40, ranged: 50 };
    let expect = [
        (AttackType::Stab, 1, 10),
        (AttackType::Slash, 2, 20),
        (AttackType::Crush, 3, 30),
        (AttackType::Magic, 4, 40),
        (AttackType::Ranged, 5, 50),
    ];
    for (attack_type, attack, defence) in expect {
        build.attack_type = attack_type;
        let ctx = EvalContext { player: &player, build: &build, target: &target };
        let r = evaluate(&ctx);
        assert_eq!(r.attack_roll, 110 * (attack + 64));
        assert_eq!(r.defence_roll, 10 * (defence + 64));
    }
}

#[test]
fn evaluate_at_zero_ticks_gives_zero_dps() {
    let player = PlayerState::default();
    let mut build = build(80, 86, Stance::Accurate);
    build.attack_speed = 0;
    let target = target(480, &[]);
    let ctx = EvalContext { player: &player, build: &build, target: &target };
    let r = evaluate(&ctx);
    assert_eq!((r.dps.num, r.dps.den), (0, 1));
    assert_eq!(r.interval_ticks, 0);
    assert_eq!(r.max_hit, 25);
}

#[test]
fn negative_registers_wrap_in_the_result() {
    let player = PlayerState::default();
    let build = build(-65, -70, Stance::Accurate);
    let mut target = target(1, &[]);
    target.defence_bonuses.slash = -66;
    let ctx = EvalContext { player: &player, build: &build, target: &target };
    let r = try_evaluate(&ctx).unwrap();
    // attack roll 110 * -1, defence roll 10 * -2, max hit (107 * -6 + 320) / 640 = 0
    assert_eq!(r.attack_roll, (-110i32) as u32);
    assert_eq!(r.defence_roll, (-20i32) as u32);
    assert_eq!(r.max_hit, 0);
    let build = self::build(0, -80, Stance::Accurate);
    let ctx = EvalContext { player: &player, build: &build, target: &target };
    // (107 * -16 + 320) / 640 = -2.175 -> -2
    assert_eq!(evaluate(&ctx).max_hit, (-2i32) as u32);
}

#[test]
fn try_evaluate_tells_what_cannot_be_computed() {
    let build = build(80, 86, Stance::Accurate);
    let target = target(480, &[]);
    let mut player = PlayerState::default();
    player.prayer_attack_mult = (1, 0);
    let ctx = EvalContext { player: &player, build: &build, target: &target };
    assert!(try_evaluate(&ctx).is_none());

    let mut player = PlayerState::default();
    player.prayer_strength_mult = (6, 0);
    let ctx = EvalContext { player: &player, build: &build, target: &target };
    assert!(try_evaluate(&ctx).is_none());

    let mut player = PlayerState::default();
    player.potion_attack_boost = i32::MAX;
    let ctx = EvalContext { player: &player, build: &build, target: &target };
    assert!(try_evaluate(&ctx).is_none());

    let mut player = PlayerState::default();
    player.prayer_strength_mult = (i32::MAX, 1);
    let ctx = EvalContext { player: &player, build: &build, target: &target };
    assert!(try_evaluate(&ctx).is_none());

    let player = PlayerState::default();
    let huge = self::build(i32::MAX, 0, Stance::Accurate);
    let ctx = EvalContext { player: &player, build: &huge, target: &target };
    assert!(try_evaluate(&ctx).is_none());

    let huge = self::build(0, i32::MAX, Stance::Accurate);
    let ctx = EvalContext { player: &player, build: &huge, target: &target };
    // the maximum hit, 107 * (2^31 + 63) / 640, still fits
    assert_eq!(try_evaluate(&ctx).unwrap().max_hit, 359_032_433);

    let mut strong = self::target(u16::MAX, &[]);
    strong.defence_bonuses.slash = i32::MAX;
    let ctx = EvalContext { player: &player, build: &build, target: &strong };
    assert!(try_evaluate(&ctx).is_none());

    let ctx = EvalContext { player: &player, build: &build, target: &target };
    assert!(try_evaluate(&ctx).is_some());
}

#[test]
fn effect_context_reads_flags_attributes_and_style() {
    let mut player = PlayerState::default();
    player.on_slayer_task = true;
    let mut build = BuildResolved::default();
    let target = target(1, &["undead", "tall"]);
    for (combat, name) in [(Combat::Melee, "melee"), (Combat::Ranged, "ranged"), (Combat::Magic, "magic")] {
        build.combat = combat;
        let ctx = EvalContext { player: &player, build: &build, target: &target };
        let facts = effect_context(&ctx);
        assert!(facts.on_slayer_task);
        assert!(!facts.in_wilderness);
        assert_eq!(facts.target_attributes, tags(&["undead", "tall"]));
        assert_eq!(facts.combat, name);
    }
}

#[test]
fn evaluate_with_an_empty_catalog_is_evaluate() {
    let player = PlayerState::default();
    let build = build(80, 86, Stance::Aggressive);
    let target = target(480, &["undead"]);
    let ctx = EvalContext { player: &player, build: &build, target: &target };
    let plain = evaluate(&ctx);
    let with = evaluate_with(&ctx, &EffectRegistry::new());
    assert_eq!(plain.max_hit, with.max_hit);
    assert_eq!(plain.attack_roll, with.attack_roll);
    assert_eq!(plain.defence_roll, with.defence_roll);
    assert_eq!((plain.accuracy.num, plain.accuracy.den), (with.accuracy.num, with.accuracy.den));
    assert_eq!((plain.dps.num, plain.dps.den), (with.dps.num, with.dps.den));
    assert_eq!(plain.max_hit, 26);
}

#[test]
fn evaluate_with_the_built_in_effects() {
    let mut player = PlayerState::default();
    player.on_slayer_task = true;
    let build = build(80, 86, Stance::Accurate);
    let target = target(480, &["undead"]);
    let ctx = EvalContext { player: &player, build: &build, target: &target };
    let r = evaluate_with(&ctx, &default_effects());
    // void: attack 110 -> 121, strength 107 -> 117
    assert_eq!(r.attack_roll, 121 * 144);
    assert_eq!(r.defence_roll, 31296);
    assert_eq!((r.accuracy.num, r.accuracy.den), (121 * 144, 2 * 31297));
    // (117 * 150 + 320) / 640 = 27, then the helm: 27 * 7 / 6 = 31
    assert_eq!(r.max_hit, 31);
    assert_eq!((r.dps.num, r.dps.den), (5 * 121 * 144 * 31, 6 * 2 * 31297 * 4));

    player.on_slayer_task = false;
    let ctx = EvalContext { player: &player, build: &build, target: &target };
    // the salve instead: 27 * 6 / 5 = 32
    assert_eq!(evaluate_with(&ctx, &default_effects()).max_hit, 32);

    let mut ranged = build.clone();
    ranged.combat = Combat::Ranged;
    let ctx = EvalContext { player: &player, build: &ranged, target: &target };
    let r = evaluate_with(&ctx, &default_effects());
    assert_eq!(r.max_hit, 25);
    assert_eq!(r.attack_roll, 15840);
}

#[test]
fn each_checkpoint_sees_what_was_computed_before_it() {
    let add = |id: &str, stage: Stage, stat: Stat, value: i32| Effect {
        id: id.to_string(),
        name: id.to_string(),
        stage,
        priority: 0,
        exclusive_group: None,
        condition: Condition::default(),
        op: Op::Add { stat, value },
    };
    let player = PlayerState::default();
    let build = build(0, 0, Stance::Defensive);
    let target = target(1, &[]);
    let ctx = EvalContext { player: &player, build: &build, target: &target };
    // plain: levels 107 / 107, attack roll 6848, defence roll 640, max hit 11

    let mut registry = EffectRegistry::new();
    registry.register(add("levels", Stage::PostEffectiveLevel, Stat::EffectiveAttack, 1));
    let r = evaluate_with(&ctx, &registry);
    assert_eq!(r.attack_roll, 108 * 64);

    // a roll set before the rolls are computed is overwritten
    let mut registry = EffectRegistry::new();
    registry.register(add("early", Stage::PostEffectiveLevel, Stat::AttackRoll, 1000));
    assert_eq!(evaluate_with(&ctx, &registry).attack_roll, 6848);

    let mut registry = EffectRegistry::new();
    registry.register(add("rolls", Stage::PreRolls, Stat::AttackRoll, -6848 + 640));
    let r = evaluate_with(&ctx, &registry);
    assert_eq!(r.attack_roll, 640);
    assert_eq!((r.accuracy.num, r.accuracy.den), (640, 2 * 641));

    // strength changed after the rolls still counts for the maximum hit
    let mut registry = EffectRegistry::new();
    registry.register(add("strength", Stage::PreRolls, Stat::EffectiveStrength, 10));
    assert_eq!(evaluate_with(&ctx, &registry).max_hit, 12);

    // an attack roll changed after accuracy is derived leaves accuracy alone
    let mut registry = EffectRegistry::new();
    registry.register(add("late", Stage::PostMaxHit, Stat::AttackRoll, 1));
    registry.register(add("hit", Stage::PostMaxHit, Stat::MaxHit, 4));
    registry.register(Effect {
        op: Op::Multiply { stat: Stat::Accuracy, num: 1, den: 2 },
        ..add("halve", Stage::PostAccuracy, Stat::Accuracy, 0)
    });
    let r = evaluate_with(&ctx, &registry);
    assert_eq!(r.attack_roll, 6849);
    assert_eq!(r.max_hit, 15);
    // 1 - 642 / 13698 = 13056 / 13698, halved
    assert_eq!((r.accuracy.num, r.accuracy.den), (13056, 2 * 13698));
    assert_eq!((r.dps.num, r.dps.den), (5 * 13056 * 15, 6 * 2 * 13698 * 4));
}

#[test]
fn try_evaluate_with_stops_at_what_cannot_be_computed() {
    let effect = |stage: Stage, op: Op| Effect {
        id: "e".to_string(),
        name: "e".to_string(),
        stage,
        priority: 0,
        exclusive_group: None,
        condition: Condition { combat: Some("MELEE".to_string()), ..Default::default() },
        op,
    };
    let player = PlayerState::default();
    let build = build(80, 86, Stance::Accurate);
    let target = target(480, &[]);
    let ctx = EvalContext { player: &player, build: &build, target: &target };
    let cases = [
        (Stage::PostEffectiveLevel, Op::Multiply { stat: Stat::EffectiveAttack, num: 1, den: 0 }),
        (Stage::PostEffectiveLevel, Op::Add { stat: Stat::EffectiveStrength, value: i32::MAX }),
        // levels that fit, and a roll that does not
        (Stage::PostEffectiveLevel, Op::Multiply { stat: Stat::EffectiveAttack, num: 1_000_000, den: 1 }),
        (Stage::PreRolls, Op::Multiply { stat: Stat::AttackRoll, num: i32::MAX, den: 1 }),
        (Stage::PostMaxHit, Op::Multiply { stat: Stat::MaxHit, num: i32::MIN, den: 1 }),
        (Stage::PostAccuracy, Op::Add { stat: Stat::AttackRoll, value: i32::MAX }),
    ];
    for (stage, op) in cases {
        let mut registry = EffectRegistry::new();
        registry.register(effect(stage, op));
        assert!(try_evaluate_with(&ctx, &registry).is_none());
        // an effect whose condition does not hold stands in nobody's way
        let mut ranged = build.clone();
        ranged.combat = Combat::Ranged;
        let other = EvalContext { player: &player, build: &ranged, target: &target };
        assert_eq!(try_evaluate_with(&other, &registry).unwrap().max_hit, 25);
    }
    // accuracy can be driven out of the machine integers
    let mut registry = EffectRegistry::new();
    for _ in 0..5 {
        registry.register(effect(
            Stage::PostAccuracy,
            Op::Multiply { stat: Stat::Accuracy, num: i32::MAX, den: 1 },
        ));
    }
    assert!(try_evaluate_with(&ctx, &registry).is_none());
    // accuracy that is not a number is carried through
    let mut registry = EffectRegistry::new();
    registry.register(effect(Stage::PostAccuracy, Op::Multiply { stat: Stat::Accuracy, num: 1, den: 0 }));
    let r = try_evaluate_with(&ctx, &registry).unwrap();
    assert!(!r.accuracy.is_defined());
    assert!(!r.dps.is_defined());
    let with = try_evaluate_with(&ctx, &default_effects()).unwrap();
    assert_eq!(with.max_hit, evaluate_with(&ctx, &default_effects()).max_hit);
}

//! Melee combat arithmetic: effective levels, rolls, hit chance, maximum hit
//! and damage per second.
//!
//! Every quotient of integers rounds toward zero, which for the non-negative
//! quantities of the game is the floor. Hit chance and damage per second are
//! exact fractions.

use vstd::prelude::*;
use crate::effects::{
    is_stage_order, lemma_stage_order_unique, run_stage, stage_admitted, ContextView,
    EffectContext, EffectRegistry, EffectView, EngineState, Registers, Stage, StageRun,
};
use crate::model::{Combat, EvalContext, EvalResult, Outcome, PlayerState, Scenario};
use crate::ratio::{Fraction, Ratio};
use crate::text::clone_tags;

verus! {

/// The quotient of `a` by `b` rounded toward zero, for `b != 0`.
pub open spec fn trunc_div(a: int, b: int) -> int {
    if a >= 0 {
        a / b
    } else {
        -((-a) / b)
    }
}

/// `x` is representable as an `i32`.
pub open spec fn fits_i32(x: int) -> bool {
    i32::MIN <= x <= i32::MAX
}

/// For a non-negative numerator and a positive denominator, rounding toward
/// zero is the floor, and the quotient times the denominator falls short of
/// the numerator by less than the denominator.
pub proof fn lemma_trunc_div_is_floor(a: int, b: int)
    requires
        a >= 0,
        b > 0,
    ensures
        trunc_div(a, b) == a / b,
        trunc_div(a, b) * b <= a < (trunc_div(a, b) + 1) * b,
{
    assert((a / b) * b <= a < (a / b + 1) * b) by (nonlinear_arith)
        requires
            a >= 0,
            b > 0,
    ;
}

/// What rounding toward zero means: the quotient times the denominator lies
/// between zero and the numerator, and misses the numerator by less than the
/// magnitude of the denominator.
pub proof fn lemma_trunc_div_rounds_toward_zero(a: int, b: int)
    requires
        b != 0,
    ensures
        a >= 0 ==> 0 <= a - trunc_div(a, b) * b,
        a <= 0 ==> a - trunc_div(a, b) * b <= 0,
        b > 0 ==> -b < a - trunc_div(a, b) * b < b,
        b < 0 ==> b < a - trunc_div(a, b) * b < -b,
{
    if a >= 0 {
        assert(0 <= a - (a / b) * b && (b > 0 ==> a - (a / b) * b < b) && (b < 0 ==> a - (a / b) * b
            < -b)) by (nonlinear_arith)
            requires
                b != 0,
        ;
        if a == 0 {
            assert(0int / b == 0) by (nonlinear_arith)
                requires
                    b != 0,
            ;
        }
    } else {
        let m = -a;
        assert(0 <= m - (m / b) * b && (b > 0 ==> m - (m / b) * b < b) && (b < 0 ==> m - (m / b) * b
            < -b)) by (nonlinear_arith)
            requires
                b != 0,
        ;
        assert((-(m / b)) * b == -((m / b) * b)) by (nonlinear_arith);
    }
}

/// The magnitude of a quotient rounded toward zero never exceeds that of its
/// numerator.
pub proof fn lemma_trunc_div_bound(a: int, b: int)
    requires
        b != 0,
    ensures
        a >= 0 ==> -a <= trunc_div(a, b) <= a,
        a < 0 ==> a <= trunc_div(a, b) <= -a,
{
    if a >= 0 {
        assert(-a <= a / b <= a) by (nonlinear_arith)
            requires
                a >= 0,
                b != 0,
        ;
    } else {
        let m = -a;
        assert(-m <= m / b <= m) by (nonlinear_arith)
            requires
                m >= 0,
                b != 0,
        ;
    }
}

/// Quotient of two `i128` values rounded toward zero.
fn div_toward_zero(a: i128, b: i128) -> (q: i128)
    requires
        b != 0,
        a != i128::MIN,
    ensures
        q == trunc_div(a as int, b as int),
{
    proof {
        lemma_trunc_div_bound(a as int, b as int);
    }
    a / b
}

/// An effective level: the boosted base level scaled by the prayer
/// multiplier `num / den`, rounded toward zero, plus the stance bonus and
/// the constant 8.
pub open spec fn spec_effective_level(base: int, potion: int, num: int, den: int, style: int) -> int {
    trunc_div((base + potion) * num, den) + style + 8
}

/// The effective level as a wide integer, for any arguments with a non-zero
/// denominator.
fn effective_level_wide(base_level: i32, potion_boost: i32, prayer_mult: (i32, i32), style_bonus: i32) -> (level: i128)
    requires
        prayer_mult.1 != 0,
    ensures
        level == spec_effective_level(
            base_level as int,
            potion_boost as int,
            prayer_mult.0 as int,
            prayer_mult.1 as int,
            style_bonus as int,
        ),
        -0x1_0000_0000_0000_0000 <= level <= 0x1_0000_0000_0000_0000,
{
    let boosted: i128 = base_level as i128 + potion_boost as i128;
    let num: i128 = prayer_mult.0 as i128;
    assert(-0x8000_0000_0000_0000 <= boosted * num <= 0x8000_0000_0000_0000) by (nonlinear_arith)
        requires
            -0x1_0000_0000 <= boosted <= 0x1_0000_0000,
            -0x8000_0000 <= num <= 0x8000_0000,
    ;
    let scaled: i128 = boosted * num;
    proof {
        lemma_trunc_div_bound(scaled as int, prayer_mult.1 as int);
    }
    let prayed: i128 = div_toward_zero(scaled, prayer_mult.1 as i128);
    prayed + style_bonus as i128 + 8
}

/// Effective attack level for melee:
/// `floor((base + potion) * num / den) + style + 8`, where `num / den` is the
/// prayer multiplier.
pub fn effective_attack_level(
    base_level: i32,
    potion_boost: i32,
    prayer_mult: (i32, i32),
    style_bonus: i32,
) -> (level: i32)
    requires
        prayer_mult.1 != 0,
        fits_i32(
            spec_effective_level(
                base_level as int,
                potion_boost as int,
                prayer_mult.0 as int,
                prayer_mult.1 as int,
                style_bonus as int,
            ),
        ),
    ensures
        level == spec_effective_level(
            base_level as int,
            potion_boost as int,
            prayer_mult.0 as int,
            prayer_mult.1 as int,
            style_bonus as int,
        ),
{
    effective_level_wide(base_level, potion_boost, prayer_mult, style_bonus) as i32
}

/// Effective strength level for melee; the formula is that of the attack
/// level.
pub fn effective_strength_level(
    base_level: i32,
    potion_boost: i32,
    prayer_mult: (i32, i32),
    style_bonus: i32,
) -> (level: i32)
    requires
        prayer_mult.1 != 0,
        fits_i32(
            spec_effective_level(
                base_level as int,
                potion_boost as int,
                prayer_mult.0 as int,
                prayer_mult.1 as int,
                style_bonus as int,
            ),
        ),
    ensures
        level == spec_effective_level(
            base_level as int,
            potion_boost as int,
            prayer_mult.0 as int,
            prayer_mult.1 as int,
            style_bonus as int,
        ),
{
    effective_level_wide(base_level, potion_boost, prayer_mult, style_bonus) as i32
}

/// Effective defence level of a target: its defence level plus 9.
pub open spec fn spec_effective_defence(defence_level: int) -> int {
    defence_level + 9
}

/// Effective defence level of a target: its defence level plus 9.
pub fn effective_defence_level(defence_level: i32) -> (level: i32)
    requires
        fits_i32(spec_effective_defence(defence_level as int)),
    ensures
        level == spec_effective_defence(defence_level as int),
{
    defence_level + 9
}

/// A maximum roll: the effective level times the equipment bonus plus 64.
pub open spec fn spec_max_roll(effective_level: int, bonus: int) -> int {
    effective_level * (bonus + 64)
}

/// The maximum roll as a wide integer.
fn max_roll_wide(effective_level: i32, bonus: i32) -> (roll: i64)
    ensures
        roll == spec_max_roll(effective_level as int, bonus as int),
        -0x4000_0040_0000_0000 <= roll <= 0x4000_0040_0000_0000,
{
    let level: i64 = effective_level as i64;
    let factor: i64 = bonus as i64 + 64;
    assert(-0x4000_0040_0000_0000 <= level * factor <= 0x4000_0040_0000_0000) by (nonlinear_arith)
        requires
            -0x8000_0000 <= level <= 0x8000_0000,
            -0x8000_0080 <= factor <= 0x8000_0080,
    ;
    level * factor
}

/// Maximum attack roll: `effective_attack * (equipment_bonus + 64)`.
pub fn max_attack_roll(effective_attack: i32, equipment_bonus: i32) -> (roll: i32)
    requires
        fits_i32(spec_max_roll(effective_attack as int, equipment_bonus as int)),
    ensures
        roll == spec_max_roll(effective_attack as int, equipment_bonus as int),
{
    max_roll_wide(effective_attack, equipment_bonus) as i32
}

/// Maximum defence roll: `effective_defence * (defence_bonus + 64)`.
pub fn max_defence_roll(effective_defence: i32, defence_bonus: i32) -> (roll: i32)
    requires
        fits_i32(spec_max_roll(effective_defence as int, defence_bonus as int)),
    ensures
        roll == spec_max_roll(effective_defence as int, defence_bonus as int),
{
    max_roll_wide(effective_defence, defence_bonus) as i32
}

/// The chance to hit. With attack roll `A` and defence roll `D` it is
/// `1 - (D + 2) / (2 (A + 1))` when `A > D`, and `A / (2 (D + 1))` otherwise.
pub open spec fn spec_hit_chance(attack_roll: int, defence_roll: int) -> Fraction {
    if attack_roll > defence_roll {
        Fraction {
            num: 2 * (attack_roll + 1) - (defence_roll + 2),
            den: 2 * (attack_roll + 1),
        }
    } else {
        Fraction { num: attack_roll, den: 2 * (defence_roll + 1) }
    }
}

/// For rolls that are not negative the chance to hit lies in `[0, 1]`; it is
/// below one half unless the attack roll is the larger, and at least one half
/// if it is.
pub proof fn lemma_hit_chance_in_unit_interval(attack_roll: int, defence_roll: int)
    requires
        attack_roll >= 0,
        defence_roll >= 0,
    ensures
        spec_hit_chance(attack_roll, defence_roll).in_unit_interval(),
        attack_roll > defence_roll ==> 2 * spec_hit_chance(attack_roll, defence_roll).num
            >= spec_hit_chance(attack_roll, defence_roll).den,
        attack_roll <= defence_roll ==> 2 * spec_hit_chance(attack_roll, defence_roll).num
            < spec_hit_chance(attack_roll, defence_roll).den,
{
}

/// The chance that an attack with maximum roll `attack_roll` hits against a
/// maximum defence roll `defence_roll`, as an exact fraction.
pub fn hit_chance(attack_roll: i32, defence_roll: i32) -> (chance: Ratio)
    ensures
        chance@ == spec_hit_chance(attack_roll as int, defence_roll as int),
        attack_roll >= 0 && defence_roll >= 0 ==> chance@.in_unit_interval(),
{
    let a: i128 = attack_roll as i128;
    let d: i128 = defence_roll as i128;
    if attack_roll > defence_roll {
        Ratio::new(2 * (a + 1) - (d + 2), 2 * (a + 1))
    } else {
        Ratio::new(a, 2 * (d + 1))
    }
}

/// Maximum melee hit: `(effective_strength * (strength_bonus + 64) + 320) / 640`
/// rounded toward zero. Adding 320 before dividing by 640 rounds the quotient
/// to the nearest integer.
pub open spec fn spec_max_hit(effective_strength: int, strength_bonus: int) -> int {
    trunc_div(effective_strength * (strength_bonus + 64) + 320, 640)
}

/// The maximum hit as a wide integer.
fn max_hit_wide(effective_strength: i32, str_bonus: i32) -> (hit: i64)
    ensures
        hit == spec_max_hit(effective_strength as int, str_bonus as int),
{
    let scaled: i64 = max_roll_wide(effective_strength, str_bonus) + 320;
    scaled / 640
}

/// Maximum melee hit for an effective strength level and a melee strength
/// bonus.
pub fn max_hit_melee(effective_strength: i32, str_bonus: i32) -> (hit: i32)
    requires
        fits_i32(spec_max_hit(effective_strength as int, str_bonus as int)),
    ensures
        hit == spec_max_hit(effective_strength as int, str_bonus as int),
{
    max_hit_wide(effective_strength, str_bonus) as i32
}

/// Expected damage per second. An attack hits with chance `accuracy` for
/// `max_hit / 2` on average, once every `interval_ticks` ticks of 0.6
/// seconds: `accuracy * (max_hit / 2) / (interval_ticks * 3 / 5)`. An
/// interval of zero ticks gives zero.
pub open spec fn spec_dps(accuracy: Fraction, max_hit: int, interval_ticks: int) -> Fraction {
    if interval_ticks == 0 {
        Fraction { num: 0, den: 1 }
    } else {
        Fraction { num: 5 * accuracy.num * max_hit, den: 6 * accuracy.den * interval_ticks }
    }
}

/// An interval of zero ticks gives zero damage per second, whatever the
/// accuracy and the maximum hit, and zero is representable.
pub proof fn lemma_zero_interval_gives_zero(accuracy: Fraction, max_hit: int)
    ensures
        spec_dps(accuracy, max_hit, 0) == (Fraction { num: 0, den: 1 }),
        spec_dps(accuracy, max_hit, 0).representable(),
{
}

/// Expected damage per second as an exact fraction, or `None` where the
/// fraction is not representable; exactly zero when `interval_ticks` is
/// zero.
pub fn try_calculate_dps(accuracy: Ratio, max_hit: i32, interval_ticks: u8) -> (dps: Option<Ratio>)
    ensures
        dps is Some <==> spec_dps(accuracy@, max_hit as int, interval_ticks as int).representable(),
        dps matches Some(ratio) ==> ratio@ == spec_dps(
            accuracy@,
            max_hit as int,
            interval_ticks as int,
        ),
{
    if interval_ticks == 0 {
        return Some(Ratio::zero());
    }
    let hit: i128 = max_hit as i128;
    let ticks: i128 = interval_ticks as i128;
    proof {
        if spec_dps(accuracy@, max_hit as int, interval_ticks as int).representable() {
            lemma_scaled_product_fits(accuracy.num as int, hit as int, 5);
            lemma_scaled_product_fits(accuracy.den as int, ticks as int, 6);
        }
        assert(5 * accuracy.num * hit == 5 * (accuracy.num * hit)) by (nonlinear_arith);
        assert(6 * accuracy.den * ticks == 6 * (accuracy.den * ticks)) by (nonlinear_arith);
    }
    let num: i128 = match accuracy.num.checked_mul(hit) {
        Some(product) => match product.checked_mul(5) {
            Some(num) => num,
            None => {
                return None;
            },
        },
        None => {
            return None;
        },
    };
    let den: i128 = match accuracy.den.checked_mul(ticks) {
        Some(product) => match product.checked_mul(6) {
            Some(den) => den,
            None => {
                return None;
            },
        },
        None => {
            return None;
        },
    };
    Some(Ratio::new(num, den))
}

/// Expected damage per second as an exact fraction; exactly zero when
/// `interval_ticks` is zero.
pub fn calculate_dps(accuracy: Ratio, max_hit: i32, interval_ticks: u8) -> (dps: Ratio)
    requires
        spec_dps(accuracy@, max_hit as int, interval_ticks as int).representable(),
    ensures
        dps@ == spec_dps(accuracy@, max_hit as int, interval_ticks as int),
        interval_ticks == 0 ==> dps@ == (Fraction { num: 0, den: 1 }),
{
    match try_calculate_dps(accuracy, max_hit, interval_ticks) {
        Some(dps) => dps,
        None => vstd::pervasive::unreached(),
    }
}

/// If `k * (a * b)` is representable for a positive constant `k`, so is
/// `a * b`.
proof fn lemma_scaled_product_fits(a: int, b: int, k: int)
    requires
        k >= 1,
        i128::MIN <= k * a * b <= i128::MAX,
    ensures
        i128::MIN <= a * b <= i128::MAX,
        k * a * b == k * (a * b),
{
    assert(k * a * b == k * (a * b)) by (nonlinear_arith);
    let p = a * b;
    assert(i128::MIN <= p <= i128::MAX) by (nonlinear_arith)
        requires
            k >= 1,
            i128::MIN <= k * p <= i128::MAX,
    ;
}

/// The name of a combat style as conditions of effects spell it.
pub open spec fn combat_name(combat: Combat) -> Seq<char> {
    match combat {
        Combat::Melee => "melee"@,
        Combat::Ranged => "ranged"@,
        Combat::Magic => "magic"@,
    }
}

/// The value of an `i32` cast to `u32`: a negative value wraps around.
pub open spec fn spec_as_u32(x: int) -> int {
    if x >= 0 {
        x
    } else {
        x + 0x1_0000_0000
    }
}

impl Scenario {
    /// The facts against which the conditions of effects are judged: the
    /// player's flags, the target's attributes and the build's combat style.
    pub open spec fn effect_context(self) -> ContextView {
        ContextView {
            on_slayer_task: self.player.on_slayer_task,
            in_wilderness: self.player.in_wilderness,
            target_attributes: self.target.attributes,
            combat: combat_name(self.build.combat),
        }
    }

    /// The equipment's attack bonus for the build's attack type.
    pub open spec fn attack_bonus(self) -> int {
        self.build.bonuses@.attack_bonus_for(self.build.attack_type)
    }

    /// The target's defence bonus against the build's attack type.
    pub open spec fn defence_bonus(self) -> int {
        self.target.defence_bonuses.spec_defence_bonus_for(self.build.attack_type) as int
    }

    /// The registers at the start: the effective attack and strength levels
    /// from base levels, potion boosts, prayer multipliers and the stance's
    /// bonuses, and nothing else yet.
    pub open spec fn raw_levels(self) -> Registers {
        Registers {
            effective_attack: spec_effective_level(
                self.player.attack as int,
                self.player.potion_attack_boost as int,
                self.player.prayer_attack_mult.0 as int,
                self.player.prayer_attack_mult.1 as int,
                self.build.stance.spec_melee_bonuses().0,
            ),
            effective_strength: spec_effective_level(
                self.player.strength as int,
                self.player.potion_strength_boost as int,
                self.player.prayer_strength_mult.0 as int,
                self.player.prayer_strength_mult.1 as int,
                self.build.stance.spec_melee_bonuses().1,
            ),
            max_hit: 0,
            attack_roll: 0,
            accuracy: Fraction { num: 0, den: 1 },
        }
    }

    /// The registers after the checkpoint that follows the effective levels.
    pub open spec fn levels(self, effects: Seq<EffectView>) -> Registers {
        run_stage(effects, Stage::PostEffectiveLevel, self.effect_context(), self.raw_levels()).registers
    }

    /// The target's maximum defence roll.
    pub open spec fn defence_roll(self) -> int {
        spec_max_roll(spec_effective_defence(self.target.defence_level as int), self.defence_bonus())
    }

    /// The registers once the attack roll is computed from the effective
    /// attack level.
    pub open spec fn raw_rolls(self, effects: Seq<EffectView>) -> Registers {
        let levels = self.levels(effects);
        Registers { attack_roll: spec_max_roll(levels.effective_attack, self.attack_bonus()), ..levels }
    }

    /// The registers after the checkpoint that follows the rolls.
    pub open spec fn rolls(self, effects: Seq<EffectView>) -> Registers {
        run_stage(effects, Stage::PreRolls, self.effect_context(), self.raw_rolls(effects)).registers
    }

    /// The registers once accuracy is derived from the rolls and the maximum
    /// hit from the effective strength level.
    pub open spec fn raw_hit(self, effects: Seq<EffectView>) -> Registers {
        let rolls = self.rolls(effects);
        Registers {
            accuracy: spec_hit_chance(rolls.attack_roll, self.defence_roll()),
            max_hit: spec_max_hit(rolls.effective_strength, self.build.bonuses@.melee_strength),
            ..rolls
        }
    }

    /// The registers after the checkpoint that follows the maximum hit.
    pub open spec fn hit(self, effects: Seq<EffectView>) -> Registers {
        run_stage(effects, Stage::PostMaxHit, self.effect_context(), self.raw_hit(effects)).registers
    }

    /// The registers after the last checkpoint, the one that follows
    /// accuracy.
    pub open spec fn settled(self, effects: Seq<EffectView>) -> Registers {
        run_stage(effects, Stage::PostAccuracy, self.effect_context(), self.hit(effects)).registers
    }

    /// The outcome of the evaluation under a catalog of effects: damage per
    /// second from the settled accuracy and maximum hit and the build's
    /// attack interval, together with the settled registers and the defence
    /// roll.
    pub open spec fn outcome(self, effects: Seq<EffectView>) -> Outcome {
        let settled = self.settled(effects);
        Outcome {
            dps: spec_dps(settled.accuracy, settled.max_hit, self.build.attack_speed as int),
            max_hit: spec_as_u32(settled.max_hit),
            accuracy: settled.accuracy,
            attack_roll: spec_as_u32(settled.attack_roll),
            defence_roll: spec_as_u32(self.defence_roll()),
            interval_ticks: self.build.attack_speed as int,
        }
    }

    /// The evaluation can be carried out on machine integers: no prayer
    /// multiplier has a zero denominator, every register is representable
    /// where it is computed, every checkpoint's operations are admitted, and
    /// the damage per second is representable.
    pub open spec fn admissible(self, effects: Seq<EffectView>) -> bool {
        &&& self.player.prayer_attack_mult.1 != 0
        &&& self.player.prayer_strength_mult.1 != 0
        &&& self.raw_levels().representable()
        &&& stage_admitted(effects, Stage::PostEffectiveLevel, self.effect_context(), self.raw_levels())
        &&& self.raw_rolls(effects).representable()
        &&& fits_i32(self.defence_roll())
        &&& stage_admitted(effects, Stage::PreRolls, self.effect_context(), self.raw_rolls(effects))
        &&& self.raw_hit(effects).representable()
        &&& stage_admitted(effects, Stage::PostMaxHit, self.effect_context(), self.raw_hit(effects))
        &&& stage_admitted(effects, Stage::PostAccuracy, self.effect_context(), self.hit(effects))
        &&& spec_dps(
            self.settled(effects).accuracy,
            self.settled(effects).max_hit,
            self.build.attack_speed as int,
        ).representable()
    }

    /// The outcome of the evaluation without effects: the formulas applied
    /// one after the other.
    pub open spec fn plain_outcome(self) -> Outcome {
        let raw = self.raw_levels();
        let attack_roll = spec_max_roll(raw.effective_attack, self.attack_bonus());
        let accuracy = spec_hit_chance(attack_roll, self.defence_roll());
        let max_hit = spec_max_hit(raw.effective_strength, self.build.bonuses@.melee_strength);
        Outcome {
            dps: spec_dps(accuracy, max_hit, self.build.attack_speed as int),
            max_hit: spec_as_u32(max_hit),
            accuracy,
            attack_roll: spec_as_u32(attack_roll),
            defence_roll: spec_as_u32(self.defence_roll()),
            interval_ticks: self.build.attack_speed as int,
        }
    }

    /// The evaluation without effects can be carried out on machine
    /// integers: no prayer multiplier has a zero denominator, and the
    /// effective levels, the rolls and the maximum hit are representable.
    pub open spec fn plainly_admissible(self) -> bool {
        let raw = self.raw_levels();
        &&& self.player.prayer_attack_mult.1 != 0
        &&& self.player.prayer_strength_mult.1 != 0
        &&& fits_i32(raw.effective_attack)
        &&& fits_i32(raw.effective_strength)
        &&& fits_i32(spec_max_roll(raw.effective_attack, self.attack_bonus()))
        &&& fits_i32(self.defence_roll())
        &&& fits_i32(spec_max_hit(raw.effective_strength, self.build.bonuses@.melee_strength))
    }
}

/// A checkpoint of an empty catalog changes nothing and admits every
/// register.
pub proof fn lemma_empty_catalog_is_idle(stage: Stage, ctx: ContextView, registers: Registers)
    ensures
        run_stage(Seq::empty(), stage, ctx, registers) == StageRun::start(registers),
        stage_admitted(Seq::empty(), stage, ctx, registers),
{
    let none: Seq<int> = Seq::empty();
    assert(is_stage_order(Seq::<EffectView>::empty(), stage, none));
    lemma_stage_order_unique(Seq::empty(), stage, none);
}

/// Without effects an evaluation is the formulas applied one after the
/// other, and it is admissible exactly if their results are representable.
pub proof fn lemma_evaluation_without_effects(scenario: Scenario)
    ensures
        scenario.outcome(Seq::empty()) == scenario.plain_outcome(),
        scenario.admissible(Seq::empty()) <==> scenario.plainly_admissible(),
{
    let none: Seq<EffectView> = Seq::empty();
    let ctx = scenario.effect_context();
    lemma_empty_catalog_is_idle(Stage::PostEffectiveLevel, ctx, scenario.raw_levels());
    lemma_empty_catalog_is_idle(Stage::PreRolls, ctx, scenario.raw_rolls(none));
    lemma_empty_catalog_is_idle(Stage::PostMaxHit, ctx, scenario.raw_hit(none));
    lemma_empty_catalog_is_idle(Stage::PostAccuracy, ctx, scenario.hit(none));
    let raw = scenario.raw_levels();
    let attack_roll = spec_max_roll(raw.effective_attack, scenario.attack_bonus());
    let defence_roll = scenario.defence_roll();
    let max_hit = spec_max_hit(raw.effective_strength, scenario.build.bonuses@.melee_strength);
    if fits_i32(attack_roll) && fits_i32(defence_roll) && fits_i32(max_hit) {
        lemma_plain_dps_representable(attack_roll, defence_roll, max_hit, scenario.build.attack_speed as int);
    }
}

/// The damage per second that comes of rolls and a maximum hit held in
/// `i32` registers is representable.
proof fn lemma_plain_dps_representable(attack_roll: int, defence_roll: int, max_hit: int, ticks: int)
    requires
        fits_i32(attack_roll),
        fits_i32(defence_roll),
        fits_i32(max_hit),
        0 <= ticks <= 255,
    ensures
        spec_hit_chance(attack_roll, defence_roll).representable(),
        spec_dps(spec_hit_chance(attack_roll, defence_roll), max_hit, ticks).representable(),
{
    let chance = spec_hit_chance(attack_roll, defence_roll);
    assert(-0x4_0000_0000 <= chance.num <= 0x4_0000_0000);
    assert(-0x4_0000_0000 <= chance.den <= 0x4_0000_0000);
    assert(-0x4_0000_0000 * 0x8000_0000 <= chance.num * max_hit <= 0x4_0000_0000 * 0x8000_0000)
        by (nonlinear_arith)
        requires
            -0x4_0000_0000 <= chance.num <= 0x4_0000_0000,
            -0x8000_0000 <= max_hit <= 0x8000_0000,
    ;
    assert(-0x4_0000_0000 * 0x100 <= chance.den * ticks <= 0x4_0000_0000 * 0x100) by (nonlinear_arith)
        requires
            -0x4_0000_0000 <= chance.den <= 0x4_0000_0000,
            0 <= ticks <= 0x100,
    ;
    assert(5 * chance.num * max_hit == 5 * (chance.num * max_hit)) by (nonlinear_arith);
    assert(6 * chance.den * ticks == 6 * (chance.den * ticks)) by (nonlinear_arith);
}

/// Without effects, rolls that are not negative give an accuracy in
/// `[0, 1]`.
pub proof fn lemma_plain_accuracy_in_unit_interval(scenario: Scenario)
    requires
        spec_max_roll(scenario.raw_levels().effective_attack, scenario.attack_bonus()) >= 0,
        scenario.defence_roll() >= 0,
    ensures
        scenario.plain_outcome().accuracy.in_unit_interval(),
{
}

/// Without effects, what boosts strength changes damage only: two scenarios
/// that differ in nothing but the strength potion and the strength prayer
/// have the same accuracy and the same rolls.
pub proof fn lemma_strength_boost_leaves_accuracy(a: Scenario, b: Scenario)
    requires
        b == (Scenario {
            player: PlayerState {
                potion_strength_boost: b.player.potion_strength_boost,
                prayer_strength_mult: b.player.prayer_strength_mult,
                ..a.player
            },
            ..a
        }),
    ensures
        a.plain_outcome().accuracy == b.plain_outcome().accuracy,
        a.plain_outcome().attack_roll == b.plain_outcome().attack_roll,
        a.plain_outcome().defence_roll == b.plain_outcome().defence_roll,
{
}

/// The name of a combat style as conditions of effects spell it.
fn combat_label(combat: Combat) -> (label: String)
    ensures
        label@ == combat_name(combat),
{
    match combat {
        Combat::Melee => String::from_str("melee"),
        Combat::Ranged => String::from_str("ranged"),
        Combat::Magic => String::from_str("magic"),
    }
}

/// An `i32` cast to `u32`; a negative value wraps around.
fn as_u32(x: i32) -> (r: u32)
    ensures
        r == spec_as_u32(x as int),
{
    if x >= 0 {
        x as u32
    } else {
        (x as i64 + 0x1_0000_0000) as u32
    }
}

/// The facts of an evaluation against which conditions of effects are
/// judged.
pub fn effect_context(ctx: &EvalContext) -> (facts: EffectContext)
    ensures
        facts@ == ctx@.effect_context(),
{
    EffectContext {
        on_slayer_task: ctx.player.on_slayer_task,
        in_wilderness: ctx.player.in_wilderness,
        target_attributes: clone_tags(&ctx.target.attributes),
        combat: combat_label(ctx.build.combat),
    }
}

/// Evaluates a player, a build and a target under a catalog of effects, or
/// gives `None` where the evaluation cannot be carried out on machine
/// integers.
///
/// The effective levels are computed and the effects of the first
/// checkpoint applied; the attack roll and the defence roll are computed and
/// the effects of the second checkpoint applied; accuracy and the maximum
/// hit are computed and the effects of the third and the fourth checkpoint
/// applied; the damage per second comes of what the registers then hold.
pub fn try_evaluate_with(ctx: &EvalContext, registry: &EffectRegistry) -> (result: Option<EvalResult>)
    ensures
        result is Some <==> ctx@.admissible(registry@),
        result matches Some(r) ==> r@ == ctx@.outcome(registry@),
{
    let player = ctx.player;
    let build = ctx.build;
    let target = ctx.target;
    if player.prayer_attack_mult.1 == 0 || player.prayer_strength_mult.1 == 0 {
        return None;
    }
    let facts = effect_context(ctx);

    let (atk_style_bonus, str_style_bonus) = build.stance.melee_bonuses();
    let eff_attack: i128 = effective_level_wide(
        player.attack as i32,
        player.potion_attack_boost,
        player.prayer_attack_mult,
        atk_style_bonus,
    );
    let eff_strength: i128 = effective_level_wide(
        player.strength as i32,
        player.potion_strength_boost,
        player.prayer_strength_mult,
        str_style_bonus,
    );
    if !in_i32(eff_attack) || !in_i32(eff_strength) {
        return None;
    }
    let mut state = EngineState {
        effective_attack: eff_attack as i32,
        effective_strength: eff_strength as i32,
        max_hit: 0,
        attack_roll: 0,
        accuracy: Ratio::zero(),
    };
    assert(state@ == ctx@.raw_levels());
    if registry.try_apply_stage(Stage::PostEffectiveLevel, &facts, &mut state).is_none() {
        return None;
    }
    let eff_defence: i32 = effective_defence_level(target.defence_level as i32);
    let attack_bonus: i32 = build.bonuses.attack_bonus_for(build.attack_type);
    let defence_bonus: i32 = target.defence_bonuses.defence_bonus_for(build.attack_type);
    let atk_roll: i64 = max_roll_wide(state.effective_attack, attack_bonus);
    let def_roll: i64 = max_roll_wide(eff_defence, defence_bonus);
    if !in_i32(atk_roll as i128) || !in_i32(def_roll as i128) {
        return None;
    }
    state.attack_roll = atk_roll as i32;
    assert(state@ == ctx@.raw_rolls(registry@));
    if registry.try_apply_stage(Stage::PreRolls, &facts, &mut state).is_none() {
        return None;
    }
    let max_hit: i64 = max_hit_wide(state.effective_strength, build.bonuses.melee_strength);
    if !in_i32(max_hit as i128) {
        return None;
    }
    state.accuracy = hit_chance(state.attack_roll, def_roll as i32);
    state.max_hit = max_hit as i32;
    assert(state@ == ctx@.raw_hit(registry@));
    if registry.try_apply_stage(Stage::PostMaxHit, &facts, &mut state).is_none() {
        return None;
    }
    if registry.try_apply_stage(Stage::PostAccuracy, &facts, &mut state).is_none() {
        return None;
    }
    let dps = match try_calculate_dps(state.accuracy, state.max_hit, build.attack_speed) {
        Some(dps) => dps,
        None => {
            return None;
        },
    };
    Some(
        EvalResult {
            dps,
            max_hit: as_u32(state.max_hit),
            accuracy: state.accuracy,
            attack_roll: as_u32(state.attack_roll),
            defence_roll: as_u32(def_roll as i32),
            interval_ticks: build.attack_speed,
        },
    )
}

/// Evaluates a player, a build and a target under a catalog of effects.
///
/// The effective levels are computed and the effects of the first
/// checkpoint applied; the attack roll and the defence roll are computed and
/// the effects of the second checkpoint applied; accuracy and the maximum
/// hit are computed and the effects of the third and the fourth checkpoint
/// applied; the damage per second comes of what the registers then hold.
pub fn evaluate_with(ctx: &EvalContext, registry: &EffectRegistry) -> (result: EvalResult)
    requires
        ctx@.admissible(registry@),
    ensures
        result@ == ctx@.outcome(registry@),
{
    match try_evaluate_with(ctx, registry) {
        Some(result) => result,
        None => vstd::pervasive::unreached(),
    }
}

/// Evaluates a player, a build and a target; no effect applies.
pub fn evaluate(ctx: &EvalContext) -> (result: EvalResult)
    requires
        ctx@.plainly_admissible(),
    ensures
        result@ == ctx@.plain_outcome(),
{
    proof {
        lemma_evaluation_without_effects(ctx@);
    }
    let registry = EffectRegistry::new();
    evaluate_with(ctx, &registry)
}

/// Evaluates a player, a build and a target without effects, or gives `None`
/// where the evaluation cannot be carried out on machine integers.
pub fn try_evaluate(ctx: &EvalContext) -> (result: Option<EvalResult>)
    ensures
        result is Some <==> ctx@.plainly_admissible(),
        result matches Some(r) ==> r@ == ctx@.plain_outcome(),
{
    proof {
        lemma_evaluation_without_effects(ctx@);
    }
    let registry = EffectRegistry::new();
    try_evaluate_with(ctx, &registry)
}

/// Whether `x` is representable as an `i32`.
fn in_i32(x: i128) -> (fits: bool)
    ensures
        fits == fits_i32(x as int),
{
    -0x8000_0000 <= x && x <= 0x7fff_ffff
}

} // verus!

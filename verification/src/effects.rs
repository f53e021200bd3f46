//! Staged effects: declarative rules that change the registers of an
//! evaluation at named checkpoints.
//!
//! An effect names its stage, a priority, an optional exclusive group, a
//! condition and an operation. At a checkpoint the effects of that stage are
//! walked in ascending priority, registration order deciding ties; of an
//! exclusive group only the first effect whose condition holds is applied.

use vstd::prelude::*;
use crate::formulas::{fits_i32, lemma_trunc_div_bound, trunc_div};
use crate::ratio::{Fraction, Ratio};
use crate::text::{has_tag, lowercase, shares_a_tag, shares_tag, tags_of};

verus! {

/// The checkpoints of an evaluation at which effects apply.
#[derive(Debug, Clone, Copy, PartialEq, Eq, Structural, PartialOrd, Ord, Hash)]
pub enum Stage {
    /// After the effective levels are computed.
    PostEffectiveLevel,
    /// After the rolls are computed, before accuracy is derived.
    PreRolls,
    /// After the maximum hit is computed.
    PostMaxHit,
    /// After accuracy is computed.
    PostAccuracy,
}

/// The registers that an effect can change.
#[derive(Debug, Clone, Copy, PartialEq, Eq, Structural)]
pub enum Stat {
    EffectiveAttack,
    EffectiveStrength,
    MaxHit,
    AttackRoll,
    Accuracy,
}

/// What an effect does to a register.
#[derive(Debug, Clone)]
pub enum Op {
    /// Multiply the register by `num / den`; an integer register keeps the
    /// quotient rounded toward zero.
    Multiply { stat: Stat, num: i32, den: i32 },
    /// Add `value` to the register.
    Add { stat: Stat, value: i32 },
}

/// When an effect is active. A field that is `None`, and an empty list of
/// attributes, asks for nothing.
#[derive(Debug, Clone)]
pub struct Condition {
    /// The player must be on a slayer task, or must not be.
    pub on_slayer_task: Option<bool>,
    /// The player must be in the wilderness, or must not be.
    pub in_wilderness: Option<bool>,
    /// The target must have at least one of these attributes.
    pub target_attributes: Vec<String>,
    /// The combat style must be this one, letter case aside.
    pub combat: Option<String>,
}

/// A condition as mathematical values.
pub struct ConditionView {
    pub on_slayer_task: Option<bool>,
    pub in_wilderness: Option<bool>,
    pub target_attributes: Seq<Seq<char>>,
    pub combat: Option<Seq<char>>,
}

impl View for Condition {
    type V = ConditionView;

    open spec fn view(&self) -> ConditionView {
        ConditionView {
            on_slayer_task: self.on_slayer_task,
            in_wilderness: self.in_wilderness,
            target_attributes: tags_of(self.target_attributes@),
            combat: match self.combat {
                Some(style) => Some(style@),
                None => None,
            },
        }
    }
}

impl Default for Condition {
    /// The condition that always holds.
    fn default() -> (r: Condition)
        ensures
            r@ == (ConditionView {
                on_slayer_task: None,
                in_wilderness: None,
                target_attributes: Seq::empty(),
                combat: None,
            }),
    {
        let r = Condition {
            on_slayer_task: None,
            in_wilderness: None,
            target_attributes: Vec::new(),
            combat: None,
        };
        assert(r@.target_attributes =~= Seq::empty());
        r
    }
}

/// The facts against which conditions are judged.
pub struct EffectContext {
    pub on_slayer_task: bool,
    pub in_wilderness: bool,
    pub target_attributes: Vec<String>,
    pub combat: String,
}

/// The facts against which conditions are judged, as mathematical values.
pub struct ContextView {
    pub on_slayer_task: bool,
    pub in_wilderness: bool,
    pub target_attributes: Seq<Seq<char>>,
    pub combat: Seq<char>,
}

impl View for EffectContext {
    type V = ContextView;

    open spec fn view(&self) -> ContextView {
        ContextView {
            on_slayer_task: self.on_slayer_task,
            in_wilderness: self.in_wilderness,
            target_attributes: tags_of(self.target_attributes@),
            combat: self.combat@,
        }
    }
}

/// The lowercase form of a required combat style, if one is required.
pub open spec fn folded(required: Option<Seq<char>>) -> Option<Seq<char>> {
    match required {
        Some(style) => Some(lowercase(style)),
        None => None,
    }
}

impl ConditionView {
    /// The condition holds of the context, where `required` is the lowercase
    /// form of the combat style that the condition asks for and `actual` the
    /// lowercase form of the context's. Every requirement that is set must be
    /// met: a required flag equals the context's flag; of the required
    /// attributes the target has at least one; the required combat style is
    /// the actual one.
    pub open spec fn met_folded(self, ctx: ContextView, required: Option<Seq<char>>, actual: Seq<char>) -> bool {
        &&& (self.on_slayer_task matches Some(flag) ==> ctx.on_slayer_task == flag)
        &&& (self.in_wilderness matches Some(flag) ==> ctx.in_wilderness == flag)
        &&& (self.target_attributes.len() > 0 ==> shares_a_tag(
            self.target_attributes,
            ctx.target_attributes,
        ))
        &&& (required matches Some(style) ==> actual == style)
    }

    /// The condition holds of the context: every requirement that is set is
    /// met, the combat style letter case aside.
    pub open spec fn met(self, ctx: ContextView) -> bool {
        self.met_folded(ctx, folded(self.combat), lowercase(ctx.combat))
    }
}

impl Condition {
    /// Whether the condition holds of the context, given the lowercase forms
    /// of the combat style that the condition asks for and of the context's.
    pub fn met_folded(&self, ctx: &EffectContext, required: &Option<String>, actual: &String) -> (met: bool)
        ensures
            met == self@.met_folded(
                ctx@,
                match required {
                    Some(style) => Some(style@),
                    None => None,
                },
                actual@,
            ),
    {
        match self.on_slayer_task {
            Some(flag) => {
                if ctx.on_slayer_task != flag {
                    return false;
                }
            },
            None => {},
        }
        match self.in_wilderness {
            Some(flag) => {
                if ctx.in_wilderness != flag {
                    return false;
                }
            },
            None => {},
        }
        if self.target_attributes.len() > 0 {
            if !shares_tag(&self.target_attributes, &ctx.target_attributes) {
                return false;
            }
        }
        match required {
            Some(style) => {
                if *actual != *style {
                    return false;
                }
            },
            None => {},
        }
        true
    }
}

/// A condition that asks for nothing holds of every context: fields that
/// are not set are wildcards.
pub proof fn lemma_unset_fields_are_wildcards(condition: ConditionView, ctx: ContextView)
    requires
        condition.on_slayer_task is None,
        condition.in_wilderness is None,
        condition.target_attributes.len() == 0,
        condition.combat is None,
    ensures
        condition.met(ctx),
{
}

/// One mismatch fails a condition. Let the condition hold of `ctx`, and let
/// `other` differ from `ctx` in one field only, which the condition asks
/// for and which `other` does not meet: the opposite flag, attributes that
/// share nothing with the required ones, or a combat style with another
/// lowercase form. Then the condition does not hold of `other`.
pub proof fn lemma_one_mismatch_fails(condition: ConditionView, ctx: ContextView, other: ContextView)
    requires
        condition.met(ctx),
        ({
            ||| condition.on_slayer_task is Some && other == (ContextView {
                on_slayer_task: !ctx.on_slayer_task,
                ..ctx
            })
            ||| condition.in_wilderness is Some && other == (ContextView {
                in_wilderness: !ctx.in_wilderness,
                ..ctx
            })
            ||| condition.target_attributes.len() > 0 && other == (ContextView {
                target_attributes: other.target_attributes,
                ..ctx
            }) && !shares_a_tag(condition.target_attributes, other.target_attributes)
            ||| condition.combat is Some && other == (ContextView { combat: other.combat, ..ctx })
                && lowercase(other.combat) != lowercase(condition.combat->0)
        }),
    ensures
        !condition.met(other),
{
}

/// A declarative rule that changes one register at one checkpoint.
#[derive(Debug, Clone)]
pub struct Effect {
    pub id: String,
    pub name: String,
    pub stage: Stage,
    /// Effects of lower priority apply first.
    pub priority: i16,
    /// Of the effects that share a group, at most one applies at a checkpoint.
    pub exclusive_group: Option<String>,
    pub condition: Condition,
    pub op: Op,
}

/// An effect as mathematical values.
pub struct EffectView {
    pub id: Seq<char>,
    pub name: Seq<char>,
    pub stage: Stage,
    pub priority: int,
    pub exclusive_group: Option<Seq<char>>,
    pub condition: ConditionView,
    pub op: Op,
}

impl View for Effect {
    type V = EffectView;

    open spec fn view(&self) -> EffectView {
        EffectView {
            id: self.id@,
            name: self.name@,
            stage: self.stage,
            priority: self.priority as int,
            exclusive_group: match self.exclusive_group {
                Some(group) => Some(group@),
                None => None,
            },
            condition: self.condition@,
            op: self.op,
        }
    }
}

impl Effect {
    /// Whether the effect's condition holds of the context.
    pub fn conditions_met(&self, ctx: &EffectContext) -> (met: bool)
        ensures
            met == self@.condition.met(ctx@),
    {
        let actual = ctx.combat.as_str().to_lowercase();
        let required = match &self.condition.combat {
            Some(style) => Some(style.as_str().to_lowercase()),
            None => None,
        };
        self.condition.met_folded(ctx, &required, &actual)
    }
}

/// The registers of an evaluation as mathematical values.
pub struct Registers {
    pub effective_attack: int,
    pub effective_strength: int,
    pub max_hit: int,
    pub attack_roll: int,
    pub accuracy: Fraction,
}

impl Registers {
    /// The registers after an operation.
    pub open spec fn apply(self, op: Op) -> Registers {
        match op {
            Op::Multiply { stat, num, den } => match stat {
                Stat::EffectiveAttack => Registers {
                    effective_attack: trunc_div(self.effective_attack * num, den as int),
                    ..self
                },
                Stat::EffectiveStrength => Registers {
                    effective_strength: trunc_div(self.effective_strength * num, den as int),
                    ..self
                },
                Stat::MaxHit => Registers { max_hit: trunc_div(self.max_hit * num, den as int), ..self },
                Stat::AttackRoll => Registers {
                    attack_roll: trunc_div(self.attack_roll * num, den as int),
                    ..self
                },
                Stat::Accuracy => Registers {
                    accuracy: self.accuracy.times(num as int, den as int),
                    ..self
                },
            },
            Op::Add { stat, value } => match stat {
                Stat::EffectiveAttack => Registers {
                    effective_attack: self.effective_attack + value,
                    ..self
                },
                Stat::EffectiveStrength => Registers {
                    effective_strength: self.effective_strength + value,
                    ..self
                },
                Stat::MaxHit => Registers { max_hit: self.max_hit + value, ..self },
                Stat::AttackRoll => Registers { attack_roll: self.attack_roll + value, ..self },
                Stat::Accuracy => Registers { accuracy: self.accuracy.plus(value as int), ..self },
            },
        }
    }

    /// The registers can be held in an `EngineState`.
    pub open spec fn representable(self) -> bool {
        &&& fits_i32(self.effective_attack)
        &&& fits_i32(self.effective_strength)
        &&& fits_i32(self.max_hit)
        &&& fits_i32(self.attack_roll)
        &&& self.accuracy.representable()
    }

    /// The operation can be carried out on machine integers: an integer
    /// register is not divided by zero, the registers afterwards are
    /// representable, and so is the product from which a sum with accuracy
    /// is formed.
    pub open spec fn admits(self, op: Op) -> bool {
        &&& self.apply(op).representable()
        &&& (op matches Op::Multiply { stat, den, .. } ==> stat == Stat::Accuracy || den != 0)
        &&& (op matches Op::Add { stat, value } ==> stat != Stat::Accuracy || i128::MIN <= value
            * self.accuracy.den <= i128::MAX)
    }
}

/// The registers that effects change in the course of one evaluation.
#[derive(Debug, Clone)]
pub struct EngineState {
    pub effective_attack: i32,
    pub effective_strength: i32,
    pub max_hit: i32,
    pub attack_roll: i32,
    pub accuracy: Ratio,
}

impl View for EngineState {
    type V = Registers;

    open spec fn view(&self) -> Registers {
        Registers {
            effective_attack: self.effective_attack as int,
            effective_strength: self.effective_strength as int,
            max_hit: self.max_hit as int,
            attack_roll: self.attack_roll as int,
            accuracy: self.accuracy@,
        }
    }
}

impl Default for EngineState {
    /// All registers zero.
    fn default() -> (r: EngineState)
        ensures
            r@ == (Registers {
                effective_attack: 0,
                effective_strength: 0,
                max_hit: 0,
                attack_roll: 0,
                accuracy: Fraction { num: 0, den: 1 },
            }),
    {
        EngineState {
            effective_attack: 0,
            effective_strength: 0,
            max_hit: 0,
            attack_roll: 0,
            accuracy: Ratio::zero(),
        }
    }
}

/// `value * num / den`, rounded toward zero, as a wide integer.
fn scale_wide(value: i32, num: i32, den: i32) -> (scaled: i64)
    requires
        den != 0,
    ensures
        scaled == trunc_div(value * num, den as int),
{
    assert(-0x4000_0000_0000_0000 <= value * num <= 0x4000_0000_0000_0000) by (nonlinear_arith)
        requires
            -0x8000_0000 <= value <= 0x8000_0000,
            -0x8000_0000 <= num <= 0x8000_0000,
    ;
    let product: i64 = value as i64 * num as i64;
    proof {
        lemma_trunc_div_bound(product as int, den as int);
    }
    product / (den as i64)
}

/// Whether `value * num / den`, rounded toward zero, is an `i32`.
fn scales(value: i32, num: i32, den: i32) -> (ok: bool)
    ensures
        ok == (den != 0 && fits_i32(trunc_div(value * num, den as int))),
{
    if den == 0 {
        return false;
    }
    let scaled: i64 = scale_wide(value, num, den);
    -0x8000_0000 <= scaled && scaled <= 0x7fff_ffff
}

/// `value * num / den`, rounded toward zero.
fn scale(value: i32, num: i32, den: i32) -> (scaled: i32)
    requires
        den != 0,
        fits_i32(trunc_div(value * num, den as int)),
    ensures
        scaled == trunc_div(value * num, den as int),
{
    scale_wide(value, num, den) as i32
}

impl EngineState {
    /// Whether an operation can be carried out on the registers, so that
    /// `apply` may be called.
    pub fn admits(&self, op: &Op) -> (ok: bool)
        ensures
            ok == self@.admits(*op),
    {
        match op {
            Op::Multiply { stat, num, den } => match stat {
                Stat::EffectiveAttack => scales(self.effective_attack, *num, *den),
                Stat::EffectiveStrength => scales(self.effective_strength, *num, *den),
                Stat::MaxHit => scales(self.max_hit, *num, *den),
                Stat::AttackRoll => scales(self.attack_roll, *num, *den),
                Stat::Accuracy => self.accuracy.num.checked_mul(*num as i128).is_some()
                    && self.accuracy.den.checked_mul(*den as i128).is_some(),
            },
            Op::Add { stat, value } => match stat {
                Stat::EffectiveAttack => self.effective_attack.checked_add(*value).is_some(),
                Stat::EffectiveStrength => self.effective_strength.checked_add(*value).is_some(),
                Stat::MaxHit => self.max_hit.checked_add(*value).is_some(),
                Stat::AttackRoll => self.attack_roll.checked_add(*value).is_some(),
                Stat::Accuracy => match (*value as i128).checked_mul(self.accuracy.den) {
                    Some(whole) => self.accuracy.num.checked_add(whole).is_some(),
                    None => false,
                },
            },
        }
    }

    /// Carries out an operation on the registers.
    pub fn apply(&mut self, op: &Op)
        requires
            old(self)@.admits(*op),
        ensures
            final(self)@ == old(self)@.apply(*op),
    {
        match op {
            Op::Multiply { stat, num, den } => match stat {
                Stat::EffectiveAttack => {
                    self.effective_attack = scale(self.effective_attack, *num, *den);
                },
                Stat::EffectiveStrength => {
                    self.effective_strength = scale(self.effective_strength, *num, *den);
                },
                Stat::MaxHit => {
                    self.max_hit = scale(self.max_hit, *num, *den);
                },
                Stat::AttackRoll => {
                    self.attack_roll = scale(self.attack_roll, *num, *den);
                },
                Stat::Accuracy => {
                    self.accuracy = Ratio::new(
                        self.accuracy.num * (*num as i128),
                        self.accuracy.den * (*den as i128),
                    );
                },
            },
            Op::Add { stat, value } => match stat {
                Stat::EffectiveAttack => {
                    self.effective_attack = self.effective_attack + *value;
                },
                Stat::EffectiveStrength => {
                    self.effective_strength = self.effective_strength + *value;
                },
                Stat::MaxHit => {
                    self.max_hit = self.max_hit + *value;
                },
                Stat::AttackRoll => {
                    self.attack_roll = self.attack_roll + *value;
                },
                Stat::Accuracy => {
                    self.accuracy = Ratio::new(
                        self.accuracy.num + (*value as i128) * self.accuracy.den,
                        self.accuracy.den,
                    );
                },
            },
        }
    }

    /// Carries out an operation on the registers if it can be carried out,
    /// and tells whether it did; otherwise the registers stay as they are.
    pub fn try_apply(&mut self, op: &Op) -> (applied: bool)
        ensures
            applied == old(self)@.admits(*op),
            final(self)@ == if applied {
                old(self)@.apply(*op)
            } else {
                old(self)@
            },
    {
        if self.admits(op) {
            self.apply(op);
            true
        } else {
            false
        }
    }
}

/// The effect at index `i` goes before the one at index `j`: it has the lower
/// priority, or the same priority and was registered earlier.
pub open spec fn precedes(effects: Seq<EffectView>, i: int, j: int) -> bool {
    effects[i].priority < effects[j].priority || (effects[i].priority == effects[j].priority && i
        < j)
}

/// `order` lists the indices of a stage's effects in the order in which they
/// apply: every entry is the index of an effect of that stage, the index of
/// every such effect occurs, and each entry goes before all later ones.
pub open spec fn is_stage_order(effects: Seq<EffectView>, stage: Stage, order: Seq<int>) -> bool {
    &&& forall|k: int|
        0 <= k < order.len() ==> 0 <= #[trigger] order[k] < effects.len()
            && effects[order[k]].stage == stage
    &&& forall|i: int|
        0 <= i < effects.len() && (#[trigger] effects[i]).stage == stage ==> order.contains(i)
    &&& forall|k: int, l: int|
        0 <= k < l < order.len() ==> precedes(effects, #[trigger] order[k], #[trigger] order[l])
}

/// The indices of a stage's effects in the order in which they apply: a
/// stable sort of the stage's effects by ascending priority.
pub open spec fn stage_order(effects: Seq<EffectView>, stage: Stage) -> Seq<int> {
    choose|order: Seq<int>| is_stage_order(effects, stage, order)
}

/// Two sequences in which each entry goes before all later ones, and which
/// hold the same indices, are equal.
proof fn lemma_ordered_sequences_equal(effects: Seq<EffectView>, a: Seq<int>, b: Seq<int>)
    requires
        forall|k: int, l: int|
            0 <= k < l < a.len() ==> precedes(effects, #[trigger] a[k], #[trigger] a[l]),
        forall|k: int, l: int|
            0 <= k < l < b.len() ==> precedes(effects, #[trigger] b[k], #[trigger] b[l]),
        forall|x: int| a.contains(x) <==> b.contains(x),
    ensures
        a == b,
    decreases a.len(),
{
    if a.len() == 0 {
        if b.len() > 0 {
            assert(b.contains(b[0]));
            assert(a.contains(b[0]));
        }
        assert(a =~= b);
    } else {
        let x = a.last();
        assert(a.contains(x));
        assert(b.contains(x));
        let y = b.last();
        assert(b.contains(y));
        assert(a.contains(y));
        let k = choose|k: int| 0 <= k < a.len() && a[k] == y;
        let m = choose|m: int| 0 <= m < b.len() && b[m] == x;
        if k != a.len() - 1 {
            assert(precedes(effects, a[k], a[a.len() - 1]));
            if m != b.len() - 1 {
                assert(precedes(effects, b[m], b[b.len() - 1]));
            }
        }
        assert(x == y);
        let a0 = a.drop_last();
        let b0 = b.drop_last();
        assert forall|z: int| a0.contains(z) <==> b0.contains(z) by {
            if a0.contains(z) {
                let i = choose|i: int| 0 <= i < a0.len() && a0[i] == z;
                assert(precedes(effects, a[i], a[a.len() - 1]));
                assert(a.contains(z));
                let j = choose|j: int| 0 <= j < b.len() && b[j] == z;
                assert(b0[j] == z);
            }
            if b0.contains(z) {
                let i = choose|i: int| 0 <= i < b0.len() && b0[i] == z;
                assert(precedes(effects, b[i], b[b.len() - 1]));
                assert(b.contains(z));
                let j = choose|j: int| 0 <= j < a.len() && a[j] == z;
                assert(a0[j] == z);
            }
        }
        assert forall|k: int, l: int| 0 <= k < l < a0.len() implies precedes(
            effects,
            #[trigger] a0[k],
            #[trigger] a0[l],
        ) by {
            assert(precedes(effects, a[k], a[l]));
        }
        assert forall|k: int, l: int| 0 <= k < l < b0.len() implies precedes(
            effects,
            #[trigger] b0[k],
            #[trigger] b0[l],
        ) by {
            assert(precedes(effects, b[k], b[l]));
        }
        lemma_ordered_sequences_equal(effects, a0, b0);
        assert(a =~= a0.push(x));
        assert(b =~= b0.push(y));
    }
}

/// A stage has one order of application only: a sequence that meets
/// `is_stage_order` is the stage's order.
pub proof fn lemma_stage_order_unique(effects: Seq<EffectView>, stage: Stage, order: Seq<int>)
    requires
        is_stage_order(effects, stage, order),
    ensures
        order == stage_order(effects, stage),
{
    let chosen = stage_order(effects, stage);
    assert(is_stage_order(effects, stage, chosen));
    assert forall|x: int| order.contains(x) <==> chosen.contains(x) by {
        if order.contains(x) {
            let k = choose|k: int| 0 <= k < order.len() && order[k] == x;
            assert(0 <= order[k] < effects.len() && effects[order[k]].stage == stage);
            assert(effects[x].stage == stage);
        }
        if chosen.contains(x) {
            let k = choose|k: int| 0 <= k < chosen.len() && chosen[k] == x;
            assert(0 <= chosen[k] < effects.len() && effects[chosen[k]].stage == stage);
            assert(effects[x].stage == stage);
        }
    }
    lemma_ordered_sequences_equal(effects, order, chosen);
}

/// Where the effect at index `i` goes into an order of effects registered
/// before it: behind the entries whose priority is not higher than its own.
spec fn slot_for(effects: Seq<EffectView>, order: Seq<int>, i: int) -> int
    decreases order.len(),
{
    if order.len() == 0 || effects[order.last()].priority <= effects[i].priority {
        order.len() as int
    } else {
        slot_for(effects, order.drop_last(), i)
    }
}

/// The order of application among the first `n` effects of a catalog.
spec fn order_among(effects: Seq<EffectView>, stage: Stage, n: nat) -> Seq<int>
    decreases n,
{
    if n == 0 {
        Seq::empty()
    } else {
        let before = order_among(effects, stage, (n - 1) as nat);
        if effects[n - 1].stage == stage {
            before.insert(slot_for(effects, before, n - 1), n - 1)
        } else {
            before
        }
    }
}

/// `order` is the order of application among the first `n` effects.
spec fn is_order_among(effects: Seq<EffectView>, stage: Stage, n: nat, order: Seq<int>) -> bool {
    &&& forall|k: int|
        0 <= k < order.len() ==> 0 <= #[trigger] order[k] < n && effects[order[k]].stage == stage
    &&& forall|i: int| 0 <= i < n && (#[trigger] effects[i]).stage == stage ==> order.contains(i)
    &&& forall|k: int, l: int|
        0 <= k < l < order.len() ==> precedes(effects, #[trigger] order[k], #[trigger] order[l])
}

/// The slot lies within the order, every entry from the slot on has a
/// higher priority than the effect, and the entry before the slot has not.
proof fn lemma_slot_for(effects: Seq<EffectView>, order: Seq<int>, i: int)
    ensures
        0 <= slot_for(effects, order, i) <= order.len(),
        forall|k: int|
            slot_for(effects, order, i) <= k < order.len() ==> effects[#[trigger] order[k]].priority
                > effects[i].priority,
        slot_for(effects, order, i) > 0 ==> effects[order[slot_for(effects, order, i) - 1]].priority
            <= effects[i].priority,
    decreases order.len(),
{
    if !(order.len() == 0 || effects[order.last()].priority <= effects[i].priority) {
        lemma_slot_for(effects, order.drop_last(), i);
        let slot = slot_for(effects, order, i);
        assert forall|k: int| slot <= k < order.len() implies effects[#[trigger] order[k]].priority
            > effects[i].priority by {
            if k < order.len() - 1 {
                assert(order.drop_last()[k] == order[k]);
            }
        }
        if slot > 0 {
            assert(order.drop_last()[slot - 1] == order[slot - 1]);
        }
    }
}

/// An order among the first `i` effects, with `i` put in at a slot behind
/// the entries whose priority is not higher and before those whose priority
/// is, is an order among the first `i + 1` effects.
proof fn lemma_insert_into_order(effects: Seq<EffectView>, stage: Stage, i: int, before: Seq<int>, at: int)
    requires
        0 <= i < effects.len(),
        effects[i].stage == stage,
        is_order_among(effects, stage, i as nat, before),
        0 <= at <= before.len(),
        forall|k: int| at <= k < before.len() ==> effects[#[trigger] before[k]].priority > effects[i].priority,
        at > 0 ==> effects[before[at - 1]].priority <= effects[i].priority,
    ensures
        is_order_among(effects, stage, (i + 1) as nat, before.insert(at, i)),
{
    let after = before.insert(at, i);
    assert(after.len() == before.len() + 1);
    assert(after[at] == i);
    assert forall|k: int| 0 <= k < at implies after[k] == before[k] by {}
    assert forall|k: int| at < k < after.len() implies after[k] == before[k - 1] by {}
    assert forall|k: int| 0 <= k < after.len() implies 0 <= #[trigger] after[k] < i + 1
        && effects[after[k]].stage == stage by {
        if k < at {
            assert(after[k] == before[k]);
        } else if k > at {
            assert(after[k] == before[k - 1]);
        }
    }
    assert forall|j: int| 0 <= j < i + 1 && (#[trigger] effects[j]).stage == stage implies after.contains(
        j,
    ) by {
        if j == i {
            assert(after[at] == j);
        } else {
            assert(before.contains(j));
            let k = choose|k: int| 0 <= k < before.len() && before[k] == j;
            if k < at {
                assert(after[k] == j);
            } else {
                assert(after[k + 1] == j);
            }
        }
    }
    assert forall|k: int, l: int| 0 <= k < l < after.len() implies precedes(
        effects,
        #[trigger] after[k],
        #[trigger] after[l],
    ) by {
        if l < at {
            assert(after[k] == before[k] && after[l] == before[l]);
            assert(precedes(effects, before[k], before[l]));
        } else if l == at {
            assert(after[k] == before[k]);
            assert(0 <= before[k] < i);
            if k < at - 1 {
                assert(precedes(effects, before[k], before[at - 1]));
            }
        } else if k < at {
            assert(after[k] == before[k] && after[l] == before[l - 1]);
            assert(precedes(effects, before[k], before[l - 1]));
        } else if k == at {
            assert(after[l] == before[l - 1]);
            assert(effects[before[l - 1]].priority > effects[i].priority);
        } else {
            assert(after[k] == before[k - 1] && after[l] == before[l - 1]);
            assert(precedes(effects, before[k - 1], before[l - 1]));
        }
    }
}

/// An order among the first `i` effects is an order among the first `i + 1`
/// if the effect at index `i` belongs to another stage.
proof fn lemma_skip_in_order(effects: Seq<EffectView>, stage: Stage, i: int, order: Seq<int>)
    requires
        0 <= i < effects.len(),
        effects[i].stage != stage,
        is_order_among(effects, stage, i as nat, order),
    ensures
        is_order_among(effects, stage, (i + 1) as nat, order),
{
    assert forall|j: int| 0 <= j < i + 1 && (#[trigger] effects[j]).stage == stage implies order.contains(
        j,
    ) by {
        assert(j != i);
    }
}

/// The first `n` effects of a catalog have an order of application.
proof fn lemma_order_among(effects: Seq<EffectView>, stage: Stage, n: nat)
    requires
        n <= effects.len(),
    ensures
        is_order_among(effects, stage, n, order_among(effects, stage, n)),
    decreases n,
{
    if n > 0 {
        let i = n - 1;
        let before = order_among(effects, stage, i as nat);
        lemma_order_among(effects, stage, i as nat);
        if effects[i].stage == stage {
            lemma_slot_for(effects, before, i);
            lemma_insert_into_order(effects, stage, i, before, slot_for(effects, before, i));
        } else {
            lemma_skip_in_order(effects, stage, i, before);
        }
    }
}

/// Every catalog has an order of application for every stage, and
/// `stage_order` is that order.
pub proof fn lemma_stage_order_exists(effects: Seq<EffectView>, stage: Stage)
    ensures
        is_stage_order(effects, stage, stage_order(effects, stage)),
{
    lemma_order_among(effects, stage, effects.len());
    assert(is_stage_order(effects, stage, order_among(effects, stage, effects.len())));
}

/// Where one checkpoint's walk over its effects stands: the registers, the
/// ids of the effects applied so far, and the exclusive groups already taken.
pub struct StageRun {
    pub registers: Registers,
    pub applied: Seq<Seq<char>>,
    pub used_groups: Set<Seq<char>>,
}

impl StageRun {
    /// The walk before its first effect.
    pub open spec fn start(registers: Registers) -> StageRun {
        StageRun { registers, applied: Seq::empty(), used_groups: Set::empty() }
    }

    /// The effect is applied at this point of the walk: its exclusive group,
    /// if it has one, is not taken yet, and its condition holds.
    pub open spec fn applies(self, effect: EffectView, ctx: ContextView) -> bool {
        &&& !(effect.exclusive_group matches Some(group) && self.used_groups.contains(group))
        &&& effect.condition.met(ctx)
    }

    /// The walk after it has come past the effect. An effect that applies
    /// changes the registers, is recorded, and takes its exclusive group; any
    /// other effect changes nothing.
    pub open spec fn step(self, effect: EffectView, ctx: ContextView) -> StageRun {
        if self.applies(effect, ctx) {
            StageRun {
                registers: self.registers.apply(effect.op),
                applied: self.applied.push(effect.id),
                used_groups: match effect.exclusive_group {
                    Some(group) => self.used_groups.insert(group),
                    None => self.used_groups,
                },
            }
        } else {
            self
        }
    }

    /// The walk after it has come past the effects at the indices `order`,
    /// one after the other.
    pub open spec fn walk(self, effects: Seq<EffectView>, order: Seq<int>, ctx: ContextView) -> StageRun
        decreases order.len(),
    {
        if order.len() == 0 {
            self
        } else {
            self.step(effects[order[0]], ctx).walk(effects, order.drop_first(), ctx)
        }
    }

    /// Every operation that the walk over `order` carries out is admitted by
    /// the registers it meets.
    pub open spec fn admits_walk(self, effects: Seq<EffectView>, order: Seq<int>, ctx: ContextView) -> bool
        decreases order.len(),
    {
        if order.len() == 0 {
            true
        } else {
            let effect = effects[order[0]];
            &&& self.applies(effect, ctx) ==> self.registers.admits(effect.op)
            &&& self.step(effect, ctx).admits_walk(effects, order.drop_first(), ctx)
        }
    }
}

/// A group that is taken stays taken: a walk over effects that all belong to
/// a group taken before changes nothing.
pub proof fn lemma_taken_group_blocks(
    run: StageRun,
    effects: Seq<EffectView>,
    order: Seq<int>,
    ctx: ContextView,
    group: Seq<char>,
)
    requires
        run.used_groups.contains(group),
        forall|k: int| 0 <= k < order.len() ==> effects[#[trigger] order[k]].exclusive_group == Some(group),
    ensures
        run.walk(effects, order, ctx) == run,
    decreases order.len(),
{
    if order.len() > 0 {
        assert(effects[order[0]].exclusive_group == Some(group));
        assert(!run.applies(effects[order[0]], ctx));
        let rest = order.drop_first();
        assert forall|k: int| 0 <= k < rest.len() implies effects[#[trigger] rest[k]].exclusive_group
            == Some(group) by {
            assert(rest[k] == order[k + 1]);
        }
        lemma_taken_group_blocks(run, effects, rest, ctx, group);
    }
}

/// One checkpoint: the effects of `stage` walked in their order of
/// application, from the given registers.
pub open spec fn run_stage(
    effects: Seq<EffectView>,
    stage: Stage,
    ctx: ContextView,
    registers: Registers,
) -> StageRun {
    StageRun::start(registers).walk(effects, stage_order(effects, stage), ctx)
}

/// Every operation that the checkpoint carries out is admitted by the
/// registers it meets.
pub open spec fn stage_admitted(
    effects: Seq<EffectView>,
    stage: Stage,
    ctx: ContextView,
    registers: Registers,
) -> bool {
    StageRun::start(registers).admits_walk(effects, stage_order(effects, stage), ctx)
}

/// A catalog of effects in the order of their registration.
#[derive(Debug, Clone)]
pub struct EffectRegistry {
    pub effects: Vec<Effect>,
}

impl View for EffectRegistry {
    type V = Seq<EffectView>;

    open spec fn view(&self) -> Seq<EffectView> {
        self.effects@.map_values(|effect: Effect| effect@)
    }
}

impl Default for EffectRegistry {
    /// The empty catalog.
    fn default() -> (r: EffectRegistry)
        ensures
            r@ == Seq::<EffectView>::empty(),
    {
        EffectRegistry::new()
    }
}

/// Indices as mathematical integers.
pub open spec fn indices(order: Seq<usize>) -> Seq<int> {
    order.map_values(|i: usize| i as int)
}

impl EffectRegistry {
    /// The empty catalog.
    pub fn new() -> (r: EffectRegistry)
        ensures
            r@ == Seq::<EffectView>::empty(),
    {
        let r = EffectRegistry { effects: Vec::new() };
        assert(r@ =~= Seq::<EffectView>::empty());
        r
    }

    /// Appends an effect to the catalog. Ids are not checked for duplicates.
    pub fn register(&mut self, effect: Effect)
        ensures
            final(self)@ == old(self)@.push(effect@),
    {
        self.effects.push(effect);
        assert(self@ =~= old(self)@.push(effect@));
    }

    /// The indices of a stage's effects in their order of application.
    pub fn stage_indices(&self, stage: Stage) -> (order: Vec<usize>)
        ensures
            indices(order@) == stage_order(self@, stage),
            is_stage_order(self@, stage, indices(order@)),
    {
        let ghost effects = self@;
        let mut order: Vec<usize> = Vec::new();
        let mut i: usize = 0;
        while i < self.effects.len()
            invariant
                i <= self.effects.len(),
                effects == self@,
                effects.len() == self.effects.len(),
                is_order_among(effects, stage, i as nat, indices(order@)),
            decreases self.effects.len() - i,
        {
            if self.effects[i].stage == stage {
                let priority: i16 = self.effects[i].priority;
                let mut at: usize = order.len();
                assert forall|k: int| 0 <= k < order.len() implies #[trigger] order[k] < i by {
                    assert(0 <= indices(order@)[k] < i);
                }
                while at > 0 && self.effects[order[at - 1]].priority > priority
                    invariant
                        at <= order.len(),
                        i < self.effects.len(),
                        forall|k: int| 0 <= k < order.len() ==> #[trigger] order[k] < i,
                        effects == self@,
                        effects.len() == self.effects.len(),
                        priority == effects[i as int].priority,
                        is_order_among(effects, stage, i as nat, indices(order@)),
                        forall|k: int|
                            at <= k < order.len() ==> effects[#[trigger] indices(order@)[k]].priority
                                > priority,
                    decreases at,
                {
                    assert(indices(order@)[at - 1] == order[at - 1]);
                    at -= 1;
                }
                let ghost before = indices(order@);
                assert(at > 0 ==> 0 <= before[at - 1] < i);
                order.insert(at, i);
                proof {
                    assert(indices(order@) =~= before.insert(at as int, i as int));
                    lemma_insert_into_order(effects, stage, i as int, before, at as int);
                }
            } else {
                proof {
                    lemma_skip_in_order(effects, stage, i as int, indices(order@));
                }
            }
            i += 1;
        }
        proof {
            assert(is_stage_order(effects, stage, indices(order@)));
            lemma_stage_order_unique(effects, stage, indices(order@));
        }
        order
    }

    /// The effects of a stage in their order of application: ascending
    /// priority, and registration order among effects of one priority.
    pub fn for_stage(&self, stage: Stage) -> (selected: Vec<&Effect>)
        ensures
            selected@.len() == stage_order(self@, stage).len(),
            forall|k: int|
                0 <= k < selected@.len() ==> *(#[trigger] selected@[k]) == self.effects@[stage_order(
                    self@,
                    stage,
                )[k]],
    {
        let order = self.stage_indices(stage);
        let mut selected: Vec<&Effect> = Vec::new();
        let mut k: usize = 0;
        while k < order.len()
            invariant
                k <= order.len(),
                selected@.len() == k,
                is_stage_order(self@, stage, indices(order@)),
                forall|j: int|
                    0 <= j < k ==> *(#[trigger] selected@[j]) == self.effects@[indices(order@)[j]],
            decreases order.len() - k,
        {
            assert(0 <= indices(order@)[k as int] < self@.len());
            selected.push(&self.effects[order[k]]);
            k += 1;
        }
        selected
    }

    /// Applies the effects of a stage to the registers and returns the ids of
    /// the effects applied, in the order of their application; or gives
    /// `None`, and leaves the registers as they were, where one of the
    /// operations cannot be carried out.
    ///
    /// The effects are walked in ascending priority, registration order
    /// deciding ties. An effect is passed over if its exclusive group was
    /// taken earlier in this walk or if its condition does not hold of `ctx`;
    /// otherwise its operation changes `state`, its id is recorded, and its
    /// exclusive group is taken for the rest of this walk.
    pub fn try_apply_stage(&self, stage: Stage, ctx: &EffectContext, state: &mut EngineState) -> (applied: Option<
        Vec<String>,
    >)
        ensures
            applied is Some <==> stage_admitted(self@, stage, ctx@, old(state)@),
            applied matches Some(ids) ==> final(state)@ == run_stage(
                self@,
                stage,
                ctx@,
                old(state)@,
            ).registers && tags_of(ids@) == run_stage(self@, stage, ctx@, old(state)@).applied,
            applied is None ==> final(state)@ == old(state)@,
    {
        let order = self.stage_indices(stage);
        let before = EngineState {
            effective_attack: state.effective_attack,
            effective_strength: state.effective_strength,
            max_hit: state.max_hit,
            attack_roll: state.attack_roll,
            accuracy: state.accuracy,
        };
        let ghost effects = self@;
        let ghost ord = indices(order@);
        let ghost mut run = StageRun::start(state@);
        let mut applied: Vec<String> = Vec::new();
        let mut used_groups: Vec<String> = Vec::new();
        let mut k: usize = 0;
        assert(ord.skip(0) =~= ord);
        assert(tags_of(applied@) =~= run.applied);
        while k < order.len()
            invariant
                k <= order.len(),
                effects == self@,
                ord == indices(order@),
                is_stage_order(effects, stage, ord),
                before@ == old(state)@,
                run.walk(effects, ord.skip(k as int), ctx@) == run_stage(
                    effects,
                    stage,
                    ctx@,
                    old(state)@,
                ),
                run.admits_walk(effects, ord.skip(k as int), ctx@) <==> stage_admitted(
                    effects,
                    stage,
                    ctx@,
                    old(state)@,
                ),
                state@ == run.registers,
                tags_of(applied@) == run.applied,
                forall|group: Seq<char>|
                    run.used_groups.contains(group) <==> tags_of(used_groups@).contains(group),
            decreases order.len() - k,
        {
            let ghost rest = ord.skip(k as int);
            assert(rest.len() > 0);
            assert(rest[0] == ord[k as int]);
            assert(rest.drop_first() =~= ord.skip(k as int + 1));
            assert(0 <= ord[k as int] < effects.len());
            let effect = &self.effects[order[k]];
            assert(effect@ == effects[ord[k as int]]);
            let taken = match &effect.exclusive_group {
                Some(group) => has_tag(&used_groups, group),
                None => false,
            };
            if !taken && effect.conditions_met(ctx) {
                assert(run.applies(effect@, ctx@));
                if !state.try_apply(&effect.op) {
                    *state = before;
                    return None;
                }
                let ghost recorded = applied@;
                applied.push(effect.id.clone());
                assert(tags_of(applied@) =~= tags_of(recorded).push(effect.id@));
                match &effect.exclusive_group {
                    Some(group) => {
                        let ghost held = used_groups@;
                        used_groups.push(group.clone());
                        assert(tags_of(used_groups@) =~= tags_of(held).push(group@));
                        assert forall|g: Seq<char>|
                            run.used_groups.insert(group@).contains(g) <==> tags_of(
                                used_groups@,
                            ).contains(g) by {
                            if tags_of(held).contains(g) {
                                let j = choose|j: int| 0 <= j < held.len() && tags_of(held)[j] == g;
                                assert(tags_of(used_groups@)[j] == g);
                            }
                            if g == group@ {
                                assert(tags_of(used_groups@)[held.len() as int] == g);
                            }
                        }
                    },
                    None => {},
                }
            } else {
                assert(!run.applies(effect@, ctx@));
            }
            proof {
                run = run.step(effect@, ctx@);
            }
            k += 1;
        }
        assert(ord.skip(k as int).len() == 0);
        Some(applied)
    }

    /// Applies the effects of a stage to the registers and returns the ids of
    /// the effects applied, in the order of their application.
    ///
    /// The effects are walked in ascending priority, registration order
    /// deciding ties. An effect is passed over if its exclusive group was
    /// taken earlier in this walk or if its condition does not hold of `ctx`;
    /// otherwise its operation changes `state`, its id is recorded, and its
    /// exclusive group is taken for the rest of this walk.
    pub fn apply_stage(&self, stage: Stage, ctx: &EffectContext, state: &mut EngineState) -> (applied: Vec<String>)
        requires
            stage_admitted(self@, stage, ctx@, old(state)@),
        ensures
            final(state)@ == run_stage(self@, stage, ctx@, old(state)@).registers,
            tags_of(applied@) == run_stage(self@, stage, ctx@, old(state)@).applied,
    {
        match self.try_apply_stage(stage, ctx, state) {
            Some(applied) => applied,
            None => vstd::pervasive::unreached(),
        }
    }
}

/// The condition of a built-in effect: melee combat, and what else is given.
pub open spec fn melee_condition(on_slayer_task: Option<bool>, target_attributes: Seq<Seq<char>>) -> ConditionView {
    ConditionView {
        on_slayer_task,
        in_wilderness: None,
        target_attributes,
        combat: Some("melee"@),
    }
}

/// The built-in effects, in the order of their registration:
/// the slayer helm (7/6 of the maximum hit on a slayer task) and the salve
/// amulet (6/5 of the maximum hit against the undead), which exclude each
/// other, and the two halves of the void knight set (11/10 of the effective
/// strength and of the effective attack).
pub open spec fn spec_default_effects() -> Seq<EffectView> {
    seq![
        EffectView {
            id: "slayer_helm_melee"@,
            name: "Slayer helm (i) - Melee"@,
            stage: Stage::PostMaxHit,
            priority: 50,
            exclusive_group: Some("slayer_salve"@),
            condition: melee_condition(Some(true), Seq::empty()),
            op: Op::Multiply { stat: Stat::MaxHit, num: 7, den: 6 },
        },
        EffectView {
            id: "salve_ei_melee"@,
            name: "Salve amulet (ei) - Melee"@,
            stage: Stage::PostMaxHit,
            priority: 50,
            exclusive_group: Some("slayer_salve"@),
            condition: melee_condition(None, seq!["undead"@]),
            op: Op::Multiply { stat: Stat::MaxHit, num: 6, den: 5 },
        },
        EffectView {
            id: "void_melee_str"@,
            name: "Void Knight - Melee Strength"@,
            stage: Stage::PostEffectiveLevel,
            priority: 100,
            exclusive_group: None,
            condition: melee_condition(None, Seq::empty()),
            op: Op::Multiply { stat: Stat::EffectiveStrength, num: 11, den: 10 },
        },
        EffectView {
            id: "void_melee_atk"@,
            name: "Void Knight - Melee Attack"@,
            stage: Stage::PostEffectiveLevel,
            priority: 100,
            exclusive_group: None,
            condition: melee_condition(None, Seq::empty()),
            op: Op::Multiply { stat: Stat::EffectiveAttack, num: 11, den: 10 },
        },
    ]
}

/// A condition that asks for melee combat and for what else is given.
fn melee_only(on_slayer_task: Option<bool>, target_attributes: Vec<String>) -> (condition: Condition)
    ensures
        condition@ == melee_condition(on_slayer_task, tags_of(target_attributes@)),
{
    Condition {
        on_slayer_task,
        in_wilderness: None,
        target_attributes,
        combat: Some(String::from_str("melee")),
    }
}

/// A catalog that holds the built-in effects.
pub fn default_effects() -> (registry: EffectRegistry)
    ensures
        registry@ == spec_default_effects(),
{
    let mut registry = EffectRegistry::new();

    // Slayer helm (i): 7/6 of the maximum hit on a slayer task.
    let no_attributes: Vec<String> = Vec::new();
    assert(tags_of(no_attributes@) =~= Seq::empty());
    registry.register(
        Effect {
            id: String::from_str("slayer_helm_melee"),
            name: String::from_str("Slayer helm (i) - Melee"),
            stage: Stage::PostMaxHit,
            priority: 50,
            exclusive_group: Some(String::from_str("slayer_salve")),
            condition: melee_only(Some(true), no_attributes),
            op: Op::Multiply { stat: Stat::MaxHit, num: 7, den: 6 },
        },
    );

    // Salve amulet (ei): 6/5 of the maximum hit against the undead.
    let mut undead: Vec<String> = Vec::new();
    undead.push(String::from_str("undead"));
    assert(tags_of(undead@) =~= seq!["undead"@]);
    registry.register(
        Effect {
            id: String::from_str("salve_ei_melee"),
            name: String::from_str("Salve amulet (ei) - Melee"),
            stage: Stage::PostMaxHit,
            priority: 50,
            exclusive_group: Some(String::from_str("slayer_salve")),
            condition: melee_only(None, undead),
            op: Op::Multiply { stat: Stat::MaxHit, num: 6, den: 5 },
        },
    );

    // Void knight set: 11/10 of the effective strength and attack.
    let no_attributes: Vec<String> = Vec::new();
    assert(tags_of(no_attributes@) =~= Seq::empty());
    registry.register(
        Effect {
            id: String::from_str("void_melee_str"),
            name: String::from_str("Void Knight - Melee Strength"),
            stage: Stage::PostEffectiveLevel,
            priority: 100,
            exclusive_group: None,
            condition: melee_only(None, no_attributes),
            op: Op::Multiply { stat: Stat::EffectiveStrength, num: 11, den: 10 },
        },
    );
    let no_attributes: Vec<String> = Vec::new();
    assert(tags_of(no_attributes@) =~= Seq::empty());
    registry.register(
        Effect {
            id: String::from_str("void_melee_atk"),
            name: String::from_str("Void Knight - Melee Attack"),
            stage: Stage::PostEffectiveLevel,
            priority: 100,
            exclusive_group: None,
            condition: melee_only(None, no_attributes),
            op: Op::Multiply { stat: Stat::EffectiveAttack, num: 11, den: 10 },
        },
    );
    assert(registry@ =~= spec_default_effects());
    registry
}

/// Of two effects of one stage that share an exclusive group and whose
/// conditions both hold, only the one of lower priority is applied: the
/// registers are those after its operation alone and its id alone is
/// recorded, in whichever order the two were registered.
pub proof fn lemma_exclusive_pair(first: EffectView, second: EffectView, ctx: ContextView, registers: Registers)
    requires
        first.stage == second.stage,
        first.exclusive_group is Some,
        first.exclusive_group == second.exclusive_group,
        first.priority < second.priority,
        first.condition.met(ctx),
        second.condition.met(ctx),
    ensures
        run_stage(seq![first, second], first.stage, ctx, registers).registers == registers.apply(
            first.op,
        ),
        run_stage(seq![first, second], first.stage, ctx, registers).applied == seq![first.id],
        run_stage(seq![second, first], first.stage, ctx, registers).registers == registers.apply(
            first.op,
        ),
        run_stage(seq![second, first], first.stage, ctx, registers).applied == seq![first.id],
{
    let stage = first.stage;
    let start = StageRun::start(registers);
    let after = start.step(first, ctx);
    assert(start.applies(first, ctx));
    assert(!after.applies(second, ctx));
    assert(after.applied =~= seq![first.id]);

    let forward = seq![first, second];
    let forward_order = seq![0int, 1int];
    assert(is_stage_order(forward, stage, forward_order)) by {
        assert forall|i: int|
            0 <= i < forward.len() && (#[trigger] forward[i]).stage == stage implies forward_order.contains(
            i,
        ) by {
            assert(forward_order[i] == i);
        }
    }
    lemma_stage_order_unique(forward, stage, forward_order);
    lemma_walk_of_two(start, forward, 0, 1, ctx);

    let backward = seq![second, first];
    let backward_order = seq![1int, 0int];
    assert(is_stage_order(backward, stage, backward_order)) by {
        assert forall|i: int|
            0 <= i < backward.len() && (#[trigger] backward[i]).stage == stage implies backward_order.contains(
            i,
        ) by {
            assert(backward_order[1 - i] == i);
        }
    }
    lemma_stage_order_unique(backward, stage, backward_order);
    lemma_walk_of_two(start, backward, 1, 0, ctx);
}

/// A walk over two indices is two steps.
proof fn lemma_walk_of_two(run: StageRun, effects: Seq<EffectView>, i: int, j: int, ctx: ContextView)
    ensures
        run.walk(effects, seq![i, j], ctx) == run.step(effects[i], ctx).step(effects[j], ctx),
{
    let order = seq![i, j];
    let rest = order.drop_first();
    assert(rest =~= seq![j]);
    assert(rest.drop_first() =~= Seq::<int>::empty());
    reveal_with_fuel(StageRun::walk, 3);
}

} // verus!

//! Data model: the documents a caller supplies, and the resolved player,
//! build and target that an evaluation consumes.

use vstd::prelude::*;
use crate::ratio::{Fraction, Ratio};
use crate::text::{has_tag, tags_of};

verus! {

/// The schema version that every input document must carry.
pub const SCHEMA_VERSION_V1: u32 = 1;

/// A player document.
#[derive(Debug, Clone)]
pub struct PlayerInput {
    pub schema_version: u32,
    pub skills: SkillsInput,
    /// Prayer names with their switch, in any order; a prayer counts as
    /// active when some entry names it with `true`.
    pub prayers: Vec<(String, bool)>,
    /// Optional boosts; an absent boost is no boost.
    pub boosts: BoostsInput,
    /// Context flags.
    pub flags: FlagsInput,
}

/// Base skill levels.
#[derive(Debug, Clone)]
pub struct SkillsInput {
    pub attack: u8,
    pub strength: u8,
    pub defence: u8,
    pub ranged: u8,
    pub magic: u8,
    pub prayer: u8,
    pub hitpoints: u8,
}

/// The boosts in effect, one per combat style.
#[derive(Debug, Clone)]
pub struct BoostsInput {
    pub melee: Option<BoostSpec>,
    pub ranged: Option<BoostSpec>,
    pub magic: Option<BoostSpec>,
}

impl Default for BoostsInput {
    fn default() -> (r: BoostsInput)
        ensures
            r.melee is None,
            r.ranged is None,
            r.magic is None,
    {
        BoostsInput { melee: None, ranged: None, magic: None }
    }
}

/// A boost, named by its potion.
#[derive(Debug, Clone)]
pub struct BoostSpec {
    pub kind: String,
}

/// Context flags of a player.
#[derive(Debug, Clone)]
pub struct FlagsInput {
    pub on_slayer_task: bool,
    pub in_wilderness: bool,
}

impl Default for FlagsInput {
    fn default() -> (r: FlagsInput)
        ensures
            !r.on_slayer_task,
            !r.in_wilderness,
    {
        FlagsInput { on_slayer_task: false, in_wilderness: false }
    }
}

/// A build document.
#[derive(Debug, Clone)]
pub struct BuildInput {
    pub schema_version: u32,
    pub equipment: EquipmentInput,
    pub style: StyleInput,
}

/// Item ids by equipment slot. The weapon is mandatory.
#[derive(Debug, Clone)]
pub struct EquipmentInput {
    pub weapon: u32,
    pub head: Option<u32>,
    pub cape: Option<u32>,
    pub neck: Option<u32>,
    pub ammo: Option<u32>,
    pub body: Option<u32>,
    pub shield: Option<u32>,
    pub legs: Option<u32>,
    pub hands: Option<u32>,
    pub feet: Option<u32>,
    pub ring: Option<u32>,
}

/// How the weapon is used.
#[derive(Debug, Clone)]
pub struct StyleInput {
    pub combat: Combat,
    pub attack_type: AttackType,
    pub stance: Stance,
    pub special_attack: bool,
}

/// Combat style.
#[derive(Debug, Copy, Clone, PartialEq, Eq, Structural)]
pub enum Combat {
    Melee,
    Ranged,
    Magic,
}

/// Attack type; it keys both the attack bonuses of equipment and the defence
/// bonuses of a target.
#[derive(Debug, Copy, Clone, PartialEq, Eq, Structural)]
pub enum AttackType {
    Stab,
    Slash,
    Crush,
    Ranged,
    Magic,
}

/// Weapon stance.
#[derive(Debug, Copy, Clone, PartialEq, Eq, Structural)]
pub enum Stance {
    Accurate,
    Aggressive,
    Defensive,
    Controlled,
    Rapid,
    Longrange,
}

/// A target document: a monster by id, possibly overridden, or a custom
/// target.
#[derive(Debug, Clone)]
pub enum TargetInput {
    ById(TargetByIdInput),
    Custom(TargetCustomInput),
}

/// A target given by monster id.
#[derive(Debug, Clone)]
pub struct TargetByIdInput {
    pub schema_version: u32,
    pub monster_id: u32,
    pub overrides: Option<TargetOverrides>,
}

/// A target given in full.
#[derive(Debug, Clone)]
pub struct TargetCustomInput {
    pub schema_version: u32,
    pub custom: CustomTarget,
}

/// Changes to a monster looked up by id.
#[derive(Debug, Clone)]
pub struct TargetOverrides {
    pub attributes_add: Vec<String>,
    pub attributes_remove: Vec<String>,
    pub attack_level: Option<u16>,
    pub strength_level: Option<u16>,
    pub defence_level: Option<u16>,
    pub magic_level: Option<u16>,
    pub ranged_level: Option<u16>,
    pub hitpoints_level: Option<u16>,
    pub defence_bonuses: Option<DefenceBonusesPartial>,
}

impl Default for TargetOverrides {
    fn default() -> (r: TargetOverrides)
        ensures
            r.attributes_add@.len() == 0,
            r.attributes_remove@.len() == 0,
            r.attack_level is None,
            r.strength_level is None,
            r.defence_level is None,
            r.magic_level is None,
            r.ranged_level is None,
            r.hitpoints_level is None,
            r.defence_bonuses is None,
    {
        TargetOverrides {
            attributes_add: Vec::new(),
            attributes_remove: Vec::new(),
            attack_level: None,
            strength_level: None,
            defence_level: None,
            magic_level: None,
            ranged_level: None,
            hitpoints_level: None,
            defence_bonuses: None,
        }
    }
}

/// Defence bonuses to replace, field by field.
#[derive(Debug, Clone)]
pub struct DefenceBonusesPartial {
    pub stab: Option<i32>,
    pub slash: Option<i32>,
    pub crush: Option<i32>,
    pub magic: Option<i32>,
    pub ranged: Option<i32>,
}

impl Default for DefenceBonusesPartial {
    fn default() -> (r: DefenceBonusesPartial)
        ensures
            r.stab is None,
            r.slash is None,
            r.crush is None,
            r.magic is None,
            r.ranged is None,
    {
        DefenceBonusesPartial { stab: None, slash: None, crush: None, magic: None, ranged: None }
    }
}

/// A target described without reference to a monster.
#[derive(Debug, Clone)]
pub struct CustomTarget {
    pub name: String,
    pub levels: CustomTargetLevels,
    pub defence_bonuses: DefenceBonuses,
    pub attributes: Vec<String>,
}

/// Levels of a custom target.
#[derive(Debug, Clone)]
pub struct CustomTargetLevels {
    pub defence: u16,
    pub hitpoints: u16,
    pub attack: Option<u16>,
    pub strength: Option<u16>,
    pub magic: Option<u16>,
    pub ranged: Option<u16>,
}

/// Defence bonuses of a target, one per attack type.
#[derive(Debug, Clone, Copy)]
pub struct DefenceBonuses {
    pub stab: i32,
    pub slash: i32,
    pub crush: i32,
    pub magic: i32,
    pub ranged: i32,
}

impl Default for DefenceBonuses {
    fn default() -> (r: DefenceBonuses)
        ensures
            r == (DefenceBonuses { stab: 0, slash: 0, crush: 0, magic: 0, ranged: 0 }),
    {
        DefenceBonuses { stab: 0, slash: 0, crush: 0, magic: 0, ranged: 0 }
    }
}

/// A player as an evaluation sees it.
#[derive(Debug, Clone, Copy)]
pub struct PlayerState {
    /// Base skill levels.
    pub attack: u8,
    pub strength: u8,
    pub defence: u8,
    pub ranged: u8,
    pub magic: u8,
    pub prayer: u8,
    pub hitpoints: u8,
    /// Prayer multipliers as (numerator, denominator).
    pub prayer_attack_mult: (i32, i32),
    pub prayer_strength_mult: (i32, i32),
    pub prayer_defence_mult: (i32, i32),
    /// Flat potion boosts.
    pub potion_attack_boost: i32,
    pub potion_strength_boost: i32,
    pub potion_defence_boost: i32,
    /// Context flags.
    pub on_slayer_task: bool,
    pub in_wilderness: bool,
}

impl Default for PlayerState {
    /// All skills at 99, no prayer, no potion, no flag.
    fn default() -> (r: PlayerState)
        ensures
            r == (PlayerState {
                attack: 99,
                strength: 99,
                defence: 99,
                ranged: 99,
                magic: 99,
                prayer: 99,
                hitpoints: 99,
                prayer_attack_mult: (1, 1),
                prayer_strength_mult: (1, 1),
                prayer_defence_mult: (1, 1),
                potion_attack_boost: 0,
                potion_strength_boost: 0,
                potion_defence_boost: 0,
                on_slayer_task: false,
                in_wilderness: false,
            }),
    {
        PlayerState {
            attack: 99,
            strength: 99,
            defence: 99,
            ranged: 99,
            magic: 99,
            prayer: 99,
            hitpoints: 99,
            prayer_attack_mult: (1, 1),
            prayer_strength_mult: (1, 1),
            prayer_defence_mult: (1, 1),
            potion_attack_boost: 0,
            potion_strength_boost: 0,
            potion_defence_boost: 0,
            on_slayer_task: false,
            in_wilderness: false,
        }
    }
}

/// The fourteen bonuses of a piece or a set of equipment, as mathematical
/// integers.
pub struct BonusTotals {
    pub attack_stab: int,
    pub attack_slash: int,
    pub attack_crush: int,
    pub attack_magic: int,
    pub attack_ranged: int,
    pub defence_stab: int,
    pub defence_slash: int,
    pub defence_crush: int,
    pub defence_magic: int,
    pub defence_ranged: int,
    pub melee_strength: int,
    pub ranged_strength: int,
    pub magic_damage: int,
    pub prayer: int,
}

impl BonusTotals {
    /// No bonus at all.
    pub open spec fn zero() -> BonusTotals {
        BonusTotals {
            attack_stab: 0,
            attack_slash: 0,
            attack_crush: 0,
            attack_magic: 0,
            attack_ranged: 0,
            defence_stab: 0,
            defence_slash: 0,
            defence_crush: 0,
            defence_magic: 0,
            defence_ranged: 0,
            melee_strength: 0,
            ranged_strength: 0,
            magic_damage: 0,
            prayer: 0,
        }
    }

    /// The field-by-field sum.
    pub open spec fn plus(self, other: BonusTotals) -> BonusTotals {
        BonusTotals {
            attack_stab: self.attack_stab + other.attack_stab,
            attack_slash: self.attack_slash + other.attack_slash,
            attack_crush: self.attack_crush + other.attack_crush,
            attack_magic: self.attack_magic + other.attack_magic,
            attack_ranged: self.attack_ranged + other.attack_ranged,
            defence_stab: self.defence_stab + other.defence_stab,
            defence_slash: self.defence_slash + other.defence_slash,
            defence_crush: self.defence_crush + other.defence_crush,
            defence_magic: self.defence_magic + other.defence_magic,
            defence_ranged: self.defence_ranged + other.defence_ranged,
            melee_strength: self.melee_strength + other.melee_strength,
            ranged_strength: self.ranged_strength + other.ranged_strength,
            magic_damage: self.magic_damage + other.magic_damage,
            prayer: self.prayer + other.prayer,
        }
    }

    /// Every field is representable as an `i32`.
    pub open spec fn representable(self) -> bool {
        &&& i32::MIN <= self.attack_stab <= i32::MAX
        &&& i32::MIN <= self.attack_slash <= i32::MAX
        &&& i32::MIN <= self.attack_crush <= i32::MAX
        &&& i32::MIN <= self.attack_magic <= i32::MAX
        &&& i32::MIN <= self.attack_ranged <= i32::MAX
        &&& i32::MIN <= self.defence_stab <= i32::MAX
        &&& i32::MIN <= self.defence_slash <= i32::MAX
        &&& i32::MIN <= self.defence_crush <= i32::MAX
        &&& i32::MIN <= self.defence_magic <= i32::MAX
        &&& i32::MIN <= self.defence_ranged <= i32::MAX
        &&& i32::MIN <= self.melee_strength <= i32::MAX
        &&& i32::MIN <= self.ranged_strength <= i32::MAX
        &&& i32::MIN <= self.magic_damage <= i32::MAX
        &&& i32::MIN <= self.prayer <= i32::MAX
    }

    /// The attack bonus that belongs to an attack type.
    pub open spec fn attack_bonus_for(self, attack_type: AttackType) -> int {
        match attack_type {
            AttackType::Stab => self.attack_stab,
            AttackType::Slash => self.attack_slash,
            AttackType::Crush => self.attack_crush,
            AttackType::Magic => self.attack_magic,
            AttackType::Ranged => self.attack_ranged,
        }
    }
}

/// The sum of sets of bonuses, taken in the order of the sequence.
pub open spec fn total_of(sets: Seq<BonusTotals>) -> BonusTotals
    decreases sets.len(),
{
    if sets.len() == 0 {
        BonusTotals::zero()
    } else {
        total_of(sets.drop_last()).plus(sets.last())
    }
}

/// Adding bonuses is commutative.
pub proof fn lemma_plus_commutative(a: BonusTotals, b: BonusTotals)
    ensures
        a.plus(b) == b.plus(a),
{
}

/// Adding bonuses is associative.
pub proof fn lemma_plus_associative(a: BonusTotals, b: BonusTotals, c: BonusTotals)
    ensures
        a.plus(b).plus(c) == a.plus(b.plus(c)),
{
}

/// Adding no bonus changes nothing.
pub proof fn lemma_plus_zero(a: BonusTotals)
    ensures
        a.plus(BonusTotals::zero()) == a,
        BonusTotals::zero().plus(a) == a,
{
}

/// The sum of a sequence is the sum of the sequence without one of its
/// entries, plus that entry.
proof fn lemma_total_without(sets: Seq<BonusTotals>, i: int)
    requires
        0 <= i < sets.len(),
    ensures
        total_of(sets) == total_of(sets.remove(i)).plus(sets[i]),
    decreases sets.len(),
{
    if i == sets.len() - 1 {
        assert(sets.remove(i) =~= sets.drop_last());
    } else {
        lemma_total_without(sets.drop_last(), i);
        assert(sets.remove(i).drop_last() =~= sets.drop_last().remove(i));
        assert(sets.remove(i).last() == sets.last());
        assert(sets.drop_last()[i] == sets[i]);
    }
}

/// Summing sets of bonuses in any order gives the same aggregate: two
/// sequences that hold the same sets, each as often as the other, have the
/// same sum.
pub proof fn lemma_total_any_order(a: Seq<BonusTotals>, b: Seq<BonusTotals>)
    requires
        a.to_multiset() == b.to_multiset(),
    ensures
        total_of(a) == total_of(b),
    decreases a.len(),
{
    a.to_multiset_ensures();
    b.to_multiset_ensures();
    assert(a.len() == b.len());
    if a.len() > 0 {
        let x = a.last();
        let rest = a.drop_last();
        assert(a.contains(x));
        assert(b.to_multiset().count(x) > 0);
        assert(b.contains(x));
        let i = choose|i: int| 0 <= i < b.len() && b[i] == x;
        assert(rest =~= a.remove(a.len() - 1));
        assert(rest.to_multiset() == a.to_multiset().remove(x));
        assert(b.remove(i).to_multiset() == b.to_multiset().remove(x));
        lemma_total_any_order(rest, b.remove(i));
        lemma_total_without(b, i);
    }
}

/// Aggregated equipment bonuses: the sum over all equipped items.
#[derive(Debug, Clone, Copy)]
pub struct EquipmentBonuses {
    pub attack_stab: i32,
    pub attack_slash: i32,
    pub attack_crush: i32,
    pub attack_magic: i32,
    pub attack_ranged: i32,
    pub defence_stab: i32,
    pub defence_slash: i32,
    pub defence_crush: i32,
    pub defence_magic: i32,
    pub defence_ranged: i32,
    pub melee_strength: i32,
    pub ranged_strength: i32,
    /// In percentage points.
    pub magic_damage: i32,
    pub prayer: i32,
}

impl View for EquipmentBonuses {
    type V = BonusTotals;

    open spec fn view(&self) -> BonusTotals {
        BonusTotals {
            attack_stab: self.attack_stab as int,
            attack_slash: self.attack_slash as int,
            attack_crush: self.attack_crush as int,
            attack_magic: self.attack_magic as int,
            attack_ranged: self.attack_ranged as int,
            defence_stab: self.defence_stab as int,
            defence_slash: self.defence_slash as int,
            defence_crush: self.defence_crush as int,
            defence_magic: self.defence_magic as int,
            defence_ranged: self.defence_ranged as int,
            melee_strength: self.melee_strength as int,
            ranged_strength: self.ranged_strength as int,
            magic_damage: self.magic_damage as int,
            prayer: self.prayer as int,
        }
    }
}

impl Default for EquipmentBonuses {
    fn default() -> (r: EquipmentBonuses)
        ensures
            r@ == BonusTotals::zero(),
    {
        EquipmentBonuses {
            attack_stab: 0,
            attack_slash: 0,
            attack_crush: 0,
            attack_magic: 0,
            attack_ranged: 0,
            defence_stab: 0,
            defence_slash: 0,
            defence_crush: 0,
            defence_magic: 0,
            defence_ranged: 0,
            melee_strength: 0,
            ranged_strength: 0,
            magic_damage: 0,
            prayer: 0,
        }
    }
}

/// A build as an evaluation sees it.
#[derive(Debug, Clone)]
pub struct BuildResolved {
    pub bonuses: EquipmentBonuses,
    /// Attack interval in game ticks.
    pub attack_speed: u8,
    pub combat: Combat,
    pub attack_type: AttackType,
    pub stance: Stance,
}

impl Default for BuildResolved {
    /// No equipment bonus, four ticks, melee, slash, accurate.
    fn default() -> (r: BuildResolved)
        ensures
            r.bonuses@ == BonusTotals::zero(),
            r.attack_speed == 4,
            r.combat == Combat::Melee,
            r.attack_type == AttackType::Slash,
            r.stance == Stance::Accurate,
    {
        BuildResolved {
            bonuses: EquipmentBonuses::default(),
            attack_speed: 4,
            combat: Combat::Melee,
            attack_type: AttackType::Slash,
            stance: Stance::Accurate,
        }
    }
}

/// A target as an evaluation sees it.
#[derive(Debug, Clone)]
pub struct TargetResolved {
    pub name: String,
    pub hitpoints: u16,
    pub defence_level: u16,
    pub defence_bonuses: DefenceBonuses,
    /// Attribute tags in the order in which they were added.
    pub attributes: Vec<String>,
}

/// A target as mathematical values.
pub struct TargetView {
    pub name: Seq<char>,
    pub hitpoints: u16,
    pub defence_level: u16,
    pub defence_bonuses: DefenceBonuses,
    pub attributes: Seq<Seq<char>>,
}

impl View for TargetResolved {
    type V = TargetView;

    open spec fn view(&self) -> TargetView {
        TargetView {
            name: self.name@,
            hitpoints: self.hitpoints,
            defence_level: self.defence_level,
            defence_bonuses: self.defence_bonuses,
            attributes: tags_of(self.attributes@),
        }
    }
}

/// The tags with `tag` among them: added at the end unless it is there
/// already.
pub open spec fn with_tag(tags: Seq<Seq<char>>, tag: Seq<char>) -> Seq<Seq<char>> {
    if tags.contains(tag) {
        tags
    } else {
        tags.push(tag)
    }
}

/// The tags without `tag`: every occurrence is taken out, and the others
/// keep their order.
pub open spec fn without_tag(tags: Seq<Seq<char>>, tag: Seq<char>) -> Seq<Seq<char>> {
    tags.filter(|other: Seq<char>| other != tag)
}

/// The tags after each of `added` has been added in turn.
pub open spec fn with_tags(tags: Seq<Seq<char>>, added: Seq<Seq<char>>) -> Seq<Seq<char>>
    decreases added.len(),
{
    if added.len() == 0 {
        tags
    } else {
        with_tags(with_tag(tags, added[0]), added.drop_first())
    }
}

/// The tags after each of `removed` has been taken out in turn.
pub open spec fn without_tags(tags: Seq<Seq<char>>, removed: Seq<Seq<char>>) -> Seq<Seq<char>>
    decreases removed.len(),
{
    if removed.len() == 0 {
        tags
    } else {
        without_tags(without_tag(tags, removed[0]), removed.drop_first())
    }
}

impl DefenceBonuses {
    /// The bonuses with every field replaced that `partial` sets.
    pub open spec fn overridden(self, partial: DefenceBonusesPartial) -> DefenceBonuses {
        DefenceBonuses {
            stab: match partial.stab {
                Some(v) => v,
                None => self.stab,
            },
            slash: match partial.slash {
                Some(v) => v,
                None => self.slash,
            },
            crush: match partial.crush {
                Some(v) => v,
                None => self.crush,
            },
            magic: match partial.magic {
                Some(v) => v,
                None => self.magic,
            },
            ranged: match partial.ranged {
                Some(v) => v,
                None => self.ranged,
            },
        }
    }

    /// Replaces every field that `partial` sets.
    pub fn apply_partial(&mut self, partial: &DefenceBonusesPartial)
        ensures
            *final(self) == old(self).overridden(*partial),
    {
        match partial.stab {
            Some(v) => {
                self.stab = v;
            },
            None => {},
        }
        match partial.slash {
            Some(v) => {
                self.slash = v;
            },
            None => {},
        }
        match partial.crush {
            Some(v) => {
                self.crush = v;
            },
            None => {},
        }
        match partial.magic {
            Some(v) => {
                self.magic = v;
            },
            None => {},
        }
        match partial.ranged {
            Some(v) => {
                self.ranged = v;
            },
            None => {},
        }
    }
}

impl TargetView {
    /// The target after overrides: the defence level and each defence bonus
    /// that is set replace the target's own, the attributes to add are added
    /// in turn, and then the attributes to remove are taken out. Name and
    /// hitpoints stay.
    pub open spec fn overridden(self, overrides: TargetOverrides) -> TargetView {
        TargetView {
            name: self.name,
            hitpoints: self.hitpoints,
            defence_level: match overrides.defence_level {
                Some(level) => level,
                None => self.defence_level,
            },
            defence_bonuses: match overrides.defence_bonuses {
                Some(partial) => self.defence_bonuses.overridden(partial),
                None => self.defence_bonuses,
            },
            attributes: without_tags(
                with_tags(self.attributes, tags_of(overrides.attributes_add@)),
                tags_of(overrides.attributes_remove@),
            ),
        }
    }
}

impl TargetResolved {
    /// Adds an attribute unless the target has it already.
    pub fn add_attribute(&mut self, tag: &String)
        ensures
            final(self)@ == (TargetView {
                attributes: with_tag(old(self)@.attributes, tag@),
                ..old(self)@
            }),
    {
        if !has_tag(&self.attributes, tag) {
            let ghost before = self.attributes@;
            self.attributes.push(tag.clone());
            assert(tags_of(self.attributes@) =~= tags_of(before).push(tag@));
        }
    }

    /// Takes an attribute out; a target that does not have it stays as it
    /// is.
    pub fn remove_attribute(&mut self, tag: &String)
        ensures
            final(self)@ == (TargetView {
                attributes: without_tag(old(self)@.attributes, tag@),
                ..old(self)@
            }),
    {
        let ghost wanted = |other: Seq<char>| other != tag@;
        let ghost tags = tags_of(self.attributes@);
        let mut kept: Vec<String> = Vec::new();
        let mut i: usize = 0;
        assert(tags.take(0) =~= Seq::empty());
        assert(tags_of(kept@) =~= Seq::empty());
        proof {
            reveal(Seq::filter);
        }
        assert(tags.take(0).filter(wanted) =~= Seq::empty());
        while i < self.attributes.len()
            invariant
                i <= self.attributes.len(),
                tags == tags_of(self.attributes@),
                wanted == (|other: Seq<char>| other != tag@),
                tags_of(kept@) == tags.take(i as int).filter(wanted),
                *self == *old(self),
            decreases self.attributes.len() - i,
        {
            proof {
                reveal(Seq::filter);
                assert(tags.take(i as int + 1).drop_last() =~= tags.take(i as int));
                assert(tags.take(i as int + 1).last() == self.attributes@[i as int]@);
            }
            if self.attributes[i] != *tag {
                let ghost before = kept@;
                kept.push(self.attributes[i].clone());
                assert(tags_of(kept@) =~= tags_of(before).push(self.attributes@[i as int]@));
            }
            i += 1;
        }
        assert(tags.take(i as int) =~= tags);
        self.attributes = kept;
    }

    /// Applies overrides: replaces the defence level and the defence bonuses
    /// that are set, adds the attributes to add, then takes out the
    /// attributes to remove.
    pub fn apply_overrides(&mut self, overrides: &TargetOverrides)
        ensures
            final(self)@ == old(self)@.overridden(*overrides),
    {
        match overrides.defence_level {
            Some(level) => {
                self.defence_level = level;
            },
            None => {},
        }
        match &overrides.defence_bonuses {
            Some(partial) => {
                self.defence_bonuses.apply_partial(partial);
            },
            None => {},
        }
        let ghost start = self@;
        let ghost added = tags_of(overrides.attributes_add@);
        let mut i: usize = 0;
        assert(added.skip(0) =~= added);
        while i < overrides.attributes_add.len()
            invariant
                i <= overrides.attributes_add.len(),
                added == tags_of(overrides.attributes_add@),
                self@ == (TargetView { attributes: self@.attributes, ..start }),
                with_tags(self@.attributes, added.skip(i as int)) == with_tags(start.attributes, added),
            decreases overrides.attributes_add.len() - i,
        {
            assert(added.skip(i as int)[0] == overrides.attributes_add@[i as int]@);
            assert(added.skip(i as int).drop_first() =~= added.skip(i as int + 1));
            self.add_attribute(&overrides.attributes_add[i]);
            i += 1;
        }
        let ghost removed = tags_of(overrides.attributes_remove@);
        let ghost middle = self@;
        let mut j: usize = 0;
        assert(removed.skip(0) =~= removed);
        while j < overrides.attributes_remove.len()
            invariant
                j <= overrides.attributes_remove.len(),
                removed == tags_of(overrides.attributes_remove@),
                self@ == (TargetView { attributes: self@.attributes, ..middle }),
                without_tags(self@.attributes, removed.skip(j as int)) == without_tags(
                    middle.attributes,
                    removed,
                ),
            decreases overrides.attributes_remove.len() - j,
        {
            assert(removed.skip(j as int)[0] == overrides.attributes_remove@[j as int]@);
            assert(removed.skip(j as int).drop_first() =~= removed.skip(j as int + 1));
            self.remove_attribute(&overrides.attributes_remove[j]);
            j += 1;
        }
    }
}

impl Default for TargetResolved {
    /// A dummy with 100 hitpoints, defence level 1, no bonus and no attribute.
    fn default() -> (r: TargetResolved)
        ensures
            r@ == (TargetView {
                name: "Dummy"@,
                hitpoints: 100,
                defence_level: 1,
                defence_bonuses: DefenceBonuses { stab: 0, slash: 0, crush: 0, magic: 0, ranged: 0 },
                attributes: Seq::empty(),
            }),
    {
        let no_attributes: Vec<String> = Vec::new();
        assert(tags_of(no_attributes@) =~= Seq::empty());
        TargetResolved {
            name: String::from_str("Dummy"),
            hitpoints: 100,
            defence_level: 1,
            defence_bonuses: DefenceBonuses::default(),
            attributes: no_attributes,
        }
    }
}

/// What an evaluation reads: a player, a build and a target.
pub struct EvalContext<'a> {
    pub player: &'a PlayerState,
    pub build: &'a BuildResolved,
    pub target: &'a TargetResolved,
}

/// What an evaluation reads, as mathematical values.
pub struct Scenario {
    pub player: PlayerState,
    pub build: BuildResolved,
    pub target: TargetView,
}

impl<'a> View for EvalContext<'a> {
    type V = Scenario;

    open spec fn view(&self) -> Scenario {
        Scenario { player: *self.player, build: *self.build, target: self.target@ }
    }
}

/// The outcome of an evaluation, as mathematical values.
pub struct Outcome {
    pub dps: Fraction,
    pub max_hit: int,
    pub accuracy: Fraction,
    pub attack_roll: int,
    pub defence_roll: int,
    pub interval_ticks: int,
}

/// The outcome of an evaluation.
#[derive(Debug, Clone)]
pub struct EvalResult {
    /// Expected damage per second.
    pub dps: Ratio,
    pub max_hit: u32,
    /// Chance to hit.
    pub accuracy: Ratio,
    pub attack_roll: u32,
    pub defence_roll: u32,
    pub interval_ticks: u8,
}

impl View for EvalResult {
    type V = Outcome;

    open spec fn view(&self) -> Outcome {
        Outcome {
            dps: self.dps@,
            max_hit: self.max_hit as int,
            accuracy: self.accuracy@,
            attack_roll: self.attack_roll as int,
            defence_roll: self.defence_roll as int,
            interval_ticks: self.interval_ticks as int,
        }
    }
}

impl Default for EvalResult {
    /// Everything zero, at the usual interval of four ticks.
    fn default() -> (r: EvalResult)
        ensures
            r@ == (Outcome {
                dps: Fraction { num: 0, den: 1 },
                max_hit: 0,
                accuracy: Fraction { num: 0, den: 1 },
                attack_roll: 0,
                defence_roll: 0,
                interval_ticks: 4,
            }),
    {
        EvalResult {
            dps: Ratio::zero(),
            max_hit: 0,
            accuracy: Ratio::zero(),
            attack_roll: 0,
            defence_roll: 0,
            interval_ticks: 4,
        }
    }
}

impl PlayerInput {
    /// Accepts the document if it carries the supported schema version.
    pub fn validate_basic(&self) -> (r: Result<(), String>)
        ensures
            r is Ok <==> self.schema_version == SCHEMA_VERSION_V1,
            r matches Err(msg) ==> msg@ == "player.schema_version must be 1"@,
    {
        assert(SCHEMA_VERSION_V1 == 1);
        if self.schema_version != SCHEMA_VERSION_V1 {
            return Err(String::from_str("player.schema_version must be 1"));
        }
        Ok(())
    }
}

impl BuildInput {
    /// Accepts the document if it carries the supported schema version.
    pub fn validate_basic(&self) -> (r: Result<(), String>)
        ensures
            r is Ok <==> self.schema_version == SCHEMA_VERSION_V1,
            r matches Err(msg) ==> msg@ == "build.schema_version must be 1"@,
    {
        assert(SCHEMA_VERSION_V1 == 1);
        if self.schema_version != SCHEMA_VERSION_V1 {
            return Err(String::from_str("build.schema_version must be 1"));
        }
        Ok(())
    }
}

impl TargetInput {
    /// The schema version that the document carries, whichever form it has.
    pub open spec fn spec_schema_version(&self) -> u32 {
        match self {
            TargetInput::ById(t) => t.schema_version,
            TargetInput::Custom(t) => t.schema_version,
        }
    }

    /// Accepts the document if it carries the supported schema version.
    pub fn validate_basic(&self) -> (r: Result<(), String>)
        ensures
            r is Ok <==> self.spec_schema_version() == SCHEMA_VERSION_V1,
            r matches Err(msg) ==> msg@ == "target.schema_version must be 1"@,
    {
        assert(SCHEMA_VERSION_V1 == 1);
        let version: u32 = match self {
            TargetInput::ById(t) => t.schema_version,
            TargetInput::Custom(t) => t.schema_version,
        };
        if version != SCHEMA_VERSION_V1 {
            return Err(String::from_str("target.schema_version must be 1"));
        }
        Ok(())
    }
}

impl Stance {
    /// The (attack, strength) bonus that the stance gives in melee.
    pub open spec fn spec_melee_bonuses(self) -> (int, int) {
        match self {
            Stance::Accurate => (3, 0),
            Stance::Aggressive => (0, 3),
            Stance::Defensive => (0, 0),
            Stance::Controlled => (1, 1),
            Stance::Rapid => (0, 0),
            Stance::Longrange => (0, 0),
        }
    }

    /// The (attack, strength) bonus that the stance gives in melee. The
    /// stances of the other styles give none.
    pub fn melee_bonuses(self) -> (r: (i32, i32))
        ensures
            r.0 == self.spec_melee_bonuses().0,
            r.1 == self.spec_melee_bonuses().1,
    {
        match self {
            Stance::Accurate => (3, 0),
            Stance::Aggressive => (0, 3),
            Stance::Defensive => (0, 0),
            Stance::Controlled => (1, 1),
            Stance::Rapid | Stance::Longrange => (0, 0),
        }
    }
}

} // verus!

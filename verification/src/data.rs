//! Item and monster records, the store that holds them, and the resolution
//! of player, build and target documents into what an evaluation consumes.

use std::collections::HashMap;
use vstd::prelude::*;
use vstd::std_specs::convert::FromSpecImpl;
use crate::model::{
    lemma_total_any_order, total_of, AttackType, BonusTotals, BoostsInput, BuildInput, BuildResolved, Combat, CustomTarget,
    DefenceBonuses, EquipmentBonuses, EquipmentInput, FlagsInput, PlayerState, SkillsInput,
    Stance, TargetInput, TargetResolved, TargetView,
};
use crate::text::{clone_tags, lowercase, same_text, tags_of};

verus! {

/// `std::io::Error`, the error of the operating system that reading a data
/// file gives. Nothing is known of what it holds.
#[verifier::external_type_specification]
#[verifier::external_body]
pub struct ExIoError(std::io::Error);

/// `serde_json::Error`, the error that parsing a data file gives. Nothing is
/// known of what it holds.
#[verifier::external_type_specification]
#[verifier::external_body]
pub struct ExJsonError(serde_json::Error);

/// What can go wrong while data is loaded or looked up.
#[derive(Debug)]
pub enum DataError {
    /// A file could not be read.
    Io(std::io::Error),
    /// A file does not hold the expected JSON.
    Json(serde_json::Error),
    /// The store holds no item of this id.
    ItemNotFound(u32),
    /// The store holds no monster of this id.
    MonsterNotFound(u32),
}

impl From<std::io::Error> for DataError {
    fn from(error: std::io::Error) -> (r: DataError) {
        DataError::Io(error)
    }
}

impl FromSpecImpl<std::io::Error> for DataError {
    open spec fn obeys_from_spec() -> bool {
        true
    }

    open spec fn from_spec(error: std::io::Error) -> DataError {
        DataError::Io(error)
    }
}

impl From<serde_json::Error> for DataError {
    fn from(error: serde_json::Error) -> (r: DataError) {
        DataError::Json(error)
    }
}

impl FromSpecImpl<serde_json::Error> for DataError {
    open spec fn obeys_from_spec() -> bool {
        true
    }

    open spec fn from_spec(error: serde_json::Error) -> DataError {
        DataError::Json(error)
    }
}

/// An item record.
#[derive(Debug, Clone)]
pub struct ItemData {
    pub id: u32,
    pub name: String,
    pub equipable: bool,
    pub equipable_weapon: bool,
    pub equipment: Option<EquipmentData>,
    pub weapon: Option<WeaponData>,
    pub members: bool,
    pub tradeable: bool,
}

/// The equipment part of an item record.
#[derive(Debug, Clone)]
pub struct EquipmentData {
    pub slot: String,
    pub attack_stab: i32,
    pub attack_slash: i32,
    pub attack_crush: i32,
    pub attack_magic: i32,
    pub attack_ranged: i32,
    pub defence_stab: i32,
    pub defence_slash: i32,
    pub defence_crush: i32,
    pub defence_magic: i32,
    pub defence_ranged: i32,
    pub melee_strength: i32,
    pub ranged_strength: i32,
    pub magic_damage: i32,
    pub prayer: i32,
    /// Skill levels that wearing the item requires.
    pub requirements: Option<HashMap<String, u32>>,
}

/// The weapon part of an item record.
#[derive(Debug, Clone)]
pub struct WeaponData {
    /// Attack interval in game ticks.
    pub attack_speed: u8,
    pub weapon_type: String,
    pub stances: Vec<StanceData>,
}

/// One stance of a weapon.
#[derive(Debug, Clone)]
pub struct StanceData {
    pub attack_style: String,
    pub attack_type: String,
    pub combat_style: String,
    pub experience: String,
    pub boosts: Option<String>,
}

/// A monster record.
#[derive(Debug, Clone)]
pub struct MonsterData {
    pub id: u32,
    pub name: String,
    pub hitpoints: u16,
    pub attack_level: u16,
    pub strength_level: u16,
    pub defence_level: u16,
    pub magic_level: u16,
    pub ranged_level: u16,
    pub defence_stab: i32,
    pub defence_slash: i32,
    pub defence_crush: i32,
    pub defence_magic: i32,
    pub defence_ranged: i32,
    pub attributes: Vec<String>,
    pub category: Vec<String>,
    pub slayer_monster: bool,
    pub slayer_level: u8,
    pub combat_level: u16,
    pub attack_speed: u8,
    pub max_hit: u16,
    pub size: u8,
}

/// Items and monsters by id.
#[derive(Debug, Clone)]
pub struct DataStore {
    pub items: HashMap<u32, ItemData>,
    pub monsters: HashMap<u32, MonsterData>,
}

impl Default for DataStore {
    /// The empty store.
    fn default() -> (r: DataStore)
        ensures
            r.items@ == Map::<u32, ItemData>::empty(),
            r.monsters@ == Map::<u32, MonsterData>::empty(),
    {
        DataStore::new()
    }
}

impl DataStore {
    /// The empty store.
    pub fn new() -> (r: DataStore)
        ensures
            r.items@ == Map::<u32, ItemData>::empty(),
            r.monsters@ == Map::<u32, MonsterData>::empty(),
    {
        DataStore { items: HashMap::new(), monsters: HashMap::new() }
    }

    /// Files an item under its id; an item already filed under that id is
    /// replaced.
    pub fn insert_item(&mut self, item: ItemData)
        ensures
            final(self).items@ == old(self).items@.insert(item.id, item),
            final(self).monsters@ == old(self).monsters@,
    {
        broadcast use vstd::std_specs::hash::group_hash_axioms;

        let id: u32 = item.id;
        self.items.insert(id, item);
    }

    /// Files a monster under its id; a monster already filed under that id is
    /// replaced.
    pub fn insert_monster(&mut self, monster: MonsterData)
        ensures
            final(self).monsters@ == old(self).monsters@.insert(monster.id, monster),
            final(self).items@ == old(self).items@,
    {
        broadcast use vstd::std_specs::hash::group_hash_axioms;

        let id: u32 = monster.id;
        self.monsters.insert(id, monster);
    }

    /// The item filed under `id`, or `ItemNotFound(id)` if there is none.
    pub fn get_item(&self, id: u32) -> (r: Result<&ItemData, DataError>)
        ensures
            match r {
                Ok(item) => self.items@.contains_key(id) && *item == self.items@[id],
                Err(error) => !self.items@.contains_key(id) && error == DataError::ItemNotFound(id),
            },
    {
        broadcast use vstd::std_specs::hash::group_hash_axioms;

        match self.items.get(&id) {
            Some(item) => Ok(item),
            None => Err(DataError::ItemNotFound(id)),
        }
    }

    /// The monster filed under `id`, or `MonsterNotFound(id)` if there is
    /// none.
    pub fn get_monster(&self, id: u32) -> (r: Result<&MonsterData, DataError>)
        ensures
            match r {
                Ok(monster) => self.monsters@.contains_key(id) && *monster == self.monsters@[id],
                Err(error) => !self.monsters@.contains_key(id) && error
                    == DataError::MonsterNotFound(id),
            },
    {
        broadcast use vstd::std_specs::hash::group_hash_axioms;

        match self.monsters.get(&id) {
            Some(monster) => Ok(monster),
            None => Err(DataError::MonsterNotFound(id)),
        }
    }
}

impl EquipmentData {
    /// The fourteen bonuses of the record.
    pub open spec fn bonus_totals(&self) -> BonusTotals {
        BonusTotals {
            attack_stab: self.attack_stab as int,
            attack_slash: self.attack_slash as int,
            attack_crush: self.attack_crush as int,
            attack_magic: self.attack_magic as int,
            attack_ranged: self.attack_ranged as int,
            defence_stab: self.defence_stab as int,
            defence_slash: self.defence_slash as int,
            defence_crush: self.defence_crush as int,
            defence_magic: self.defence_magic as int,
            defence_ranged: self.defence_ranged as int,
            melee_strength: self.melee_strength as int,
            ranged_strength: self.ranged_strength as int,
            magic_damage: self.magic_damage as int,
            prayer: self.prayer as int,
        }
    }
}

impl ItemData {
    /// The bonuses that the item gives: those of its equipment part, and none
    /// if it has no such part.
    pub open spec fn bonus_totals(&self) -> BonusTotals {
        match self.equipment {
            Some(equipment) => equipment.bonus_totals(),
            None => BonusTotals::zero(),
        }
    }

    /// The attack interval of the item as a weapon: that of its weapon part,
    /// and four ticks if it has no such part.
    pub open spec fn spec_attack_speed(&self) -> u8 {
        match self.weapon {
            Some(weapon) => weapon.attack_speed,
            None => 4,
        }
    }

    /// The bonuses that the item gives.
    pub fn get_bonuses(&self) -> (bonuses: EquipmentBonuses)
        ensures
            bonuses@ == self.bonus_totals(),
    {
        match &self.equipment {
            Some(eq) => EquipmentBonuses {
                attack_stab: eq.attack_stab,
                attack_slash: eq.attack_slash,
                attack_crush: eq.attack_crush,
                attack_magic: eq.attack_magic,
                attack_ranged: eq.attack_ranged,
                defence_stab: eq.defence_stab,
                defence_slash: eq.defence_slash,
                defence_crush: eq.defence_crush,
                defence_magic: eq.defence_magic,
                defence_ranged: eq.defence_ranged,
                melee_strength: eq.melee_strength,
                ranged_strength: eq.ranged_strength,
                magic_damage: eq.magic_damage,
                prayer: eq.prayer,
            },
            None => EquipmentBonuses::default(),
        }
    }

    /// The attack interval of the item as a weapon, in ticks.
    pub fn get_attack_speed(&self) -> (speed: u8)
        ensures
            speed == self.spec_attack_speed(),
    {
        match &self.weapon {
            Some(weapon) => weapon.attack_speed,
            None => 4,
        }
    }

    /// Whether the record calls the item equipable and has no equipment part.
    pub fn lacks_equipment_data(&self) -> (lacks: bool)
        ensures
            lacks == (self.equipable && self.equipment is None),
    {
        self.equipable && self.equipment.is_none()
    }

    /// Whether the record calls the item a weapon and has no weapon part.
    pub fn lacks_weapon_data(&self) -> (lacks: bool)
        ensures
            lacks == (self.equipable_weapon && self.weapon is None),
    {
        self.equipable_weapon && self.weapon.is_none()
    }
}

impl MonsterData {
    /// The monster as a target: its name, hitpoints, defence level, defence
    /// bonuses and attributes.
    pub open spec fn target_view(&self) -> TargetView {
        TargetView {
            name: self.name@,
            hitpoints: self.hitpoints,
            defence_level: self.defence_level,
            defence_bonuses: DefenceBonuses {
                stab: self.defence_stab,
                slash: self.defence_slash,
                crush: self.defence_crush,
                magic: self.defence_magic,
                ranged: self.defence_ranged,
            },
            attributes: tags_of(self.attributes@),
        }
    }

    /// The monster as a target.
    pub fn to_target_resolved(&self) -> (target: TargetResolved)
        ensures
            target@ == self.target_view(),
    {
        TargetResolved {
            name: self.name.clone(),
            hitpoints: self.hitpoints,
            defence_level: self.defence_level,
            defence_bonuses: DefenceBonuses {
                stab: self.defence_stab,
                slash: self.defence_slash,
                crush: self.defence_crush,
                magic: self.defence_magic,
                ranged: self.defence_ranged,
            },
            attributes: clone_tags(&self.attributes),
        }
    }

    /// Whether the record gives the monster no hitpoints.
    pub fn lacks_hitpoints(&self) -> (lacks: bool)
        ensures
            lacks == (self.hitpoints == 0),
    {
        self.hitpoints == 0
    }
}

impl EquipmentBonuses {
    /// Adds another set of bonuses to this one, field by field.
    pub fn add(&mut self, other: &EquipmentBonuses)
        requires
            old(self)@.plus(other@).representable(),
        ensures
            final(self)@ == old(self)@.plus(other@),
    {
        self.attack_stab = self.attack_stab + other.attack_stab;
        self.attack_slash = self.attack_slash + other.attack_slash;
        self.attack_crush = self.attack_crush + other.attack_crush;
        self.attack_magic = self.attack_magic + other.attack_magic;
        self.attack_ranged = self.attack_ranged + other.attack_ranged;
        self.defence_stab = self.defence_stab + other.defence_stab;
        self.defence_slash = self.defence_slash + other.defence_slash;
        self.defence_crush = self.defence_crush + other.defence_crush;
        self.defence_magic = self.defence_magic + other.defence_magic;
        self.defence_ranged = self.defence_ranged + other.defence_ranged;
        self.melee_strength = self.melee_strength + other.melee_strength;
        self.ranged_strength = self.ranged_strength + other.ranged_strength;
        self.magic_damage = self.magic_damage + other.magic_damage;
        self.prayer = self.prayer + other.prayer;
    }

    /// Whether the sum with another set of bonuses is representable, so that
    /// `add` may be called.
    pub fn can_add(&self, other: &EquipmentBonuses) -> (ok: bool)
        ensures
            ok == self@.plus(other@).representable(),
    {
        self.attack_stab.checked_add(other.attack_stab).is_some()
            && self.attack_slash.checked_add(other.attack_slash).is_some()
            && self.attack_crush.checked_add(other.attack_crush).is_some()
            && self.attack_magic.checked_add(other.attack_magic).is_some()
            && self.attack_ranged.checked_add(other.attack_ranged).is_some()
            && self.defence_stab.checked_add(other.defence_stab).is_some()
            && self.defence_slash.checked_add(other.defence_slash).is_some()
            && self.defence_crush.checked_add(other.defence_crush).is_some()
            && self.defence_magic.checked_add(other.defence_magic).is_some()
            && self.defence_ranged.checked_add(other.defence_ranged).is_some()
            && self.melee_strength.checked_add(other.melee_strength).is_some()
            && self.ranged_strength.checked_add(other.ranged_strength).is_some()
            && self.magic_damage.checked_add(other.magic_damage).is_some()
            && self.prayer.checked_add(other.prayer).is_some()
    }

    /// The attack bonus that belongs to an attack type.
    pub fn attack_bonus_for(&self, attack_type: AttackType) -> (bonus: i32)
        ensures
            bonus == self@.attack_bonus_for(attack_type),
    {
        match attack_type {
            AttackType::Stab => self.attack_stab,
            AttackType::Slash => self.attack_slash,
            AttackType::Crush => self.attack_crush,
            AttackType::Magic => self.attack_magic,
            AttackType::Ranged => self.attack_ranged,
        }
    }
}

impl DefenceBonuses {
    /// The defence bonus that belongs to an attack type.
    pub open spec fn spec_defence_bonus_for(&self, attack_type: AttackType) -> i32 {
        match attack_type {
            AttackType::Stab => self.stab,
            AttackType::Slash => self.slash,
            AttackType::Crush => self.crush,
            AttackType::Magic => self.magic,
            AttackType::Ranged => self.ranged,
        }
    }

    /// The defence bonus that belongs to an attack type.
    pub fn defence_bonus_for(&self, attack_type: AttackType) -> (bonus: i32)
        ensures
            bonus == self.spec_defence_bonus_for(attack_type),
    {
        match attack_type {
            AttackType::Stab => self.stab,
            AttackType::Slash => self.slash,
            AttackType::Crush => self.crush,
            AttackType::Magic => self.magic,
            AttackType::Ranged => self.ranged,
        }
    }
}

/// A multiplier as (numerator, denominator).
pub type Multiplier = (int, int);

/// The attack, strength and defence multipliers of a prayer, by its name in
/// lowercase. A name that is not in the table multiplies by one.
pub open spec fn spec_prayer_multipliers(key: Seq<char>) -> (Multiplier, Multiplier, Multiplier) {
    if key == "piety"@ {
        ((6, 5), (123, 100), (5, 4))
    } else if key == "chivalry"@ {
        ((23, 20), (59, 50), (6, 5))
    } else if key == "ultimate_strength"@ || key == "ultimate strength"@ {
        ((1, 1), (23, 20), (1, 1))
    } else if key == "incredible_reflexes"@ || key == "incredible reflexes"@ {
        ((23, 20), (1, 1), (1, 1))
    } else if key == "steel_skin"@ || key == "steel skin"@ {
        ((1, 1), (1, 1), (23, 20))
    } else {
        ((1, 1), (1, 1), (1, 1))
    }
}

/// The pair of machine integers holds the multiplier.
pub open spec fn holds(pair: (i32, i32), multiplier: Multiplier) -> bool {
    pair.0 == multiplier.0 && pair.1 == multiplier.1
}

/// The attack, strength and defence multipliers of the prayer whose name in
/// lowercase is `key`.
pub fn prayer_multipliers_by_key(key: &str) -> (r: ((i32, i32), (i32, i32), (i32, i32)))
    ensures
        holds(r.0, spec_prayer_multipliers(key@).0),
        holds(r.1, spec_prayer_multipliers(key@).1),
        holds(r.2, spec_prayer_multipliers(key@).2),
{
    if same_text(key, "piety") {
        // 20% attack, 23% strength, 25% defence
        ((6, 5), (123, 100), (5, 4))
    } else if same_text(key, "chivalry") {
        // 15% attack, 18% strength, 20% defence
        ((23, 20), (59, 50), (6, 5))
    } else if same_text(key, "ultimate_strength") || same_text(key, "ultimate strength") {
        ((1, 1), (23, 20), (1, 1))
    } else if same_text(key, "incredible_reflexes") || same_text(key, "incredible reflexes") {
        ((23, 20), (1, 1), (1, 1))
    } else if same_text(key, "steel_skin") || same_text(key, "steel skin") {
        ((1, 1), (1, 1), (23, 20))
    } else {
        ((1, 1), (1, 1), (1, 1))
    }
}

/// The attack, strength and defence multipliers of a prayer, as
/// (numerator, denominator) pairs. Letter case in the name does not matter.
pub fn get_prayer_multipliers(prayer: &str) -> (r: ((i32, i32), (i32, i32), (i32, i32)))
    ensures
        holds(r.0, spec_prayer_multipliers(lowercase(prayer@)).0),
        holds(r.1, spec_prayer_multipliers(lowercase(prayer@)).1),
        holds(r.2, spec_prayer_multipliers(lowercase(prayer@)).2),
{
    let key = prayer.to_lowercase();
    prayer_multipliers_by_key(key.as_str())
}

/// A strong boost: 5 plus 15% of the level, rounded down.
pub open spec fn strong_boost(level: int) -> int {
    5 + (level * 15) / 100
}

/// A plain boost: 3 plus 10% of the level, rounded down.
pub open spec fn plain_boost(level: int) -> int {
    3 + (level * 10) / 100
}

/// The attack boost of a potion, by its name in lowercase, at a base level.
pub open spec fn spec_potion_attack_boost(key: Seq<char>, level: int) -> int {
    if key == "super_combat"@ || key == "super combat"@ || key == "super_attack"@ || key
        == "super attack"@ {
        strong_boost(level)
    } else if key == "attack"@ {
        plain_boost(level)
    } else {
        0
    }
}

/// The strength boost of a potion, by its name in lowercase, at a base level.
pub open spec fn spec_potion_strength_boost(key: Seq<char>, level: int) -> int {
    if key == "super_combat"@ || key == "super combat"@ || key == "super_strength"@ || key
        == "super strength"@ {
        strong_boost(level)
    } else if key == "strength"@ {
        plain_boost(level)
    } else {
        0
    }
}

/// The defence boost of a potion, by its name in lowercase, at a base level.
pub open spec fn spec_potion_defence_boost(key: Seq<char>, level: int) -> int {
    if key == "super_combat"@ || key == "super combat"@ || key == "super_defence"@ || key
        == "super defence"@ {
        strong_boost(level)
    } else if key == "defence"@ {
        plain_boost(level)
    } else {
        0
    }
}

/// 5 plus 15% of the level, rounded down.
fn strong_boost_of(base_level: u8) -> (boost: i32)
    ensures
        boost == strong_boost(base_level as int),
{
    let level: i32 = base_level as i32;
    5 + (level * 15) / 100
}

/// 3 plus 10% of the level, rounded down.
fn plain_boost_of(base_level: u8) -> (boost: i32)
    ensures
        boost == plain_boost(base_level as int),
{
    let level: i32 = base_level as i32;
    3 + (level * 10) / 100
}

/// The attack boost, at a base level, of the potion whose name in lowercase
/// is `key`.
pub fn potion_attack_boost_by_key(key: &str, base_level: u8) -> (boost: i32)
    ensures
        boost == spec_potion_attack_boost(key@, base_level as int),
{
    if same_text(key, "super_combat") || same_text(key, "super combat") || same_text(
        key,
        "super_attack",
    ) || same_text(key, "super attack") {
        strong_boost_of(base_level)
    } else if same_text(key, "attack") {
        plain_boost_of(base_level)
    } else {
        0
    }
}

/// The strength boost, at a base level, of the potion whose name in
/// lowercase is `key`.
pub fn potion_strength_boost_by_key(key: &str, base_level: u8) -> (boost: i32)
    ensures
        boost == spec_potion_strength_boost(key@, base_level as int),
{
    if same_text(key, "super_combat") || same_text(key, "super combat") || same_text(
        key,
        "super_strength",
    ) || same_text(key, "super strength") {
        strong_boost_of(base_level)
    } else if same_text(key, "strength") {
        plain_boost_of(base_level)
    } else {
        0
    }
}

/// The defence boost, at a base level, of the potion whose name in lowercase
/// is `key`.
pub fn potion_defence_boost_by_key(key: &str, base_level: u8) -> (boost: i32)
    ensures
        boost == spec_potion_defence_boost(key@, base_level as int),
{
    if same_text(key, "super_combat") || same_text(key, "super combat") || same_text(
        key,
        "super_defence",
    ) || same_text(key, "super defence") {
        strong_boost_of(base_level)
    } else if same_text(key, "defence") {
        plain_boost_of(base_level)
    } else {
        0
    }
}

/// The attack boost of a potion at a base level. Letter case in the name
/// does not matter; a potion that does not boost attack gives zero.
pub fn get_potion_attack_boost(potion: &str, base_level: u8) -> (boost: i32)
    ensures
        boost == spec_potion_attack_boost(lowercase(potion@), base_level as int),
{
    let key = potion.to_lowercase();
    potion_attack_boost_by_key(key.as_str(), base_level)
}

/// The strength boost of a potion at a base level. Letter case in the name
/// does not matter; a potion that does not boost strength gives zero.
pub fn get_potion_strength_boost(potion: &str, base_level: u8) -> (boost: i32)
    ensures
        boost == spec_potion_strength_boost(lowercase(potion@), base_level as int),
{
    let key = potion.to_lowercase();
    potion_strength_boost_by_key(key.as_str(), base_level)
}

/// The defence boost of a potion at a base level. Letter case in the name
/// does not matter; a potion that does not boost defence gives zero.
pub fn get_potion_defence_boost(potion: &str, base_level: u8) -> (boost: i32)
    ensures
        boost == spec_potion_defence_boost(lowercase(potion@), base_level as int),
{
    let key = potion.to_lowercase();
    potion_defence_boost_by_key(key.as_str(), base_level)
}

/// The three skills that prayers and potions boost in melee.
pub enum MeleeSkill {
    Attack,
    Strength,
    Defence,
}

/// The multiplier that the prayer of this name gives to a skill.
pub open spec fn multiplier_for(name: Seq<char>, skill: MeleeSkill) -> Multiplier {
    let all = spec_prayer_multipliers(lowercase(name));
    match skill {
        MeleeSkill::Attack => all.0,
        MeleeSkill::Strength => all.1,
        MeleeSkill::Defence => all.2,
    }
}

/// `a` is the greater multiplier.
pub open spec fn exceeds(a: Multiplier, b: Multiplier) -> bool {
    a.0 * b.1 > b.0 * a.1
}

/// `best` is the greatest multiplier for a skill among one and those of the
/// active prayers: it is one of them, and none of them exceeds it.
pub open spec fn is_best_multiplier(prayers: Seq<(String, bool)>, skill: MeleeSkill, best: Multiplier) -> bool {
    &&& best == (1int, 1int) || exists|i: int|
        0 <= i < prayers.len() && (#[trigger] prayers[i]).1 && multiplier_for(prayers[i].0@, skill)
            == best
    &&& !exceeds((1, 1), best)
    &&& forall|i: int|
        0 <= i < prayers.len() && (#[trigger] prayers[i]).1 ==> !exceeds(
            multiplier_for(prayers[i].0@, skill),
            best,
        )
}

/// The greatest multiplier is one only: the prayers decide it, whatever
/// their order.
pub proof fn lemma_best_multiplier_unique(
    prayers: Seq<(String, bool)>,
    skill: MeleeSkill,
    a: Multiplier,
    b: Multiplier,
)
    requires
        is_best_multiplier(prayers, skill, a),
        is_best_multiplier(prayers, skill, b),
    ensures
        a == b,
{
}

/// The flat boost that the melee potion gives to a skill at a base level.
pub open spec fn melee_potion_boost(boosts: BoostsInput, skill: MeleeSkill, level: int) -> int {
    match boosts.melee {
        Some(boost) => match skill {
            MeleeSkill::Attack => spec_potion_attack_boost(lowercase(boost.kind@), level),
            MeleeSkill::Strength => spec_potion_strength_boost(lowercase(boost.kind@), level),
            MeleeSkill::Defence => spec_potion_defence_boost(lowercase(boost.kind@), level),
        },
        None => 0,
    }
}

/// The multiplier that a pair of machine integers holds.
pub open spec fn multiplier_of(pair: (i32, i32)) -> Multiplier {
    (pair.0 as int, pair.1 as int)
}

/// The greater of two multipliers from the table of prayers; the first
/// stays where neither is greater.
fn greater_multiplier(current: (i32, i32), candidate: (i32, i32)) -> (best: (i32, i32))
    requires
        1 <= current.0 <= 123,
        1 <= current.1 <= 100,
        1 <= candidate.0 <= 123,
        1 <= candidate.1 <= 100,
    ensures
        best == if exceeds(multiplier_of(candidate), multiplier_of(current)) {
            candidate
        } else {
            current
        },
{
    assert(candidate.0 * current.1 <= 12300 && current.0 * candidate.1 <= 12300) by (nonlinear_arith)
        requires
            1 <= current.0 <= 123,
            1 <= current.1 <= 100,
            1 <= candidate.0 <= 123,
            1 <= candidate.1 <= 100,
    ;
    if candidate.0 * current.1 > current.0 * candidate.1 {
        candidate
    } else {
        current
    }
}

/// Resolves a player document into the state that an evaluation consumes.
///
/// The skills and flags are taken over. For each of attack, strength and
/// defence the prayer multiplier is the greatest among those of the active
/// prayers, and one if no prayer is active: active prayers do not exclude
/// each other. The potion boosts are those of the melee boost, if there is
/// one.
pub fn resolve_player(
    skills: &SkillsInput,
    prayers: &Vec<(String, bool)>,
    boosts: &BoostsInput,
    flags: &FlagsInput,
) -> (state: PlayerState)
    ensures
        state.attack == skills.attack,
        state.strength == skills.strength,
        state.defence == skills.defence,
        state.ranged == skills.ranged,
        state.magic == skills.magic,
        state.prayer == skills.prayer,
        state.hitpoints == skills.hitpoints,
        is_best_multiplier(prayers@, MeleeSkill::Attack, multiplier_of(state.prayer_attack_mult)),
        is_best_multiplier(prayers@, MeleeSkill::Strength, multiplier_of(state.prayer_strength_mult)),
        is_best_multiplier(prayers@, MeleeSkill::Defence, multiplier_of(state.prayer_defence_mult)),
        state.potion_attack_boost == melee_potion_boost(
            *boosts,
            MeleeSkill::Attack,
            skills.attack as int,
        ),
        state.potion_strength_boost == melee_potion_boost(
            *boosts,
            MeleeSkill::Strength,
            skills.strength as int,
        ),
        state.potion_defence_boost == melee_potion_boost(
            *boosts,
            MeleeSkill::Defence,
            skills.defence as int,
        ),
        state.on_slayer_task == flags.on_slayer_task,
        state.in_wilderness == flags.in_wilderness,
{
    let mut prayer_atk: (i32, i32) = (1, 1);
    let mut prayer_str: (i32, i32) = (1, 1);
    let mut prayer_def: (i32, i32) = (1, 1);

    let mut i: usize = 0;
    while i < prayers.len()
        invariant
            i <= prayers.len(),
            1 <= prayer_atk.0 <= 123 && 1 <= prayer_atk.1 <= 100,
            1 <= prayer_str.0 <= 123 && 1 <= prayer_str.1 <= 100,
            1 <= prayer_def.0 <= 123 && 1 <= prayer_def.1 <= 100,
            is_best_multiplier(prayers@.take(i as int), MeleeSkill::Attack, multiplier_of(prayer_atk)),
            is_best_multiplier(
                prayers@.take(i as int),
                MeleeSkill::Strength,
                multiplier_of(prayer_str),
            ),
            is_best_multiplier(prayers@.take(i as int), MeleeSkill::Defence, multiplier_of(prayer_def)),
        decreases prayers.len() - i,
    {
        let ghost seen = prayers@.take(i as int);
        let ghost next = prayers@.take(i as int + 1);
        let ghost old_atk = multiplier_of(prayer_atk);
        let ghost old_str = multiplier_of(prayer_str);
        let ghost old_def = multiplier_of(prayer_def);
        if prayers[i].1 {
            let (atk, str, def) = get_prayer_multipliers(prayers[i].0.as_str());
            prayer_atk = greater_multiplier(prayer_atk, atk);
            prayer_str = greater_multiplier(prayer_str, str);
            prayer_def = greater_multiplier(prayer_def, def);
        }
        proof {
            assert(next[i as int] == prayers@[i as int]);
            assert forall|j: int| 0 <= j < seen.len() implies seen[j] == next[j] by {}
            lemma_best_extends(seen, next, MeleeSkill::Attack, old_atk, multiplier_of(prayer_atk));
            lemma_best_extends(seen, next, MeleeSkill::Strength, old_str, multiplier_of(prayer_str));
            lemma_best_extends(seen, next, MeleeSkill::Defence, old_def, multiplier_of(prayer_def));
        }
        i += 1;
    }
    assert(prayers@.take(i as int) =~= prayers@);

    let potion_attack: i32 = match &boosts.melee {
        Some(boost) => get_potion_attack_boost(boost.kind.as_str(), skills.attack),
        None => 0,
    };
    let potion_strength: i32 = match &boosts.melee {
        Some(boost) => get_potion_strength_boost(boost.kind.as_str(), skills.strength),
        None => 0,
    };
    let potion_defence: i32 = match &boosts.melee {
        Some(boost) => get_potion_defence_boost(boost.kind.as_str(), skills.defence),
        None => 0,
    };

    PlayerState {
        attack: skills.attack,
        strength: skills.strength,
        defence: skills.defence,
        ranged: skills.ranged,
        magic: skills.magic,
        prayer: skills.prayer,
        hitpoints: skills.hitpoints,
        prayer_attack_mult: prayer_atk,
        prayer_strength_mult: prayer_str,
        prayer_defence_mult: prayer_def,
        potion_attack_boost: potion_attack,
        potion_strength_boost: potion_strength,
        potion_defence_boost: potion_defence,
        on_slayer_task: flags.on_slayer_task,
        in_wilderness: flags.in_wilderness,
    }
}

/// One more prayer: the greatest multiplier of the longer list is the
/// greater of the old one and the new prayer's, if that prayer is active.
proof fn lemma_best_extends(
    seen: Seq<(String, bool)>,
    next: Seq<(String, bool)>,
    skill: MeleeSkill,
    old_best: Multiplier,
    new_best: Multiplier,
)
    requires
        next.len() == seen.len() + 1,
        forall|j: int| 0 <= j < seen.len() ==> seen[j] == next[j],
        is_best_multiplier(seen, skill, old_best),
        old_best.1 > 0,
        new_best == if next.last().1 && exceeds(multiplier_for(next.last().0@, skill), old_best) {
            multiplier_for(next.last().0@, skill)
        } else {
            old_best
        },
    ensures
        is_best_multiplier(next, skill, new_best),
{
    let last = next.len() - 1;
    let added = multiplier_for(next[last].0@, skill);
    assert(added.1 > 0 && added.0 > 0);
    if old_best != (1int, 1int) {
        let i = choose|i: int|
            0 <= i < seen.len() && (#[trigger] seen[i]).1 && multiplier_for(seen[i].0@, skill)
                == old_best;
        assert(next[i].1 && multiplier_for(next[i].0@, skill) == old_best);
    }
    if new_best != old_best {
        assert(next[last].1 && multiplier_for(next[last].0@, skill) == new_best);
    }
    assert forall|j: int| 0 <= j < next.len() && (#[trigger] next[j]).1 implies !exceeds(
        multiplier_for(next[j].0@, skill),
        new_best,
    ) by {
        let m = multiplier_for(next[j].0@, skill);
        assert(m.0 > 0 && m.1 > 0);
        if j < seen.len() {
            assert(seen[j] == next[j]);
            assert(!exceeds(multiplier_for(seen[j].0@, skill), old_best));
            lemma_exceeds_transitive(m, old_best, new_best);
        }
    }
    lemma_exceeds_transitive((1, 1), old_best, new_best);
}

/// If `b` is at least `a` and `c` at least `b`, then `c` is at least `a`,
/// for multipliers over positive denominators.
proof fn lemma_exceeds_transitive(a: Multiplier, b: Multiplier, c: Multiplier)
    requires
        a.1 > 0,
        b.1 > 0,
        c.1 > 0,
        !exceeds(a, b),
        !exceeds(b, c),
    ensures
        !exceeds(a, c),
{
    assert(a.0 * c.1 <= c.0 * a.1) by (nonlinear_arith)
        requires
            a.1 > 0,
            b.1 > 0,
            c.1 > 0,
            a.0 * b.1 <= b.0 * a.1,
            b.0 * c.1 <= c.0 * b.1,
    ;
}

/// Every id that is given names an item of the store.
pub open spec fn all_known(items: Map<u32, ItemData>, ids: Seq<Option<u32>>) -> bool {
    forall|i: int| 0 <= i < ids.len() ==> ((#[trigger] ids[i]) matches Some(id) ==> items.contains_key(id))
}

/// `id` is the first id given that names no item of the store.
pub open spec fn is_first_unknown(items: Map<u32, ItemData>, ids: Seq<Option<u32>>, id: u32) -> bool {
    exists|i: int|
        0 <= i < ids.len() && #[trigger] all_known(items, ids.take(i)) && ids[i] == Some(id)
            && !items.contains_key(id)
}

/// The bonuses that a slot contributes: those of its item, and none if the
/// slot is empty.
pub open spec fn contribution(items: Map<u32, ItemData>, id: Option<u32>) -> BonusTotals {
    match id {
        Some(id) => items[id].bonus_totals(),
        None => BonusTotals::zero(),
    }
}

/// The sets of bonuses that make up a build: that of the weapon, then those
/// of the other slots in the order of the ids.
pub open spec fn bonus_sets(items: Map<u32, ItemData>, weapon_id: u32, ids: Seq<Option<u32>>) -> Seq<BonusTotals> {
    seq![items[weapon_id].bonus_totals()] + ids.map_values(|id: Option<u32>| contribution(items, id))
}

/// The bonuses of a build: the sum over the weapon and the other equipment.
pub open spec fn build_total(items: Map<u32, ItemData>, weapon_id: u32, ids: Seq<Option<u32>>) -> BonusTotals {
    total_of(bonus_sets(items, weapon_id, ids))
}

/// The bonuses of a build do not depend on the order of its items: two
/// builds made up of the same sets of bonuses, each as often in one as in
/// the other, have the same total.
pub proof fn lemma_build_total_any_order(
    items: Map<u32, ItemData>,
    weapon_id: u32,
    ids: Seq<Option<u32>>,
    other_weapon_id: u32,
    other_ids: Seq<Option<u32>>,
)
    requires
        bonus_sets(items, weapon_id, ids).to_multiset() == bonus_sets(
            items,
            other_weapon_id,
            other_ids,
        ).to_multiset(),
    ensures
        build_total(items, weapon_id, ids) == build_total(items, other_weapon_id, other_ids),
{
    lemma_total_any_order(
        bonus_sets(items, weapon_id, ids),
        bonus_sets(items, other_weapon_id, other_ids),
    );
}

/// At most one id is the first that names no item.
pub proof fn lemma_first_unknown_unique(items: Map<u32, ItemData>, ids: Seq<Option<u32>>, a: u32, b: u32)
    requires
        is_first_unknown(items, ids, a),
        is_first_unknown(items, ids, b),
    ensures
        a == b,
{
    let i = choose|i: int|
        0 <= i < ids.len() && #[trigger] all_known(items, ids.take(i)) && ids[i] == Some(a)
            && !items.contains_key(a);
    let j = choose|j: int|
        0 <= j < ids.len() && #[trigger] all_known(items, ids.take(j)) && ids[j] == Some(b)
            && !items.contains_key(b);
    if i < j {
        assert(ids.take(j)[i] == ids[i]);
    }
    if j < i {
        assert(ids.take(i)[j] == ids[j]);
    }
}

/// The bonuses of a build can be summed up on machine integers: as far as
/// the ids name items of the store, the sum over the weapon and every
/// leading part of the other equipment is representable.
pub open spec fn sums_representable(items: Map<u32, ItemData>, weapon_id: u32, ids: Seq<Option<u32>>) -> bool {
    items.contains_key(weapon_id) ==> forall|k: int|
        0 <= k <= ids.len() && #[trigger] all_known(items, ids.take(k)) ==> build_total(
            items,
            weapon_id,
            ids.take(k),
        ).representable()
}

/// What resolving a build gives. The weapon is looked up first and then the
/// other ids in their order; the first id that names no item is the error.
/// Otherwise the build has the summed bonuses, the weapon's attack interval,
/// melee combat, and the attack type and stance asked for.
pub open spec fn is_build_resolution(
    items: Map<u32, ItemData>,
    ids: Seq<Option<u32>>,
    weapon_id: u32,
    stance: Stance,
    attack_type: AttackType,
    outcome: Result<BuildResolved, DataError>,
) -> bool {
    match outcome {
        Ok(build) => {
            &&& items.contains_key(weapon_id)
            &&& all_known(items, ids)
            &&& build.bonuses@ == build_total(items, weapon_id, ids)
            &&& build.attack_speed == items[weapon_id].spec_attack_speed()
            &&& build.combat == Combat::Melee
            &&& build.attack_type == attack_type
            &&& build.stance == stance
        },
        Err(error) => if items.contains_key(weapon_id) {
            exists|id: u32|
                #[trigger] is_first_unknown(items, ids, id) && error == DataError::ItemNotFound(id)
        } else {
            error == DataError::ItemNotFound(weapon_id)
        },
    }
}

/// What resolving a target document gives: the monster of that id with the
/// overrides applied, or the custom target as it is given; an id that names
/// no monster is the error.
pub open spec fn is_target_resolution(
    monsters: Map<u32, MonsterData>,
    input: TargetInput,
    outcome: Result<TargetResolved, DataError>,
) -> bool {
    match input {
        TargetInput::ById(by_id) => match outcome {
            Ok(target) => monsters.contains_key(by_id.monster_id) && target@ == (match by_id.overrides {
                Some(overrides) => monsters[by_id.monster_id].target_view().overridden(overrides),
                None => monsters[by_id.monster_id].target_view(),
            }),
            Err(error) => !monsters.contains_key(by_id.monster_id) && error
                == DataError::MonsterNotFound(by_id.monster_id),
        },
        TargetInput::Custom(custom) => outcome matches Ok(target) && target@
            == custom.custom.target_view(),
    }
}

impl CustomTarget {
    /// The custom target as a target: its name, hitpoints, defence level,
    /// defence bonuses and attributes.
    pub open spec fn target_view(&self) -> TargetView {
        TargetView {
            name: self.name@,
            hitpoints: self.levels.hitpoints,
            defence_level: self.levels.defence,
            defence_bonuses: self.defence_bonuses,
            attributes: tags_of(self.attributes@),
        }
    }

    /// The custom target as a target.
    pub fn to_target_resolved(&self) -> (target: TargetResolved)
        ensures
            target@ == self.target_view(),
    {
        TargetResolved {
            name: self.name.clone(),
            hitpoints: self.levels.hitpoints,
            defence_level: self.levels.defence,
            defence_bonuses: self.defence_bonuses,
            attributes: clone_tags(&self.attributes),
        }
    }
}

impl EquipmentInput {
    /// The ids of the ten slots besides the weapon: head, cape, neck, ammo,
    /// body, shield, legs, hands, feet, ring.
    pub open spec fn spec_slot_ids(&self) -> Seq<Option<u32>> {
        seq![
            self.head,
            self.cape,
            self.neck,
            self.ammo,
            self.body,
            self.shield,
            self.legs,
            self.hands,
            self.feet,
            self.ring,
        ]
    }

    /// The ids of the ten slots besides the weapon, in their fixed order.
    pub fn slot_ids(&self) -> (ids: Vec<Option<u32>>)
        ensures
            ids@ == self.spec_slot_ids(),
    {
        let mut ids: Vec<Option<u32>> = Vec::new();
        ids.push(self.head);
        ids.push(self.cape);
        ids.push(self.neck);
        ids.push(self.ammo);
        ids.push(self.body);
        ids.push(self.shield);
        ids.push(self.legs);
        ids.push(self.hands);
        ids.push(self.feet);
        ids.push(self.ring);
        assert(ids@ =~= self.spec_slot_ids());
        ids
    }
}

/// Resolves documents against a store.
pub struct Resolver<'a> {
    pub store: &'a DataStore,
}

impl<'a> Resolver<'a> {
    /// A resolver over a store.
    pub fn new(store: &'a DataStore) -> (r: Resolver<'a>)
        ensures
            r.store == store,
    {
        Resolver { store }
    }

    /// Resolves a weapon and other equipment into a build, or gives `None`
    /// where the bonuses cannot be summed up on machine integers.
    pub fn try_resolve_equipment(
        &self,
        equipment_ids: &[Option<u32>],
        weapon_id: u32,
        stance: Stance,
        attack_type: AttackType,
    ) -> (r: Option<Result<BuildResolved, DataError>>)
        ensures
            r is Some <==> sums_representable(self.store.items@, weapon_id, equipment_ids@),
            r matches Some(outcome) ==> is_build_resolution(
                self.store.items@,
                equipment_ids@,
                weapon_id,
                stance,
                attack_type,
                outcome,
            ),
    {
        let ghost items = self.store.items@;
        let ghost ids = equipment_ids@;
        let weapon = match self.store.get_item(weapon_id) {
            Ok(weapon) => weapon,
            Err(error) => {
                return Some(Err(error));
            },
        };
        let mut bonuses = weapon.get_bonuses();
        let attack_speed: u8 = weapon.get_attack_speed();
        proof {
            assert(bonus_sets(items, weapon_id, ids.take(0)) =~= seq![weapon.bonus_totals()]);
            assert(bonus_sets(items, weapon_id, ids.take(0)).drop_last() =~= Seq::empty());
            reveal_with_fuel(total_of, 2);
        }
        assert(bonuses@ == build_total(items, weapon_id, ids.take(0)));

        let mut i: usize = 0;
        while i < equipment_ids.len()
            invariant
                i <= equipment_ids.len(),
                items == self.store.items@,
                ids == equipment_ids@,
                items.contains_key(weapon_id),
                all_known(items, ids.take(i as int)),
                bonuses@ == build_total(items, weapon_id, ids.take(i as int)),
                forall|k: int|
                    0 <= k <= i && #[trigger] all_known(items, ids.take(k)) ==> build_total(
                        items,
                        weapon_id,
                        ids.take(k),
                    ).representable(),
            decreases equipment_ids.len() - i,
        {
            let ghost seen = ids.take(i as int);
            let ghost next = ids.take(i as int + 1);
            proof {
                let sets = bonus_sets(items, weapon_id, next);
                assert(sets.drop_last() =~= bonus_sets(items, weapon_id, seen));
                assert(sets.last() == contribution(items, ids[i as int]));
                assert(build_total(items, weapon_id, next) == build_total(items, weapon_id, seen).plus(
                    contribution(items, ids[i as int]),
                ));
            }
            match equipment_ids[i] {
                Some(id) => {
                    let item = match self.store.get_item(id) {
                        Ok(item) => item,
                        Err(error) => {
                            proof {
                                assert(is_first_unknown(items, ids, id));
                                assert forall|k: int|
                                    0 <= k <= ids.len() && #[trigger] all_known(
                                        items,
                                        ids.take(k),
                                    ) implies build_total(items, weapon_id, ids.take(k)).representable() by {
                                    if k > i {
                                        assert(ids.take(k)[i as int] == ids[i as int]);
                                    }
                                }
                            }
                            return Some(Err(error));
                        },
                    };
                    let other = item.get_bonuses();
                    assert(all_known(items, next)) by {
                        assert forall|j: int| 0 <= j < next.len() implies ((#[trigger] next[j]) matches Some(
                            known,
                        ) ==> items.contains_key(known)) by {
                            if j < i {
                                assert(seen[j] == next[j]);
                            }
                        }
                    }
                    if !bonuses.can_add(&other) {
                        assert(!build_total(items, weapon_id, next).representable());
                        return None;
                    }
                    bonuses.add(&other);
                },
                None => {
                    assert(all_known(items, next)) by {
                        assert forall|j: int| 0 <= j < next.len() implies ((#[trigger] next[j]) matches Some(
                            known,
                        ) ==> items.contains_key(known)) by {
                            if j < i {
                                assert(seen[j] == next[j]);
                            }
                        }
                    }
                },
            }
            i += 1;
        }
        assert(ids.take(i as int) =~= ids);
        Some(
            Ok(
                BuildResolved {
                    bonuses,
                    attack_speed,
                    combat: Combat::Melee,
                    attack_type,
                    stance,
                },
            ),
        )
    }

    /// Resolves a weapon and other equipment into a build with the summed
    /// bonuses of all items. The first id that names no item of the store,
    /// the weapon's before the others, is reported as `ItemNotFound`.
    pub fn resolve_equipment(
        &self,
        equipment_ids: &[Option<u32>],
        weapon_id: u32,
        stance: Stance,
        attack_type: AttackType,
    ) -> (outcome: Result<BuildResolved, DataError>)
        requires
            sums_representable(self.store.items@, weapon_id, equipment_ids@),
        ensures
            is_build_resolution(
                self.store.items@,
                equipment_ids@,
                weapon_id,
                stance,
                attack_type,
                outcome,
            ),
    {
        match self.try_resolve_equipment(equipment_ids, weapon_id, stance, attack_type) {
            Some(outcome) => outcome,
            None => vstd::pervasive::unreached(),
        }
    }

    /// Resolves a monster id into a target, or reports `MonsterNotFound`.
    pub fn resolve_monster(&self, monster_id: u32) -> (outcome: Result<TargetResolved, DataError>)
        ensures
            match outcome {
                Ok(target) => self.store.monsters@.contains_key(monster_id) && target@
                    == self.store.monsters@[monster_id].target_view(),
                Err(error) => !self.store.monsters@.contains_key(monster_id) && error
                    == DataError::MonsterNotFound(monster_id),
            },
    {
        match self.store.get_monster(monster_id) {
            Ok(monster) => Ok(monster.to_target_resolved()),
            Err(error) => Err(error),
        }
    }

    /// Resolves a target document: a monster by id with its overrides
    /// applied, or a custom target.
    pub fn resolve_target(&self, input: &TargetInput) -> (outcome: Result<TargetResolved, DataError>)
        ensures
            is_target_resolution(self.store.monsters@, *input, outcome),
    {
        match input {
            TargetInput::ById(by_id) => {
                let mut resolved = match self.resolve_monster(by_id.monster_id) {
                    Ok(resolved) => resolved,
                    Err(error) => {
                        return Err(error);
                    },
                };
                match &by_id.overrides {
                    Some(overrides) => {
                        resolved.apply_overrides(overrides);
                    },
                    None => {},
                }
                Ok(resolved)
            },
            TargetInput::Custom(custom) => Ok(custom.custom.to_target_resolved()),
        }
    }

    /// Resolves a build document, or gives `None` where the bonuses cannot
    /// be summed up on machine integers. The combat style of a resolved
    /// build is melee, whatever the document says.
    pub fn try_resolve_build(&self, input: &BuildInput) -> (r: Option<Result<BuildResolved, DataError>>)
        ensures
            r is Some <==> sums_representable(
                self.store.items@,
                input.equipment.weapon,
                input.equipment.spec_slot_ids(),
            ),
            r matches Some(outcome) ==> is_build_resolution(
                self.store.items@,
                input.equipment.spec_slot_ids(),
                input.equipment.weapon,
                input.style.stance,
                input.style.attack_type,
                outcome,
            ),
    {
        let ids = input.equipment.slot_ids();
        self.try_resolve_equipment(
            ids.as_slice(),
            input.equipment.weapon,
            input.style.stance,
            input.style.attack_type,
        )
    }
}

} // verus!

//! Expected melee damage per second for a combat simulation.
//!
//! The crate combines an exact combat-formula library with a staged,
//! declarative effect pipeline. All arithmetic is integer or rational:
//! quotients round toward zero exactly where the game does, and the two
//! real-valued results (accuracy and damage per second) are carried as
//! exact fractions.

pub mod ratio;
pub mod text;
pub mod model;
pub mod formulas;
pub mod effects;
pub mod data;

pub use data::{DataError, DataStore, Resolver};
pub use effects::{default_effects, EffectContext, EffectRegistry, EngineState, Stage};
pub use formulas::{evaluate, evaluate_with, try_evaluate, try_evaluate_with};
pub use model::{
    AttackType, BuildInput, BuildResolved, Combat, DefenceBonuses, EquipmentBonuses,
    EquipmentInput, EvalContext, EvalResult, PlayerInput, PlayerState, Stance, StyleInput,
    TargetInput, TargetResolved,
};
pub use ratio::{Fraction, Ratio};

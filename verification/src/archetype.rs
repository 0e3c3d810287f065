//! Body archetypes: fixed configurations that bound a body's economy.
//!
//! An archetype fixes the size of the energy-cell bank, whether the body may
//! hold a rocket, and how many generation / combination recipes its
//! capability objects may be configured with.

use vstd::prelude::*;

use crate::kinds::{BasicKind, ComplexKind};

verus! {

/// The closed set of body archetypes known to the protocol.
#[derive(Clone, Copy, Debug, PartialEq, Eq, Structural)]
pub enum BodyArchetype {
    A,
    B,
    C,
    D,
}

/// The rule bounds attached to an archetype.
#[derive(Clone, Copy, Debug, PartialEq, Eq, Structural)]
pub struct ArchetypeConstraints {
    /// Size of the body's energy-cell bank.
    pub n_energy_cells: usize,
    /// Whether the body may carry more than one generation recipe.
    pub unbounded_gen_rules: bool,
    /// Whether the body may hold a rocket.
    pub can_have_rocket: bool,
    /// Maximum number of combination recipes.
    pub n_comb_rules: usize,
}

/// The constraints table, by archetype.
pub open spec fn spec_constraints(a: BodyArchetype) -> ArchetypeConstraints {
    match a {
        BodyArchetype::A => ArchetypeConstraints {
            n_energy_cells: 5,
            unbounded_gen_rules: false,
            can_have_rocket: true,
            n_comb_rules: 0,
        },
        BodyArchetype::B => ArchetypeConstraints {
            n_energy_cells: 1,
            unbounded_gen_rules: true,
            can_have_rocket: false,
            n_comb_rules: 1,
        },
        BodyArchetype::C => ArchetypeConstraints {
            n_energy_cells: 1,
            unbounded_gen_rules: false,
            can_have_rocket: true,
            n_comb_rules: 6,
        },
        BodyArchetype::D => ArchetypeConstraints {
            n_energy_cells: 5,
            unbounded_gen_rules: true,
            can_have_rocket: false,
            n_comb_rules: 0,
        },
    }
}

impl BodyArchetype {
    /// The rule bounds attached to this archetype.
    pub fn constraints(&self) -> (r: ArchetypeConstraints)
        ensures
            r == spec_constraints(*self),
    {
        match self {
            BodyArchetype::A => ArchetypeConstraints {
                n_energy_cells: 5,
                unbounded_gen_rules: false,
                can_have_rocket: true,
                n_comb_rules: 0,
            },
            BodyArchetype::B => ArchetypeConstraints {
                n_energy_cells: 1,
                unbounded_gen_rules: true,
                can_have_rocket: false,
                n_comb_rules: 1,
            },
            BodyArchetype::C => ArchetypeConstraints {
                n_energy_cells: 1,
                unbounded_gen_rules: false,
                can_have_rocket: true,
                n_comb_rules: 6,
            },
            BodyArchetype::D => ArchetypeConstraints {
                n_energy_cells: 5,
                unbounded_gen_rules: true,
                can_have_rocket: false,
                n_comb_rules: 0,
            },
        }
    }
}

/// Why a body configuration was rejected.
#[derive(Clone, Copy, Debug, PartialEq, Eq, Structural)]
pub enum ConfigError {
    /// A body must be able to generate at least one basic kind.
    NoGenRules,
    /// The archetype limits the body to one generation recipe.
    TooManyGenRules,
    /// The archetype bounds the number of combination recipes.
    TooManyCombRules,
}

/// Checks a proposed recipe configuration against the archetype's bounds:
/// the generation list must be non-empty, at most one generation recipe is
/// allowed unless the archetype lifts that bound, and the combination list
/// must fit the archetype's limit.
pub fn validate_rules(
    archetype: BodyArchetype,
    gen_rules: &Vec<BasicKind>,
    comb_rules: &Vec<ComplexKind>,
) -> (r: Result<(), ConfigError>)
    ensures
        ({
            let c = spec_constraints(archetype);
            match r {
                Ok(()) => gen_rules@.len() >= 1 && (c.unbounded_gen_rules || gen_rules@.len() <= 1)
                    && comb_rules@.len() <= c.n_comb_rules,
                Err(e) => match e {
                    ConfigError::NoGenRules => gen_rules@.len() == 0,
                    ConfigError::TooManyGenRules => gen_rules@.len() > 1
                        && !c.unbounded_gen_rules,
                    ConfigError::TooManyCombRules => gen_rules@.len() >= 1 && (
                    c.unbounded_gen_rules || gen_rules@.len() <= 1) && comb_rules@.len()
                        > c.n_comb_rules,
                },
            }
        }),
{
    let c = archetype.constraints();
    if gen_rules.len() == 0 {
        Err(ConfigError::NoGenRules)
    } else if !c.unbounded_gen_rules && gen_rules.len() > 1 {
        Err(ConfigError::TooManyGenRules)
    } else if comb_rules.len() > c.n_comb_rules {
        Err(ConfigError::TooManyCombRules)
    } else {
        Ok(())
    }
}

} // verus!

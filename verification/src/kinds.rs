//! The closed universe of resource kinds known to the protocol.
//!
//! A *basic* resource is produced from one charged energy cell; a *complex*
//! resource is produced from two input resources plus one charged cell.  Each
//! complex kind has exactly one recipe: a fixed pair of input kinds.

use vstd::prelude::*;

verus! {

/// Kind tag of a basic resource.
#[derive(Clone, Copy, Debug, PartialEq, Eq, PartialOrd, Ord, Structural, Hash)]
pub enum BasicKind {
    Oxygen,
    Hydrogen,
    Carbon,
    Silicon,
}

/// Kind tag of a complex resource.
#[derive(Clone, Copy, Debug, PartialEq, Eq, PartialOrd, Ord, Structural, Hash)]
pub enum ComplexKind {
    Diamond,
    Water,
    Life,
    Robot,
    Dolphin,
    AIPartner,
}

/// Kind tag of any resource, basic or complex.
#[derive(Clone, Copy, Debug, PartialEq, Eq, PartialOrd, Ord, Structural, Hash)]
pub enum ResourceKind {
    Basic(BasicKind),
    Complex(ComplexKind),
}

/// The fixed pair of input kinds consumed by the recipe for `k`.
pub open spec fn spec_recipe_inputs(k: ComplexKind) -> (ResourceKind, ResourceKind) {
    match k {
        ComplexKind::Water => (
            ResourceKind::Basic(BasicKind::Hydrogen),
            ResourceKind::Basic(BasicKind::Oxygen),
        ),
        ComplexKind::Diamond => (
            ResourceKind::Basic(BasicKind::Carbon),
            ResourceKind::Basic(BasicKind::Carbon),
        ),
        ComplexKind::Life => (
            ResourceKind::Complex(ComplexKind::Water),
            ResourceKind::Basic(BasicKind::Carbon),
        ),
        ComplexKind::Robot => (
            ResourceKind::Basic(BasicKind::Silicon),
            ResourceKind::Complex(ComplexKind::Life),
        ),
        ComplexKind::Dolphin => (
            ResourceKind::Complex(ComplexKind::Water),
            ResourceKind::Complex(ComplexKind::Life),
        ),
        ComplexKind::AIPartner => (
            ResourceKind::Complex(ComplexKind::Robot),
            ResourceKind::Complex(ComplexKind::Diamond),
        ),
    }
}

/// Returns the fixed pair of input kinds consumed by the recipe for `k`.
pub fn recipe_inputs(k: ComplexKind) -> (r: (ResourceKind, ResourceKind))
    ensures
        r == spec_recipe_inputs(k),
{
    match k {
        ComplexKind::Water => (
            ResourceKind::Basic(BasicKind::Hydrogen),
            ResourceKind::Basic(BasicKind::Oxygen),
        ),
        ComplexKind::Diamond => (
            ResourceKind::Basic(BasicKind::Carbon),
            ResourceKind::Basic(BasicKind::Carbon),
        ),
        ComplexKind::Life => (
            ResourceKind::Complex(ComplexKind::Water),
            ResourceKind::Basic(BasicKind::Carbon),
        ),
        ComplexKind::Robot => (
            ResourceKind::Basic(BasicKind::Silicon),
            ResourceKind::Complex(ComplexKind::Life),
        ),
        ComplexKind::Dolphin => (
            ResourceKind::Complex(ComplexKind::Water),
            ResourceKind::Complex(ComplexKind::Life),
        ),
        ComplexKind::AIPartner => (
            ResourceKind::Complex(ComplexKind::Robot),
            ResourceKind::Complex(ComplexKind::Diamond),
        ),
    }
}

} // verus!

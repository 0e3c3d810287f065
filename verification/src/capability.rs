//! Trusted boundary to the game's resource capability objects.
//!
//! A body is configured with a `Generator` (turns one charged energy cell
//! into a basic resource) and a `Combinator` (turns two input resources plus
//! one charged cell into a complex resource), both from the `common_game`
//! crate.  Each object carries a fixed catalog of recipes.  The resource
//! values they produce are opaque tokens; the library tracks only their kind.
//!
//! Every wrapper here feeds the capability object a freshly charged energy
//! cell; the verified caller accounts for that energy by discharging one cell
//! of the body's own bank before asking for production.

use vstd::prelude::*;

use crate::kinds::{BasicKind, ComplexKind};
use common_game::components::energy_cell::EnergyCell;
use common_game::components::resource::{
    AIPartner, BasicResource, BasicResourceType, Carbon, Combinator, ComplexResource,
    ComplexResourceType, Diamond, Dolphin, Generator, Hydrogen, Life, Oxygen, Robot, Silicon,
    Water,
};
use common_game::components::sunray::Sunray;

verus! {

#[verifier::external_type_specification]
#[verifier::external_body]
pub struct ExGenerator(Generator);

#[verifier::external_type_specification]
#[verifier::external_body]
pub struct ExCombinator(Combinator);

#[verifier::external_type_specification]
#[verifier::external_body]
pub struct ExBasicResource(BasicResource);

#[verifier::external_type_specification]
#[verifier::external_body]
pub struct ExComplexResource(ComplexResource);

#[verifier::external_type_specification]
#[verifier::external_body]
pub struct ExOxygen(Oxygen);

#[verifier::external_type_specification]
#[verifier::external_body]
pub struct ExHydrogen(Hydrogen);

#[verifier::external_type_specification]
#[verifier::external_body]
pub struct ExCarbon(Carbon);

#[verifier::external_type_specification]
#[verifier::external_body]
pub struct ExSilicon(Silicon);

#[verifier::external_type_specification]
#[verifier::external_body]
pub struct ExWater(Water);

#[verifier::external_type_specification]
#[verifier::external_body]
pub struct ExDiamond(Diamond);

#[verifier::external_type_specification]
#[verifier::external_body]
pub struct ExLife(Life);

#[verifier::external_type_specification]
#[verifier::external_body]
pub struct ExRobot(Robot);

#[verifier::external_type_specification]
#[verifier::external_body]
pub struct ExDolphin(Dolphin);

#[verifier::external_type_specification]
#[verifier::external_body]
pub struct ExAIPartner(AIPartner);

/// The generator's fixed catalog: the set of basic kinds it has a recipe for.
pub uninterp spec fn gen_recipes(g: &Generator) -> Set<BasicKind>;

/// The combinator's fixed catalog: the set of complex kinds it has a recipe
/// for.
pub uninterp spec fn comb_recipes(c: &Combinator) -> Set<ComplexKind>;

/// The kind carried by a basic resource value.
pub uninterp spec fn basic_kind(r: &BasicResource) -> BasicKind;

/// The kind carried by a complex resource value.
pub uninterp spec fn complex_kind(r: &ComplexResource) -> ComplexKind;

/// Relies on `Combinator::contains`: reports whether the catalog holds a
/// recipe for the given complex kind.
#[verifier::external_body]
pub(crate) fn combinator_contains(c: &Combinator, kind: ComplexKind) -> (r: bool)
    ensures
        r == comb_recipes(c).contains(kind),
{
    c.contains(match kind {
        ComplexKind::Diamond => ComplexResourceType::Diamond,
        ComplexKind::Water => ComplexResourceType::Water,
        ComplexKind::Life => ComplexResourceType::Life,
        ComplexKind::Robot => ComplexResourceType::Robot,
        ComplexKind::Dolphin => ComplexResourceType::Dolphin,
        ComplexKind::AIPartner => ComplexResourceType::AIPartner,
    })
}

/// Relies on `Generator::all_available_recipes`: returns the catalog as a
/// set; the element order of the returned list carries no meaning.
#[verifier::external_body]
pub(crate) fn generator_catalog(g: &Generator) -> (r: Vec<BasicKind>)
    ensures
        forall|k: BasicKind| #[trigger] r@.contains(k) <==> gen_recipes(g).contains(k),
        r@.no_duplicates(),
{
    let mut v = Vec::new();
    for b in g.all_available_recipes() {
        v.push(match b {
            BasicResourceType::Oxygen => BasicKind::Oxygen,
            BasicResourceType::Hydrogen => BasicKind::Hydrogen,
            BasicResourceType::Carbon => BasicKind::Carbon,
            BasicResourceType::Silicon => BasicKind::Silicon,
        });
    }
    v
}

/// Relies on `Combinator::all_available_recipes`: returns the catalog as a
/// set; the element order of the returned list carries no meaning.
#[verifier::external_body]
pub(crate) fn combinator_catalog(c: &Combinator) -> (r: Vec<ComplexKind>)
    ensures
        forall|k: ComplexKind| #[trigger] r@.contains(k) <==> comb_recipes(c).contains(k),
        r@.no_duplicates(),
{
    let mut v = Vec::new();
    for x in c.all_available_recipes() {
        v.push(match x {
            ComplexResourceType::Diamond => ComplexKind::Diamond,
            ComplexResourceType::Water => ComplexKind::Water,
            ComplexResourceType::Life => ComplexKind::Life,
            ComplexResourceType::Robot => ComplexKind::Robot,
            ComplexResourceType::Dolphin => ComplexKind::Dolphin,
            ComplexResourceType::AIPartner => ComplexKind::AIPartner,
        });
    }
    v
}

/// Relies on `Generator::try_make`, fed a freshly charged cell: it yields a
/// resource of the requested kind exactly when the catalog holds a recipe
/// for that kind.
#[verifier::external_body]
pub(crate) fn generator_make(g: &Generator, kind: BasicKind) -> (r: Option<BasicResource>)
    ensures
        r is Some <==> gen_recipes(g).contains(kind),
        r matches Some(b) ==> basic_kind(&b) == kind,
{
    let mut cell = EnergyCell::new();
    cell.charge(Sunray::default());
    let req = match kind {
        BasicKind::Oxygen => BasicResourceType::Oxygen,
        BasicKind::Hydrogen => BasicResourceType::Hydrogen,
        BasicKind::Carbon => BasicResourceType::Carbon,
        BasicKind::Silicon => BasicResourceType::Silicon,
    };
    g.try_make(req, &mut cell).ok()
}

/// Relies on `Combinator::make_water`, fed a freshly charged cell: succeeds
/// exactly when the catalog holds the water recipe, and hands the inputs
/// back untouched on failure.
#[verifier::external_body]
pub(crate) fn make_water(c: &Combinator, a: Hydrogen, b: Oxygen) -> (r: Result<
    ComplexResource,
    (Hydrogen, Oxygen),
>)
    ensures
        r is Ok <==> comb_recipes(c).contains(ComplexKind::Water),
        r matches Ok(x) ==> complex_kind(&x) == ComplexKind::Water,
        r matches Err(p) ==> p.0 == a && p.1 == b,
{
    let mut cell = EnergyCell::new();
    cell.charge(Sunray::default());
    match c.make_water(a, b, &mut cell) {
        Ok(x) => Ok(x.to_complex()),
        Err((_, a, b)) => Err((a, b)),
    }
}

/// Relies on `Combinator::make_diamond`, fed a freshly charged cell:
/// succeeds exactly when the catalog holds the diamond recipe, and hands the
/// inputs back untouched on failure.
#[verifier::external_body]
pub(crate) fn make_diamond(c: &Combinator, a: Carbon, b: Carbon) -> (r: Result<
    ComplexResource,
    (Carbon, Carbon),
>)
    ensures
        r is Ok <==> comb_recipes(c).contains(ComplexKind::Diamond),
        r matches Ok(x) ==> complex_kind(&x) == ComplexKind::Diamond,
        r matches Err(p) ==> p.0 == a && p.1 == b,
{
    let mut cell = EnergyCell::new();
    cell.charge(Sunray::default());
    match c.make_diamond(a, b, &mut cell) {
        Ok(x) => Ok(x.to_complex()),
        Err((_, a, b)) => Err((a, b)),
    }
}

/// Relies on `Combinator::make_life`, fed a freshly charged cell: succeeds
/// exactly when the catalog holds the life recipe, and hands the inputs back
/// untouched on failure.
#[verifier::external_body]
pub(crate) fn make_life(c: &Combinator, a: Water, b: Carbon) -> (r: Result<
    ComplexResource,
    (Water, Carbon),
>)
    ensures
        r is Ok <==> comb_recipes(c).contains(ComplexKind::Life),
        r matches Ok(x) ==> complex_kind(&x) == ComplexKind::Life,
        r matches Err(p) ==> p.0 == a && p.1 == b,
{
    let mut cell = EnergyCell::new();
    cell.charge(Sunray::default());
    match c.make_life(a, b, &mut cell) {
        Ok(x) => Ok(x.to_complex()),
        Err((_, a, b)) => Err((a, b)),
    }
}

/// Relies on `Combinator::make_robot`, fed a freshly charged cell: succeeds
/// exactly when the catalog holds the robot recipe, and hands the inputs
/// back untouched on failure.
#[verifier::external_body]
pub(crate) fn make_robot(c: &Combinator, a: Silicon, b: Life) -> (r: Result<
    ComplexResource,
    (Silicon, Life),
>)
    ensures
        r is Ok <==> comb_recipes(c).contains(ComplexKind::Robot),
        r matches Ok(x) ==> complex_kind(&x) == ComplexKind::Robot,
        r matches Err(p) ==> p.0 == a && p.1 == b,
{
    let mut cell = EnergyCell::new();
    cell.charge(Sunray::default());
    match c.make_robot(a, b, &mut cell) {
        Ok(x) => Ok(x.to_complex()),
        Err((_, a, b)) => Err((a, b)),
    }
}

/// Relies on `Combinator::make_dolphin`, fed a freshly charged cell:
/// succeeds exactly when the catalog holds the dolphin recipe, and hands the
/// inputs back untouched on failure.
#[verifier::external_body]
pub(crate) fn make_dolphin(c: &Combinator, a: Water, b: Life) -> (r: Result<
    ComplexResource,
    (Water, Life),
>)
    ensures
        r is Ok <==> comb_recipes(c).contains(ComplexKind::Dolphin),
        r matches Ok(x) ==> complex_kind(&x) == ComplexKind::Dolphin,
        r matches Err(p) ==> p.0 == a && p.1 == b,
{
    let mut cell = EnergyCell::new();
    cell.charge(Sunray::default());
    match c.make_dolphin(a, b, &mut cell) {
        Ok(x) => Ok(x.to_complex()),
        Err((_, a, b)) => Err((a, b)),
    }
}

/// Relies on `Combinator::make_aipartner`, fed a freshly charged cell:
/// succeeds exactly when the catalog holds the AI-partner recipe, and hands
/// the inputs back untouched on failure.
#[verifier::external_body]
pub(crate) fn make_aipartner(c: &Combinator, a: Robot, b: Diamond) -> (r: Result<
    ComplexResource,
    (Robot, Diamond),
>)
    ensures
        r is Ok <==> comb_recipes(c).contains(ComplexKind::AIPartner),
        r matches Ok(x) ==> complex_kind(&x) == ComplexKind::AIPartner,
        r matches Err(p) ==> p.0 == a && p.1 == b,
{
    let mut cell = EnergyCell::new();
    cell.charge(Sunray::default());
    match c.make_aipartner(a, b, &mut cell) {
        Ok(x) => Ok(x.to_complex()),
        Err((_, a, b)) => Err((a, b)),
    }
}

} // verus!

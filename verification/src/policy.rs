//! The body's decision core: one handler per event category.
//!
//! Handlers receive exclusive mutable access to the [`BodyState`] and
//! read-only access to the generator and combinator capability objects; they
//! return the outbound response (if the event calls for one) and append log
//! entries to an injected sink.  The body-wide priority policy lives here:
//! when a power event leaves a charged cell available and no rocket exists
//! yet, rocket construction preempts economic production.

use vstd::prelude::*;
use vstd::string::StringExecFns;

use crate::capability::{
    basic_kind, comb_recipes, combinator_catalog, combinator_contains, complex_kind, gen_recipes,
    generator_catalog, generator_make, make_aipartner, make_diamond, make_dolphin, make_life,
    make_robot, make_water,
};
use crate::kinds::{BasicKind, ComplexKind};
use crate::logbook::LogEntry;
use crate::state::{
    charged_count, first_with, lemma_count_le_len, lemma_first_with, BodyModel, BodyState, Rocket,
    Snapshot,
};
use common_game::components::resource::{
    AIPartner, BasicResource, Carbon, Combinator, ComplexResource, Diamond, Generator, Hydrogen,
    Life, Oxygen, Robot, Silicon, Water,
};

verus! {

// ---------------------------------------------------------------------------
// Ghost step functions: what each event does to the body, stated over the
// ghost model.  The handlers' contracts tie the executable code to these.
// ---------------------------------------------------------------------------
/// Charging: the lowest empty cell (if any) becomes charged.
pub open spec fn charge_model(m: BodyModel) -> BodyModel {
    let i = first_with(m.cells, false);
    if i >= 0 {
        BodyModel { cells: m.cells.update(i, true), ..m }
    } else {
        m
    }
}

/// Opportunistic defense: if the body holds no rocket, may hold one, and a
/// charged cell exists, the lowest charged cell is consumed and a rocket
/// appears.
pub open spec fn build_model(m: BodyModel) -> BodyModel {
    let i = first_with(m.cells, true);
    if !m.has_rocket && m.can_have_rocket && i >= 0 {
        BodyModel { cells: m.cells.update(i, false), has_rocket: true, ..m }
    } else {
        m
    }
}

/// A power event charges a cell, then attempts an opportunistic build.
pub open spec fn power_model(m: BodyModel) -> BodyModel {
    build_model(charge_model(m))
}

/// Log entries emitted by a power event: whether the charge took, and
/// whether a build was attempted (it is attempted, and logged, whenever no
/// rocket exists and a charged cell is found, even if the archetype then
/// refuses the rocket).
pub open spec fn power_log(m: BodyModel) -> Seq<LogEntry> {
    let charged = first_with(m.cells, false) >= 0;
    let c = charge_model(m);
    let attempted = !c.has_rocket && first_with(c.cells, true) >= 0;
    (if charged {
        seq![LogEntry::CellCharged]
    } else {
        seq![LogEntry::CellAlreadyCharged]
    }) + (if attempted {
        seq![LogEntry::RocketBuilt]
    } else {
        Seq::empty()
    })
}

/// A defense event: an existing rocket is fired; otherwise one is built from
/// the lowest charged cell and fired at once, when the archetype allows it.
/// Returns the state after the event and whether a rocket was fired.
pub open spec fn defense_model(m: BodyModel) -> (BodyModel, bool) {
    if m.has_rocket {
        (BodyModel { has_rocket: false, ..m }, true)
    } else {
        let i = first_with(m.cells, true);
        if m.can_have_rocket && i >= 0 {
            (BodyModel { cells: m.cells.update(i, false), has_rocket: false, ..m }, true)
        } else {
            (m, false)
        }
    }
}

/// Log entries emitted by a defense event: a build is attempted, and logged,
/// whenever no rocket exists and a charged cell is found.
pub open spec fn defense_log(m: BodyModel) -> Seq<LogEntry> {
    if !m.has_rocket && first_with(m.cells, true) >= 0 {
        seq![LogEntry::RocketBuilt]
    } else {
        Seq::empty()
    }
}

// ---------------------------------------------------------------------------
// Visitor request and response values.
// ---------------------------------------------------------------------------
/// A combination request: one variant per recipe of the protocol, holding
/// the two typed input resources it consumes.
#[derive(Debug)]
pub enum CombineRequest {
    Water(Hydrogen, Oxygen),
    Diamond(Carbon, Carbon),
    Life(Water, Carbon),
    Robot(Silicon, Life),
    Dolphin(Water, Life),
    AIPartner(Robot, Diamond),
}

impl CombineRequest {
    /// The complex kind this request asks for.
    pub open spec fn spec_kind(&self) -> ComplexKind {
        match self {
            CombineRequest::Water(_, _) => ComplexKind::Water,
            CombineRequest::Diamond(_, _) => ComplexKind::Diamond,
            CombineRequest::Life(_, _) => ComplexKind::Life,
            CombineRequest::Robot(_, _) => ComplexKind::Robot,
            CombineRequest::Dolphin(_, _) => ComplexKind::Dolphin,
            CombineRequest::AIPartner(_, _) => ComplexKind::AIPartner,
        }
    }

    /// The complex kind this request asks for.
    pub fn kind(&self) -> (r: ComplexKind)
        ensures
            r == self.spec_kind(),
    {
        match self {
            CombineRequest::Water(_, _) => ComplexKind::Water,
            CombineRequest::Diamond(_, _) => ComplexKind::Diamond,
            CombineRequest::Life(_, _) => ComplexKind::Life,
            CombineRequest::Robot(_, _) => ComplexKind::Robot,
            CombineRequest::Dolphin(_, _) => ComplexKind::Dolphin,
            CombineRequest::AIPartner(_, _) => ComplexKind::AIPartner,
        }
    }
}

/// Why a combination was refused.
#[derive(Clone, Copy, Debug, PartialEq, Eq, Structural)]
pub enum CombineRefusal {
    /// The body's combinator has no recipe for the requested kind.
    NoRecipe(ComplexKind),
    /// The recipe is supported but no charged cell was available.
    NoChargedCell,
}

impl CombineRefusal {
    /// Human-readable rendering of the refusal.
    pub open spec fn spec_message(&self) -> Seq<char> {
        match self {
            CombineRefusal::NoRecipe(k) => match k {
                ComplexKind::Diamond => "there isn't a recipe for diamond"@,
                ComplexKind::Water => "there isn't a recipe for water"@,
                ComplexKind::Life => "there isn't a recipe for life"@,
                ComplexKind::Robot => "there isn't a recipe for robot"@,
                ComplexKind::Dolphin => "there isn't a recipe for dolphin"@,
                ComplexKind::AIPartner => "there isn't a recipe for aipartner"@,
            },
            CombineRefusal::NoChargedCell => "There isn't any charged cell"@,
        }
    }

    /// Human-readable rendering of the refusal.
    pub fn message(&self) -> (r: String)
        ensures
            r@ == self.spec_message(),
    {
        match self {
            CombineRefusal::NoRecipe(k) => match k {
                ComplexKind::Diamond => String::from_str("there isn't a recipe for diamond"),
                ComplexKind::Water => String::from_str("there isn't a recipe for water"),
                ComplexKind::Life => String::from_str("there isn't a recipe for life"),
                ComplexKind::Robot => String::from_str("there isn't a recipe for robot"),
                ComplexKind::Dolphin => String::from_str("there isn't a recipe for dolphin"),
                ComplexKind::AIPartner => String::from_str("there isn't a recipe for aipartner"),
            },
            CombineRefusal::NoChargedCell => String::from_str("There isn't any charged cell"),
        }
    }
}

/// A failed combination: the reason, and the exact two input resources
/// handed back to the caller.
#[derive(Debug)]
pub struct CombineFailure {
    pub reason: CombineRefusal,
    pub refund: CombineRequest,
}

/// A service request from a visiting agent.
pub enum VisitorRequest {
    /// Which basic kinds can this body generate?
    SupportedResources { visitor_id: u32 },
    /// Which complex kinds can this body combine?
    SupportedCombinations { visitor_id: u32 },
    /// Generate one basic resource of the given kind.
    Generate { visitor_id: u32, kind: BasicKind },
    /// Combine two resources into a complex one.
    Combine { visitor_id: u32, request: CombineRequest },
    /// How many charged cells does the body hold?
    AvailableCells { visitor_id: u32 },
}

/// The body's answer to a visitor request.
pub enum VisitorResponse {
    SupportedResources { resource_list: Vec<BasicKind> },
    SupportedCombinations { combination_list: Vec<ComplexKind> },
    Generate { resource: Option<BasicResource> },
    Combine { result: Result<ComplexResource, CombineFailure> },
    AvailableCells { available_cells: u32 },
    /// Fixed answer to any request while the body is not running.
    Stopped,
}

// ---------------------------------------------------------------------------
// Ghost characterization of visitor handling.
// ---------------------------------------------------------------------------
/// The lowest charged cell is consumed.
pub open spec fn consume_model(m: BodyModel) -> BodyModel {
    BodyModel { cells: m.cells.update(first_with(m.cells, true), false), ..m }
}

/// The state left behind by a visitor request: generation and combination
/// consume the lowest charged cell exactly when they produce; every other
/// request leaves the body untouched.
pub open spec fn visitor_state_after(
    m: BodyModel,
    gen: Set<BasicKind>,
    comb: Set<ComplexKind>,
    req: &VisitorRequest,
) -> BodyModel {
    match req {
        VisitorRequest::Generate { kind, .. } => {
            if first_with(m.cells, true) >= 0 && gen.contains(*kind) {
                consume_model(m)
            } else {
                m
            }
        },
        VisitorRequest::Combine { request, .. } => {
            if comb.contains(request.spec_kind()) && first_with(m.cells, true) >= 0 {
                consume_model(m)
            } else {
                m
            }
        },
        _ => m,
    }
}

/// Exactly which response a visitor request earns, given the body model and
/// the two catalogs.  The produced resource values themselves are opaque;
/// their kinds are pinned.
pub open spec fn response_matches(
    m: BodyModel,
    gen: Set<BasicKind>,
    comb: Set<ComplexKind>,
    req: &VisitorRequest,
    r: &VisitorResponse,
) -> bool {
    match req {
        VisitorRequest::SupportedResources { .. } => {
            &&& r matches VisitorResponse::SupportedResources { resource_list }
            &&& forall|k: BasicKind| #[trigger] resource_list@.contains(k) <==> gen.contains(k)
        },
        VisitorRequest::SupportedCombinations { .. } => {
            &&& r matches VisitorResponse::SupportedCombinations { combination_list }
            &&& forall|k: ComplexKind| #[trigger] combination_list@.contains(k) <==> comb.contains(
                k,
            )
        },
        VisitorRequest::Generate { kind, .. } => {
            &&& r matches VisitorResponse::Generate { resource }
            &&& if first_with(m.cells, true) >= 0 && gen.contains(*kind) {
                resource matches Some(b) && basic_kind(&b) == *kind
            } else {
                resource is None
            }
        },
        VisitorRequest::Combine { request, .. } => {
            &&& r matches VisitorResponse::Combine { result }
            &&& if !comb.contains(request.spec_kind()) {
                result matches Err(f) && f.refund == *request && f.reason
                    == CombineRefusal::NoRecipe(request.spec_kind())
            } else if first_with(m.cells, true) < 0 {
                result matches Err(f) && f.refund == *request && f.reason
                    == CombineRefusal::NoChargedCell
            } else {
                result matches Ok(x) && complex_kind(&x) == request.spec_kind()
            }
        },
        VisitorRequest::AvailableCells { .. } => {
            &&& r matches VisitorResponse::AvailableCells { available_cells }
            &&& available_cells == charged_count(m.cells)
        },
    }
}

// ---------------------------------------------------------------------------
// The policy itself.
// ---------------------------------------------------------------------------
/// The decision component of one body.  It holds no mutable state of its
/// own; `id` tags the body in outbound acknowledgements.
pub struct Policy {
    pub id: u32,
}

impl Policy {
    pub fn new(id: u32) -> (r: Policy)
        ensures
            r.id == id,
    {
        Policy { id }
    }

    /// Power event: charge a cell, then — only if the body holds no rocket —
    /// attempt to build one from a charged cell, absorbing any build
    /// failure.  Defense readiness preempts production.
    pub fn handle_sunray(
        &self,
        state: &mut BodyState,
        _generator: &Generator,
        _combinator: &Combinator,
        log: &mut Vec<LogEntry>,
    )
        ensures
            final(state).spec_cells().len() == old(state).spec_cells().len(),
            final(state).model() == power_model(old(state).model()),
            final(log)@ == old(log)@ + power_log(old(state).model()),
    {
        let ghost m0 = state.model();
        proof {
            lemma_first_with(m0.cells, false);
        }
        let newly = state.charge_cell();
        if newly {
            log.push(LogEntry::CellCharged);
        } else {
            log.push(LogEntry::CellAlreadyCharged);
        }
        proof {
            assert(state.model() =~= charge_model(m0));
        }
        let ghost m1 = state.model();
        proof {
            lemma_first_with(m1.cells, true);
        }
        if !state.has_rocket() {
            match state.full_cell() {
                None => {
                    proof {
                        assert(state.model() =~= power_model(m0));
                        assert(log@ =~= old(log)@ + power_log(m0));
                    }
                },
                Some(i) => {
                    let _ = state.build_rocket(i);
                    log.push(LogEntry::RocketBuilt);
                    proof {
                        assert(state.model() =~= power_model(m0));
                        assert(log@ =~= old(log)@ + power_log(m0));
                    }
                },
            }
        } else {
            proof {
                assert(state.model() =~= power_model(m0));
                assert(log@ =~= old(log)@ + power_log(m0));
            }
        }
    }

    /// Defense event: fire the existing rocket, or build one on the spot
    /// from a charged cell and fire it; `None` means the body is undefended
    /// this round.
    pub fn handle_asteroid(
        &self,
        state: &mut BodyState,
        _generator: &Generator,
        _combinator: &Combinator,
        log: &mut Vec<LogEntry>,
    ) -> (r: Option<Rocket>)
        ensures
            final(state).spec_cells().len() == old(state).spec_cells().len(),
            final(state).model() == defense_model(old(state).model()).0,
            r is Some <==> defense_model(old(state).model()).1,
            old(state).spec_has_rocket() ==> r == old(state).spec_rocket(),
            final(log)@ == old(log)@ + defense_log(old(state).model()),
    {
        let ghost m0 = state.model();
        proof {
            lemma_first_with(m0.cells, true);
        }
        if state.has_rocket() {
            let r = state.take_rocket();
            proof {
                assert(state.model() =~= defense_model(m0).0);
                assert(log@ =~= old(log)@ + defense_log(m0));
            }
            return r;
        }
        match state.full_cell() {
            None => {
                proof {
                    assert(state.model() =~= defense_model(m0).0);
                    assert(log@ =~= old(log)@ + defense_log(m0));
                }
                None
            },
            Some(i) => {
                let built = state.build_rocket(i);
                log.push(LogEntry::RocketBuilt);
                let r = match built {
                    Ok(()) => state.take_rocket(),
                    Err(_) => None,
                };
                proof {
                    assert(state.model() =~= defense_model(m0).0);
                    assert(log@ =~= old(log)@ + defense_log(m0));
                }
                r
            },
        }
    }

    /// Introspection: a pure projection of the current state, no mutation.
    pub fn handle_internal_state_req(
        &self,
        state: &BodyState,
        _generator: &Generator,
        _combinator: &Combinator,
    ) -> (r: Snapshot)
        ensures
            r.energy_cells@ == state.spec_cells(),
            r.charged_cells_count == charged_count(state.spec_cells()),
            r.has_rocket == state.spec_has_rocket(),
    {
        state.to_snapshot()
    }

    /// Visitor request dispatch.  Catalog queries and the cell count never
    /// consume a cell; generation and combination consume the lowest charged
    /// cell exactly when they produce; a failed combination refunds the
    /// exact input resources.  A visitor always receives a response.
    pub fn handle_explorer_msg(
        &self,
        state: &mut BodyState,
        generator: &Generator,
        combinator: &Combinator,
        msg: VisitorRequest,
    ) -> (r: VisitorResponse)
        requires
            old(state).wf(),
        ensures
            final(state).spec_cells().len() == old(state).spec_cells().len(),
            final(state).model() == visitor_state_after(
                old(state).model(),
                gen_recipes(generator),
                comb_recipes(combinator),
                &msg,
            ),
            response_matches(
                old(state).model(),
                gen_recipes(generator),
                comb_recipes(combinator),
                &msg,
                &r,
            ),
    {
        let ghost m0 = state.model();
        proof {
            lemma_first_with(m0.cells, true);
        }
        match msg {
            VisitorRequest::SupportedResources { visitor_id: _ } => {
                VisitorResponse::SupportedResources {
                    resource_list: generator_catalog(generator),
                }
            },
            VisitorRequest::SupportedCombinations { visitor_id: _ } => {
                VisitorResponse::SupportedCombinations {
                    combination_list: combinator_catalog(combinator),
                }
            },
            VisitorRequest::Generate { visitor_id: _, kind } => {
                match state.full_cell() {
                    None => VisitorResponse::Generate { resource: None },
                    Some(i) => match generator_make(generator, kind) {
                        Some(b) => {
                            let _ = state.discharge_cell(i);
                            proof {
                                assert(state.model() =~= consume_model(m0));
                            }
                            VisitorResponse::Generate { resource: Some(b) }
                        },
                        None => VisitorResponse::Generate { resource: None },
                    },
                }
            },
            VisitorRequest::Combine { visitor_id: _, request } => {
                let kind = request.kind();
                if !combinator_contains(combinator, kind) {
                    VisitorResponse::Combine {
                        result: Err(
                            CombineFailure {
                                reason: CombineRefusal::NoRecipe(kind),
                                refund: request,
                            },
                        ),
                    }
                } else {
                    match state.full_cell() {
                        None => VisitorResponse::Combine {
                            result: Err(
                                CombineFailure {
                                    reason: CombineRefusal::NoChargedCell,
                                    refund: request,
                                },
                            ),
                        },
                        Some(i) => {
                            let _ = state.discharge_cell(i);
                            proof {
                                assert(state.model() =~= consume_model(m0));
                            }
                            let result = match request {
                                CombineRequest::Water(a, b) => match make_water(
                                    combinator,
                                    a,
                                    b,
                                ) {
                                    Ok(x) => Ok(x),
                                    Err((a, b)) => Err(
                                        CombineFailure {
                                            reason: CombineRefusal::NoRecipe(ComplexKind::Water),
                                            refund: CombineRequest::Water(a, b),
                                        },
                                    ),
                                },
                                CombineRequest::Diamond(a, b) => match make_diamond(
                                    combinator,
                                    a,
                                    b,
                                ) {
                                    Ok(x) => Ok(x),
                                    Err((a, b)) => Err(
                                        CombineFailure {
                                            reason: CombineRefusal::NoRecipe(ComplexKind::Diamond),
                                            refund: CombineRequest::Diamond(a, b),
                                        },
                                    ),
                                },
                                CombineRequest::Life(a, b) => match make_life(combinator, a, b) {
                                    Ok(x) => Ok(x),
                                    Err((a, b)) => Err(
                                        CombineFailure {
                                            reason: CombineRefusal::NoRecipe(ComplexKind::Life),
                                            refund: CombineRequest::Life(a, b),
                                        },
                                    ),
                                },
                                CombineRequest::Robot(a, b) => match make_robot(combinator, a, b) {
                                    Ok(x) => Ok(x),
                                    Err((a, b)) => Err(
                                        CombineFailure {
                                            reason: CombineRefusal::NoRecipe(ComplexKind::Robot),
                                            refund: CombineRequest::Robot(a, b),
                                        },
                                    ),
                                },
                                CombineRequest::Dolphin(a, b) => match make_dolphin(
                                    combinator,
                                    a,
                                    b,
                                ) {
                                    Ok(x) => Ok(x),
                                    Err((a, b)) => Err(
                                        CombineFailure {
                                            reason: CombineRefusal::NoRecipe(ComplexKind::Dolphin),
                                            refund: CombineRequest::Dolphin(a, b),
                                        },
                                    ),
                                },
                                CombineRequest::AIPartner(a, b) => match make_aipartner(
                                    combinator,
                                    a,
                                    b,
                                ) {
                                    Ok(x) => Ok(x),
                                    Err((a, b)) => Err(
                                        CombineFailure {
                                            reason: CombineRefusal::NoRecipe(
                                                ComplexKind::AIPartner,
                                            ),
                                            refund: CombineRequest::AIPartner(a, b),
                                        },
                                    ),
                                },
                            };
                            VisitorResponse::Combine { result }
                        },
                    }
                }
            },
            VisitorRequest::AvailableCells { visitor_id: _ } => {
                proof {
                    lemma_count_le_len(m0.cells);
                }
                let c = state.charged_cells();
                VisitorResponse::AvailableCells { available_cells: c as u32 }
            },
        }
    }

    /// Pure extension point: a visitor landed.
    pub fn on_visitor_arrival(
        &self,
        state: &mut BodyState,
        _generator: &Generator,
        _combinator: &Combinator,
        _visitor_id: u32,
    )
        ensures
            *final(state) == *old(state),
    {
    }

    /// Pure extension point: a visitor left.
    pub fn on_visitor_departure(
        &self,
        state: &mut BodyState,
        _generator: &Generator,
        _combinator: &Combinator,
        _visitor_id: u32,
    )
        ensures
            *final(state) == *old(state),
    {
    }

    /// Pure extension point: the body was started.
    pub fn on_start(&self, _state: &BodyState, _generator: &Generator, _combinator: &Combinator) {
    }

    /// Pure extension point: the body was stopped.
    pub fn on_stop(&self, _state: &BodyState, _generator: &Generator, _combinator: &Combinator) {
    }
}

} // verus!

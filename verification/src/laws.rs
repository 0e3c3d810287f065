//! Body-wide laws, proved once over the ghost models that the handlers'
//! contracts are stated against.

use vstd::prelude::*;

use crate::actor::{gate_closed, lifecycle_step, CoordinatorCommand, Lifecycle};
use crate::kinds::{BasicKind, ComplexKind};
use crate::policy::{
    charge_model, defense_model, power_model, response_matches, visitor_state_after,
    VisitorRequest, VisitorResponse,
};
use crate::state::{
    charged_count, first_slot, first_with, lemma_count_le_len, lemma_count_update,
    lemma_count_zero, lemma_first_with, BodyModel,
};

verus! {

/// The body after `n` power events.
pub open spec fn iter_power(m: BodyModel, n: nat) -> BodyModel
    decreases n,
{
    if n == 0 {
        m
    } else {
        power_model(iter_power(m, (n - 1) as nat))
    }
}

/// Law: one power event keeps the size of the cell bank and the bound
/// `charged count <= capacity`; the charging half never decreases the
/// count, and the whole event decreases it only through the opportunistic
/// build that produces the rocket, by exactly the one cell it consumes.
pub proof fn lemma_power_event_count(m: BodyModel)
    requires
        charged_count(m.cells) <= m.cells.len(),
    ensures
        power_model(m).cells.len() == m.cells.len(),
        charged_count(power_model(m).cells) <= m.cells.len(),
        charged_count(charge_model(m).cells) >= charged_count(m.cells),
        charged_count(power_model(m).cells) + (if power_model(m).has_rocket && !m.has_rocket {
            1int
        } else {
            0int
        }) >= charged_count(m.cells),
{
    let c = charge_model(m);
    lemma_first_with(m.cells, false);
    if first_with(m.cells, false) >= 0 {
        lemma_count_update(m.cells, first_with(m.cells, false), true);
    }
    lemma_count_le_len(c.cells);
    lemma_first_with(c.cells, true);
    if !c.has_rocket && c.can_have_rocket && first_with(c.cells, true) >= 0 {
        lemma_count_update(c.cells, first_with(c.cells, true), false);
    }
}

/// Law: under any sequence of power events, the cell bank keeps its size
/// and the charged-cell count never exceeds the body's capacity.
pub proof fn lemma_cell_monotonicity(m: BodyModel, n: nat)
    requires
        charged_count(m.cells) <= m.cells.len(),
    ensures
        iter_power(m, n).cells.len() == m.cells.len(),
        charged_count(iter_power(m, n).cells) <= m.cells.len(),
    decreases n,
{
    if n > 0 {
        lemma_cell_monotonicity(m, (n - 1) as nat);
        lemma_power_event_count(iter_power(m, (n - 1) as nat));
    }
}

/// Law: a visitor request keeps the size of the cell bank and lowers the
/// charged count exactly when it produces a resource — by the single cell
/// the production consumes — and leaves it unchanged otherwise.
pub proof fn lemma_visitor_consumption(
    m: BodyModel,
    gen: Set<BasicKind>,
    comb: Set<ComplexKind>,
    req: &VisitorRequest,
)
    ensures
        visitor_state_after(m, gen, comb, req).cells.len() == m.cells.len(),
        charged_count(visitor_state_after(m, gen, comb, req).cells) == charged_count(m.cells) - (
        if visitor_state_after(m, gen, comb, req) == m {
            0int
        } else {
            1int
        }),
{
    lemma_first_with(m.cells, true);
    let i = first_with(m.cells, true);
    if i >= 0 {
        lemma_count_update(m.cells, i, false);
        if m.cells.update(i, false) =~= m.cells {
            assert(m.cells[i] == false);
        }
    }
}

/// Law (combination refund): a combine request whose recipe is not in the
/// combinator's catalog, or whose cell precondition fails, earns a failure
/// response that carries back exactly the request's two inputs, and no cell
/// is consumed: the body is left unchanged.
pub proof fn lemma_combination_refund(
    m: BodyModel,
    gen: Set<BasicKind>,
    comb: Set<ComplexKind>,
    req: VisitorRequest,
    r: VisitorResponse,
)
    requires
        req is Combine,
        response_matches(m, gen, comb, &req, &r),
        !(comb.contains(req->Combine_request.spec_kind()) && first_with(m.cells, true) >= 0),
    ensures
        (r matches VisitorResponse::Combine { result } && result matches Err(f) && f.refund
            == req->Combine_request),
        visitor_state_after(m, gen, comb, &req) == m,
{
}

/// Law (priority policy): a body that may hold a rocket, holds none, and has
/// only empty cells ends one power event with the rocket built and the
/// charged count still zero — the freshly charged cell goes to defense, not
/// to production.
pub proof fn lemma_priority_policy(m: BodyModel)
    requires
        !m.has_rocket,
        m.can_have_rocket,
        m.cells.len() >= 1,
        charged_count(m.cells) == 0,
    ensures
        power_model(m).has_rocket,
        charged_count(power_model(m).cells) == 0,
{
    lemma_count_zero(m.cells);
    assert(first_slot(m.cells, false, 0));
    lemma_first_with(m.cells, false);
    let c = charge_model(m);
    assert(c.cells == m.cells.update(0, true));
    assert(first_slot(c.cells, true, 0));
    lemma_first_with(c.cells, true);
    lemma_count_update(m.cells, 0, true);
    lemma_count_update(c.cells, 0, false);
    assert(power_model(m).cells == c.cells.update(0, false));
}

/// Law (defense depletion): a body holding a rocket answers a defense event
/// by firing it, leaving the cells untouched and the body rocket-less; with
/// no charged cell left, an immediately following defense event yields
/// nothing and changes nothing.
pub proof fn lemma_defense_depletion(m: BodyModel)
    requires
        m.has_rocket,
        charged_count(m.cells) == 0,
    ensures
        defense_model(m).1,
        !defense_model(m).0.has_rocket,
        defense_model(m).0.cells == m.cells,
        !defense_model(defense_model(m).0).1,
        defense_model(defense_model(m).0).0 == defense_model(m).0,
{
    lemma_count_zero(m.cells);
    let m1 = defense_model(m).0;
    lemma_first_with(m1.cells, true);
    if first_with(m1.cells, true) >= 0 {
        assert(first_slot(m1.cells, true, first_with(m1.cells, true)));
    }
}

/// Law (stopped-visitor gate): once a stop command has been processed, the
/// visitor gate is closed, whatever the prior lifecycle; a closed gate means
/// `Body::handle_visitor` answers every request with the fixed stopped
/// response and touches nothing (see its contract).
pub proof fn lemma_stopped_visitor_gate(lc: Lifecycle)
    ensures
        gate_closed(lifecycle_step(lc, CoordinatorCommand::Stop)),
{
}

} // verus!

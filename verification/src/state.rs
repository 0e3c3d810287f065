//! The body's mutable resource state: a fixed bank of energy cells, each
//! either empty or charged, and at most one defense rocket.
//!
//! Cell selection is deterministic: operations that pick a cell always pick
//! the lowest-index one, so behaviour is reproducible.

use vstd::prelude::*;

verus! {

/// Number of charged cells in `s`.
pub open spec fn charged_count(s: Seq<bool>) -> nat
    decreases s.len(),
{
    if s.len() == 0 {
        0
    } else {
        charged_count(s.drop_last()) + (if s.last() {
            1nat
        } else {
            0nat
        })
    }
}

/// `i` is the lowest index of `s` holding `want`.
pub open spec fn first_slot(s: Seq<bool>, want: bool, i: int) -> bool {
    &&& 0 <= i < s.len()
    &&& s[i] == want
    &&& forall|j: int| 0 <= j < i ==> s[j] != want
}

/// The lowest index of `s` holding `want`, or `-1` if there is none.
pub open spec fn first_with(s: Seq<bool>, want: bool) -> int
    decreases s.len(),
{
    if s.len() == 0 {
        -1
    } else if s[0] == want {
        0
    } else {
        let rest = first_with(s.subrange(1, s.len() as int), want);
        if rest < 0 {
            -1
        } else {
            1 + rest
        }
    }
}

/// `first_with` finds the unique lowest slot holding `want`, or reports that
/// none exists.
pub proof fn lemma_first_with(s: Seq<bool>, want: bool)
    ensures
        first_with(s, want) == -1 ==> forall|j: int| 0 <= j < s.len() ==> s[j] != want,
        first_with(s, want) >= 0 ==> first_slot(s, want, first_with(s, want)),
        forall|i: int| first_slot(s, want, i) ==> first_with(s, want) == i,
    decreases s.len(),
{
    if s.len() > 0 && s[0] != want {
        let tail = s.subrange(1, s.len() as int);
        lemma_first_with(tail, want);
        assert(forall|j: int| 0 <= j < tail.len() ==> tail[j] == s[j + 1]);
        let f = first_with(s, want);
        if first_with(tail, want) == -1 {
            assert forall|j: int| 0 <= j < s.len() implies s[j] != want by {
                if j >= 1 {
                    assert(tail[j - 1] != want);
                }
            }
        }
        if first_with(tail, want) >= 0 {
            assert(first_slot(tail, want, f - 1));
            assert(forall|j: int| 1 <= j < f ==> s[j] == tail[j - 1]);
        }
        assert forall|i: int| first_slot(s, want, i) implies first_with(s, want) == i by {
            assert(i >= 1);
            assert(first_slot(tail, want, i - 1));
        }
    }
}

pub proof fn lemma_count_le_len(s: Seq<bool>)
    ensures
        charged_count(s) <= s.len(),
    decreases s.len(),
{
    if s.len() > 0 {
        lemma_count_le_len(s.drop_last());
    }
}

/// Flipping one cell changes the charged count by exactly the difference of
/// the old and new bit.
pub proof fn lemma_count_update(s: Seq<bool>, i: int, v: bool)
    requires
        0 <= i < s.len(),
    ensures
        charged_count(s.update(i, v)) == charged_count(s) - (if s[i] {
            1int
        } else {
            0int
        }) + (if v {
            1int
        } else {
            0int
        }),
    decreases s.len(),
{
    let t = s.update(i, v);
    if i == s.len() - 1 {
        assert(t.drop_last() =~= s.drop_last());
    } else {
        assert(t.drop_last() =~= s.drop_last().update(i, v));
        lemma_count_update(s.drop_last(), i, v);
    }
}

/// The charged count is zero exactly when no cell is charged.
pub proof fn lemma_count_zero(s: Seq<bool>)
    ensures
        (charged_count(s) == 0) <==> (forall|i: int| 0 <= i < s.len() ==> !s[i]),
    decreases s.len(),
{
    if s.len() > 0 {
        lemma_count_zero(s.drop_last());
        assert(forall|i: int| 0 <= i < s.len() - 1 ==> s[i] == s.drop_last()[i]);
        if charged_count(s) == 0 {
            assert(forall|i: int| 0 <= i < s.len() ==> !s[i]) by {
                assert(!s.last());
                assert(forall|i: int| 0 <= i < s.len() - 1 ==> !s.drop_last()[i]);
            }
        }
    }
}

/// The body's single defense asset.  A rocket is only ever created by
/// [`BodyState::build_rocket`], which consumes one charged cell.
#[derive(Debug)]
pub struct Rocket {
    _token: (),
}

/// An immutable projection of the body state for coordinator introspection:
/// a copy, never a live alias.
#[derive(Debug)]
pub struct Snapshot {
    /// Charge state of each cell, by index.
    pub energy_cells: Vec<bool>,
    /// Number of charged cells, recomputed from the live state.
    pub charged_cells_count: usize,
    /// Whether the body currently holds a rocket.
    pub has_rocket: bool,
}

/// A ghost-level rendering of the body state, over which the policy's step
/// functions and laws are stated.
#[verifier::ext_equal]
pub struct BodyModel {
    pub cells: Seq<bool>,
    pub has_rocket: bool,
    pub can_have_rocket: bool,
}

/// The mutable record of energy storage cells and the optional rocket.
#[derive(Debug)]
pub struct BodyState {
    cells: Vec<bool>,
    rocket: Option<Rocket>,
    can_have_rocket: bool,
}

impl BodyState {
    /// Charge state of each cell, by index.
    pub closed spec fn spec_cells(&self) -> Seq<bool> {
        self.cells@
    }

    pub closed spec fn spec_rocket(&self) -> Option<Rocket> {
        self.rocket
    }

    pub open spec fn spec_has_rocket(&self) -> bool {
        self.spec_rocket() is Some
    }

    pub closed spec fn spec_can_have_rocket(&self) -> bool {
        self.can_have_rocket
    }

    /// The cell bank is small enough for its count to fit the protocol's
    /// integer width.
    pub open spec fn wf(&self) -> bool {
        self.spec_cells().len() <= u32::MAX
    }

    /// The ghost-level rendering of this state.
    pub open spec fn model(&self) -> BodyModel {
        BodyModel {
            cells: self.spec_cells(),
            has_rocket: self.spec_has_rocket(),
            can_have_rocket: self.spec_can_have_rocket(),
        }
    }

    /// A fresh body: `n_cells` empty cells, no rocket.
    pub fn new(n_cells: usize, can_have_rocket: bool) -> (r: BodyState)
        requires
            n_cells <= u32::MAX,
        ensures
            r.wf(),
            r.spec_cells().len() == n_cells,
            forall|i: int| 0 <= i < n_cells ==> !r.spec_cells()[i],
            !r.spec_has_rocket(),
            r.spec_can_have_rocket() == can_have_rocket,
    {
        let mut cells: Vec<bool> = Vec::new();
        let mut k: usize = 0;
        while k < n_cells
            invariant
                k <= n_cells,
                cells@.len() == k,
                forall|i: int| 0 <= i < k ==> !cells@[i],
            decreases n_cells - k,
        {
            cells.push(false);
            k = k + 1;
        }
        BodyState { cells, rocket: None, can_have_rocket }
    }

    /// Number of cells owned by the body.
    pub fn cells_count(&self) -> (r: usize)
        ensures
            r == self.spec_cells().len(),
    {
        self.cells.len()
    }

    /// Number of charged cells, recomputed from live state.
    pub fn charged_cells(&self) -> (r: usize)
        ensures
            r == charged_count(self.spec_cells()),
    {
        let mut count: usize = 0;
        let mut k: usize = 0;
        while k < self.cells.len()
            invariant
                k <= self.cells@.len(),
                count == charged_count(self.cells@.subrange(0, k as int)),
                count <= k,
            decreases self.cells@.len() - k,
        {
            proof {
                assert(self.cells@.subrange(0, k + 1).drop_last() =~= self.cells@.subrange(
                    0,
                    k as int,
                ));
            }
            if self.cells[k] {
                count = count + 1;
            }
            k = k + 1;
        }
        proof {
            assert(self.cells@.subrange(0, self.cells@.len() as int) =~= self.cells@);
        }
        count
    }

    /// Index of the lowest charged cell, or `None` if every cell is empty.
    pub fn full_cell(&self) -> (r: Option<usize>)
        ensures
            match r {
                Some(i) => first_slot(self.spec_cells(), true, i as int),
                None => forall|j: int| 0 <= j < self.spec_cells().len() ==> !self.spec_cells()[j],
            },
    {
        self.find_cell(true)
    }

    /// Index of the lowest empty cell, or `None` if every cell is charged.
    pub fn empty_cell(&self) -> (r: Option<usize>)
        ensures
            match r {
                Some(i) => first_slot(self.spec_cells(), false, i as int),
                None => forall|j: int| 0 <= j < self.spec_cells().len() ==> self.spec_cells()[j],
            },
    {
        self.find_cell(false)
    }

    fn find_cell(&self, want: bool) -> (r: Option<usize>)
        ensures
            match r {
                Some(i) => first_slot(self.spec_cells(), want, i as int),
                None => forall|j: int|
                    0 <= j < self.spec_cells().len() ==> self.spec_cells()[j] != want,
            },
    {
        let mut k: usize = 0;
        while k < self.cells.len()
            invariant
                k <= self.cells@.len(),
                forall|j: int| 0 <= j < k ==> self.cells@[j] != want,
            decreases self.cells@.len() - k,
        {
            if self.cells[k] == want {
                return Some(k);
            }
            k = k + 1;
        }
        None
    }

    /// Charges the lowest-index empty cell, if any.  Returns whether a cell
    /// was newly charged; when every cell is already charged the power is
    /// wasted and the state is unchanged.
    pub fn charge_cell(&mut self) -> (newly_charged: bool)
        ensures
            final(self).spec_cells().len() == old(self).spec_cells().len(),
            final(self).spec_rocket() == old(self).spec_rocket(),
            final(self).spec_can_have_rocket() == old(self).spec_can_have_rocket(),
            newly_charged <==> exists|i: int| first_slot(old(self).spec_cells(), false, i),
            newly_charged ==> exists|i: int|
                #[trigger] first_slot(old(self).spec_cells(), false, i) && final(self).spec_cells()
                    == old(self).spec_cells().update(i, true),
            !newly_charged ==> final(self).spec_cells() == old(self).spec_cells(),
    {
        match self.empty_cell() {
            None => false,
            Some(i) => {
                self.cells.set(i, true);
                true
            },
        }
    }

    /// Builds a rocket by discharging cell `i`.  Fails, leaving the state
    /// unchanged, if the body may not hold rockets, already holds one, or
    /// cell `i` is not charged.
    pub fn build_rocket(&mut self, i: usize) -> (r: Result<(), StateError>)
        requires
            i < old(self).spec_cells().len(),
        ensures
            final(self).spec_can_have_rocket() == old(self).spec_can_have_rocket(),
            r is Ok <==> old(self).spec_can_have_rocket() && !old(self).spec_has_rocket() && old(
                self,
            ).spec_cells()[i as int],
            r is Ok ==> final(self).spec_has_rocket() && final(self).spec_cells() == old(
                self,
            ).spec_cells().update(i as int, false),
            r matches Err(e) ==> *final(self) == *old(self) && match e {
                StateError::RocketsForbidden => !old(self).spec_can_have_rocket(),
                StateError::RocketPresent => old(self).spec_can_have_rocket() && old(
                    self,
                ).spec_has_rocket(),
                StateError::CellNotCharged => old(self).spec_can_have_rocket() && !old(
                    self,
                ).spec_has_rocket() && !old(self).spec_cells()[i as int],
            },
    {
        if !self.can_have_rocket {
            Err(StateError::RocketsForbidden)
        } else if self.rocket.is_some() {
            Err(StateError::RocketPresent)
        } else if !self.cells[i] {
            Err(StateError::CellNotCharged)
        } else {
            self.cells.set(i, false);
            self.rocket = Some(Rocket { _token: () });
            Ok(())
        }
    }

    /// Discharges cell `i`.  Fails, leaving the state unchanged, if the cell
    /// is not charged.
    pub fn discharge_cell(&mut self, i: usize) -> (r: Result<(), StateError>)
        requires
            i < old(self).spec_cells().len(),
        ensures
            r is Ok <==> old(self).spec_cells()[i as int],
            r is Ok ==> final(self).spec_cells() == old(self).spec_cells().update(i as int, false),
            r matches Err(e) ==> *final(self) == *old(self) && e == StateError::CellNotCharged,
            final(self).spec_rocket() == old(self).spec_rocket(),
            final(self).spec_can_have_rocket() == old(self).spec_can_have_rocket(),
    {
        if self.cells[i] {
            self.cells.set(i, false);
            Ok(())
        } else {
            Err(StateError::CellNotCharged)
        }
    }

    /// Whether the body currently holds a rocket.
    pub fn has_rocket(&self) -> (r: bool)
        ensures
            r == self.spec_has_rocket(),
    {
        self.rocket.is_some()
    }

    /// Removes and returns the rocket, leaving the body rocket-less;
    /// `None` if no rocket exists.
    pub fn take_rocket(&mut self) -> (r: Option<Rocket>)
        ensures
            !final(self).spec_has_rocket(),
            final(self).spec_cells() == old(self).spec_cells(),
            final(self).spec_can_have_rocket() == old(self).spec_can_have_rocket(),
            r == old(self).spec_rocket(),
            r is Some <==> old(self).spec_has_rocket(),
    {
        self.rocket.take()
    }

    /// A pure projection of the current state; mutating it has no effect on
    /// the body.
    pub fn to_snapshot(&self) -> (r: Snapshot)
        ensures
            r.energy_cells@ == self.spec_cells(),
            r.charged_cells_count == charged_count(self.spec_cells()),
            r.has_rocket == self.spec_has_rocket(),
    {
        let mut copy: Vec<bool> = Vec::new();
        let mut k: usize = 0;
        while k < self.cells.len()
            invariant
                k <= self.cells@.len(),
                copy@ =~= self.cells@.subrange(0, k as int),
            decreases self.cells@.len() - k,
        {
            copy.push(self.cells[k]);
            k = k + 1;
        }
        proof {
            assert(copy@ =~= self.cells@);
        }
        Snapshot {
            energy_cells: copy,
            charged_cells_count: self.charged_cells(),
            has_rocket: self.rocket.is_some(),
        }
    }
}

/// Why a rocket build was refused.
#[derive(Clone, Copy, Debug, PartialEq, Eq, Structural)]
pub enum StateError {
    /// The body's archetype prohibits storing rockets.
    RocketsForbidden,
    /// The body already holds a rocket.
    RocketPresent,
    /// The designated cell is not charged.
    CellNotCharged,
}

} // verus!

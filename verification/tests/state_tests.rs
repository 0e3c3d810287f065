use planet_core::archetype::{validate_rules, BodyArchetype, ConfigError};
use planet_core::kinds::{recipe_inputs, BasicKind, ComplexKind, ResourceKind};
use planet_core::logbook::LogEntry;
use planet_core::state::{BodyState, StateError};

#[test]
fn new_body_state_starts_empty() {
    let st = BodyState::new(5, true);
    assert_eq!(st.cells_count(), 5);
    assert_eq!(st.charged_cells(), 0);
    assert!(!st.has_rocket());
    assert!(st.full_cell().is_none());
    assert_eq!(st.empty_cell(), Some(0));
}

#[test]
fn charge_cell_fills_lowest_empty_first() {
    let mut st = BodyState::new(3, true);
    assert!(st.charge_cell());
    assert_eq!(st.charged_cells(), 1);
    assert_eq!(st.full_cell(), Some(0));
    assert!(st.charge_cell());
    assert_eq!(st.charged_cells(), 2);
    assert_eq!(st.empty_cell(), Some(2));
    assert!(st.charge_cell());
    // every cell charged: further power is wasted
    assert!(!st.charge_cell());
    assert_eq!(st.charged_cells(), 3);
}

#[test]
fn rocket_construction_consumes_the_cell() {
    let mut st = BodyState::new(1, true);
    st.charge_cell();

    let res = st.build_rocket(0);
    assert!(res.is_ok());
    assert!(st.has_rocket());
    assert_eq!(st.charged_cells(), 0);

    let rocket = st.take_rocket();
    assert!(rocket.is_some());
    assert!(!st.has_rocket());
    assert!(st.take_rocket().is_none());
}

#[test]
fn rocket_forbidden_archetype_cannot_build() {
    let mut st = BodyState::new(1, false);
    st.charge_cell();
    let res = st.build_rocket(0);
    assert!(res.is_err(), "a rocket-less archetype must not build rockets");
    // the cell must not have been consumed by the failed build
    assert_eq!(st.charged_cells(), 1);
}

#[test]
fn build_rocket_error_taxonomy() {
    let mut forbidden = BodyState::new(1, false);
    forbidden.charge_cell();
    assert_eq!(forbidden.build_rocket(0), Err(StateError::RocketsForbidden));

    let mut uncharged = BodyState::new(1, true);
    assert_eq!(uncharged.build_rocket(0), Err(StateError::CellNotCharged));

    let mut armed = BodyState::new(2, true);
    armed.charge_cell();
    armed.charge_cell();
    assert!(armed.build_rocket(0).is_ok());
    assert_eq!(armed.build_rocket(1), Err(StateError::RocketPresent));
}

#[test]
fn discharge_cell_needs_charge() {
    let mut st = BodyState::new(2, true);
    assert!(st.discharge_cell(0).is_err());
    st.charge_cell();
    assert!(st.discharge_cell(0).is_ok());
    assert_eq!(st.charged_cells(), 0);
}

#[test]
fn snapshot_is_a_copy_not_an_alias() {
    let mut st = BodyState::new(2, true);
    st.charge_cell();
    let mut snap = st.to_snapshot();
    assert_eq!(snap.energy_cells, vec![true, false]);
    assert_eq!(snap.charged_cells_count, 1);
    assert!(!snap.has_rocket);

    // mutating the snapshot has no effect on the body
    snap.energy_cells[1] = true;
    snap.charged_cells_count = 2;
    assert_eq!(st.charged_cells(), 1);
    assert_eq!(st.to_snapshot().charged_cells_count, 1);
}

#[test]
fn archetype_constraints_table() {
    let a = BodyArchetype::A.constraints();
    assert_eq!(a.n_energy_cells, 5);
    assert!(!a.unbounded_gen_rules);
    assert!(a.can_have_rocket);
    assert_eq!(a.n_comb_rules, 0);

    let b = BodyArchetype::B.constraints();
    assert_eq!(b.n_energy_cells, 1);
    assert!(b.unbounded_gen_rules);
    assert!(!b.can_have_rocket);
    assert_eq!(b.n_comb_rules, 1);

    let c = BodyArchetype::C.constraints();
    assert_eq!(c.n_energy_cells, 1);
    assert!(!c.unbounded_gen_rules);
    assert!(c.can_have_rocket);
    assert_eq!(c.n_comb_rules, 6);

    let d = BodyArchetype::D.constraints();
    assert_eq!(d.n_energy_cells, 5);
    assert!(d.unbounded_gen_rules);
    assert!(!d.can_have_rocket);
    assert_eq!(d.n_comb_rules, 0);
}

#[test]
fn validate_rules_accepts_and_rejects() {
    assert!(validate_rules(BodyArchetype::A, &vec![BasicKind::Oxygen], &vec![]).is_ok());
    assert_eq!(
        validate_rules(BodyArchetype::A, &vec![], &vec![]),
        Err(ConfigError::NoGenRules)
    );
    assert_eq!(
        validate_rules(
            BodyArchetype::A,
            &vec![BasicKind::Oxygen, BasicKind::Hydrogen],
            &vec![]
        ),
        Err(ConfigError::TooManyGenRules)
    );
    assert_eq!(
        validate_rules(BodyArchetype::A, &vec![BasicKind::Oxygen], &vec![ComplexKind::Water]),
        Err(ConfigError::TooManyCombRules)
    );
    // archetype B lifts the generation bound but allows one combination
    assert!(validate_rules(
        BodyArchetype::B,
        &vec![BasicKind::Oxygen, BasicKind::Hydrogen],
        &vec![ComplexKind::Water]
    )
    .is_ok());
    // the default silicon body: one generation rule, three combinations
    assert!(validate_rules(
        BodyArchetype::C,
        &vec![BasicKind::Silicon],
        &vec![ComplexKind::Robot, ComplexKind::AIPartner, ComplexKind::Diamond]
    )
    .is_ok());
}

#[test]
fn recipe_inputs_table() {
    assert_eq!(
        recipe_inputs(ComplexKind::Water),
        (
            ResourceKind::Basic(BasicKind::Hydrogen),
            ResourceKind::Basic(BasicKind::Oxygen)
        )
    );
    assert_eq!(
        recipe_inputs(ComplexKind::Diamond),
        (
            ResourceKind::Basic(BasicKind::Carbon),
            ResourceKind::Basic(BasicKind::Carbon)
        )
    );
    assert_eq!(
        recipe_inputs(ComplexKind::Life),
        (
            ResourceKind::Complex(ComplexKind::Water),
            ResourceKind::Basic(BasicKind::Carbon)
        )
    );
    assert_eq!(
        recipe_inputs(ComplexKind::Robot),
        (
            ResourceKind::Basic(BasicKind::Silicon),
            ResourceKind::Complex(ComplexKind::Life)
        )
    );
    assert_eq!(
        recipe_inputs(ComplexKind::Dolphin),
        (
            ResourceKind::Complex(ComplexKind::Water),
            ResourceKind::Complex(ComplexKind::Life)
        )
    );
    assert_eq!(
        recipe_inputs(ComplexKind::AIPartner),
        (
            ResourceKind::Complex(ComplexKind::Robot),
            ResourceKind::Complex(ComplexKind::Diamond)
        )
    );
}

#[test]
fn log_entries_render_as_key_detail_pairs() {
    assert_eq!(LogEntry::CellCharged.key(), "Energy cell");
    assert_eq!(LogEntry::CellCharged.detail(), "charged");
    assert_eq!(LogEntry::CellAlreadyCharged.key(), "Energy cell");
    assert_eq!(LogEntry::CellAlreadyCharged.detail(), "already charged");
    assert_eq!(LogEntry::RocketBuilt.key(), "Rocket");
    assert_eq!(LogEntry::RocketBuilt.detail(), "Built");
}

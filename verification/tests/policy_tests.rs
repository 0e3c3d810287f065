use common_game::components::planet::{
    DummyPlanetState, Planet, PlanetAI, PlanetState, PlanetType,
};
use common_game::components::resource::{
    BasicResourceType, Combinator, ComplexResourceType, Generator,
};
use common_game::components::rocket::Rocket;
use common_game::components::sunray::Sunray;
use common_game::protocols::planet_explorer::{ExplorerToPlanet, PlanetToExplorer};

use planet_core::kinds::{BasicKind, ComplexKind};
use planet_core::logbook::LogEntry;
use planet_core::policy::{
    CombineRefusal, CombineRequest, Policy, VisitorRequest, VisitorResponse,
};
use planet_core::state::BodyState;

/// A do-nothing behaviour, only used to instantiate `Planet` so that its
/// populated generator and combinator can be borrowed for the tests.
struct NullAI;

impl PlanetAI for NullAI {
    fn handle_sunray(
        &mut self,
        _state: &mut PlanetState,
        _generator: &Generator,
        _combinator: &Combinator,
        _sunray: Sunray,
    ) {
    }

    fn handle_asteroid(
        &mut self,
        _state: &mut PlanetState,
        _generator: &Generator,
        _combinator: &Combinator,
    ) -> Option<Rocket> {
        None
    }

    fn handle_internal_state_req(
        &mut self,
        state: &mut PlanetState,
        _generator: &Generator,
        _combinator: &Combinator,
    ) -> DummyPlanetState {
        state.to_dummy()
    }

    fn handle_explorer_msg(
        &mut self,
        _state: &mut PlanetState,
        _generator: &Generator,
        _combinator: &Combinator,
        _msg: ExplorerToPlanet,
    ) -> Option<PlanetToExplorer> {
        None
    }
}

fn make_planet(
    planet_type: PlanetType,
    gen_rules: Vec<BasicResourceType>,
    comb_rules: Vec<ComplexResourceType>,
) -> Planet {
    let (_tx_orch, rx_orch) = crossbeam_channel::bounded(1);
    let (tx_planet, _rx_planet) = crossbeam_channel::bounded(1);
    let (_tx_expl, rx_expl) = crossbeam_channel::bounded(1);
    Planet::new(
        7,
        planet_type,
        Box::new(NullAI),
        gen_rules,
        comb_rules,
        (rx_orch, tx_planet),
        rx_expl,
    )
    .unwrap()
}

/// The default silicon body: one generation recipe,
/// three combination recipes.
fn silicon_planet() -> Planet {
    make_planet(
        PlanetType::C,
        vec![BasicResourceType::Silicon],
        vec![
            ComplexResourceType::Robot,
            ComplexResourceType::AIPartner,
            ComplexResourceType::Diamond,
        ],
    )
}

/// A wide generator (every basic kind) with no combination recipes.
fn wide_generator_planet() -> Planet {
    make_planet(
        PlanetType::D,
        vec![
            BasicResourceType::Hydrogen,
            BasicResourceType::Oxygen,
            BasicResourceType::Carbon,
            BasicResourceType::Silicon,
        ],
        vec![],
    )
}

/// A combinator that can follow the full chain up to an AI partner.
fn chain_combinator_planet() -> Planet {
    make_planet(
        PlanetType::C,
        vec![BasicResourceType::Silicon],
        vec![
            ComplexResourceType::Water,
            ComplexResourceType::Diamond,
            ComplexResourceType::Life,
            ComplexResourceType::Robot,
            ComplexResourceType::Dolphin,
            ComplexResourceType::AIPartner,
        ],
    )
}

fn charged_body(cells: usize) -> BodyState {
    let mut st = BodyState::new(cells, false);
    for _ in 0..cells {
        st.charge_cell();
    }
    st
}

#[test]
fn supported_resources_reports_the_catalog() {
    let planet = silicon_planet();
    let policy = Policy::new(1);
    let mut st = BodyState::new(1, true);
    let r = policy.handle_explorer_msg(
        &mut st,
        planet.generator(),
        planet.combinator(),
        VisitorRequest::SupportedResources { visitor_id: 9 },
    );
    match r {
        VisitorResponse::SupportedResources { resource_list } => {
            assert_eq!(resource_list, vec![BasicKind::Silicon]);
        }
        _ => panic!("wrong response kind"),
    }
}

#[test]
fn supported_combinations_reports_the_catalog() {
    let planet = silicon_planet();
    let policy = Policy::new(1);
    let mut st = BodyState::new(1, true);
    let r = policy.handle_explorer_msg(
        &mut st,
        planet.generator(),
        planet.combinator(),
        VisitorRequest::SupportedCombinations { visitor_id: 9 },
    );
    match r {
        VisitorResponse::SupportedCombinations { mut combination_list } => {
            combination_list.sort();
            let mut expected =
                vec![ComplexKind::Robot, ComplexKind::AIPartner, ComplexKind::Diamond];
            expected.sort();
            assert_eq!(combination_list, expected);
        }
        _ => panic!("wrong response kind"),
    }
}

#[test]
fn generate_needs_a_charged_cell() {
    let planet = silicon_planet();
    let policy = Policy::new(1);
    let mut st = BodyState::new(1, true);
    let r = policy.handle_explorer_msg(
        &mut st,
        planet.generator(),
        planet.combinator(),
        VisitorRequest::Generate { visitor_id: 9, kind: BasicKind::Silicon },
    );
    match r {
        VisitorResponse::Generate { resource } => assert!(resource.is_none()),
        _ => panic!("wrong response kind"),
    }
}

#[test]
fn generate_unsupported_kind_keeps_the_cell() {
    let planet = silicon_planet();
    let policy = Policy::new(1);
    let mut st = charged_body(1);
    let r = policy.handle_explorer_msg(
        &mut st,
        planet.generator(),
        planet.combinator(),
        VisitorRequest::Generate { visitor_id: 9, kind: BasicKind::Oxygen },
    );
    match r {
        VisitorResponse::Generate { resource } => assert!(resource.is_none()),
        _ => panic!("wrong response kind"),
    }
    // the cell was not consumed by a request that could never succeed
    assert_eq!(st.charged_cells(), 1);
}

#[test]
fn generate_supported_kind_consumes_one_cell() {
    let planet = silicon_planet();
    let policy = Policy::new(1);
    let mut st = charged_body(1);
    let r = policy.handle_explorer_msg(
        &mut st,
        planet.generator(),
        planet.combinator(),
        VisitorRequest::Generate { visitor_id: 9, kind: BasicKind::Silicon },
    );
    match r {
        VisitorResponse::Generate { resource } => {
            let silicon = resource.expect("a silicon resource was owed");
            assert_eq!(silicon.get_type(), BasicResourceType::Silicon);
        }
        _ => panic!("wrong response kind"),
    }
    assert_eq!(st.charged_cells(), 0);
}

#[test]
fn available_cells_counts_charged_cells() {
    let planet = silicon_planet();
    let policy = Policy::new(1);
    let mut st = BodyState::new(3, false);
    st.charge_cell();
    st.charge_cell();
    let r = policy.handle_explorer_msg(
        &mut st,
        planet.generator(),
        planet.combinator(),
        VisitorRequest::AvailableCells { visitor_id: 9 },
    );
    match r {
        VisitorResponse::AvailableCells { available_cells } => assert_eq!(available_cells, 2),
        _ => panic!("wrong response kind"),
    }
}

fn generate(
    policy: &Policy,
    st: &mut BodyState,
    generator: &Generator,
    combinator: &Combinator,
    kind: BasicKind,
) -> common_game::components::resource::BasicResource {
    st.charge_cell();
    match policy.handle_explorer_msg(
        st,
        generator,
        combinator,
        VisitorRequest::Generate { visitor_id: 9, kind },
    ) {
        VisitorResponse::Generate { resource } => resource.expect("generation was owed"),
        _ => panic!("wrong response kind"),
    }
}

fn combine(
    policy: &Policy,
    st: &mut BodyState,
    generator: &Generator,
    combinator: &Combinator,
    request: CombineRequest,
) -> Result<
    common_game::components::resource::ComplexResource,
    planet_core::policy::CombineFailure,
> {
    st.charge_cell();
    match policy.handle_explorer_msg(
        st,
        generator,
        combinator,
        VisitorRequest::Combine { visitor_id: 9, request },
    ) {
        VisitorResponse::Combine { result } => result,
        _ => panic!("wrong response kind"),
    }
}

fn make_water_through_policy(
    policy: &Policy,
    st: &mut BodyState,
    g: &Generator,
    c: &Combinator,
) -> common_game::components::resource::Water {
    let hydrogen = generate(policy, st, g, c, BasicKind::Hydrogen).to_hydrogen().unwrap();
    let oxygen = generate(policy, st, g, c, BasicKind::Oxygen).to_oxygen().unwrap();
    combine(policy, st, g, c, CombineRequest::Water(hydrogen, oxygen))
        .expect("water recipe is supported")
        .to_water()
        .unwrap()
}

fn make_life_through_policy(
    policy: &Policy,
    st: &mut BodyState,
    g: &Generator,
    c: &Combinator,
) -> common_game::components::resource::Life {
    let water = make_water_through_policy(policy, st, g, c);
    let carbon = generate(policy, st, g, c, BasicKind::Carbon).to_carbon().unwrap();
    combine(policy, st, g, c, CombineRequest::Life(water, carbon))
        .expect("life recipe is supported")
        .to_life()
        .unwrap()
}

#[test]
fn combine_chain_builds_every_complex_kind() {
    let gen_planet = wide_generator_planet();
    let comb_planet = chain_combinator_planet();
    let g = gen_planet.generator();
    let c = comb_planet.combinator();
    let policy = Policy::new(1);
    let mut st = BodyState::new(2, false);

    let carbon1 = generate(&policy, &mut st, g, c, BasicKind::Carbon).to_carbon().unwrap();
    let carbon2 = generate(&policy, &mut st, g, c, BasicKind::Carbon).to_carbon().unwrap();
    let diamond = combine(&policy, &mut st, g, c, CombineRequest::Diamond(carbon1, carbon2))
        .expect("diamond recipe is supported")
        .to_diamond()
        .unwrap();

    let life = make_life_through_policy(&policy, &mut st, g, c);
    let silicon = generate(&policy, &mut st, g, c, BasicKind::Silicon).to_silicon().unwrap();
    let robot = combine(&policy, &mut st, g, c, CombineRequest::Robot(silicon, life))
        .expect("robot recipe is supported")
        .to_robot()
        .unwrap();

    let partner = combine(&policy, &mut st, g, c, CombineRequest::AIPartner(robot, diamond))
        .expect("AI-partner recipe is supported");
    assert_eq!(partner.get_type(), ComplexResourceType::AIPartner);

    let water = make_water_through_policy(&policy, &mut st, g, c);
    let life = make_life_through_policy(&policy, &mut st, g, c);
    let dolphin = combine(&policy, &mut st, g, c, CombineRequest::Dolphin(water, life))
        .expect("dolphin recipe is supported");
    assert_eq!(dolphin.get_type(), ComplexResourceType::Dolphin);

    assert_eq!(st.charged_cells(), 0, "every production consumed exactly one cell");
}

#[test]
fn combine_unsupported_recipe_refunds_inputs_without_a_cell() {
    let gen_planet = wide_generator_planet();
    let silicon = silicon_planet();
    let chain = chain_combinator_planet();
    let g = gen_planet.generator();
    let policy = Policy::new(1);
    let mut st = BodyState::new(2, false);

    let hydrogen =
        generate(&policy, &mut st, g, chain.combinator(), BasicKind::Hydrogen)
            .to_hydrogen()
            .unwrap();
    let oxygen =
        generate(&policy, &mut st, g, chain.combinator(), BasicKind::Oxygen)
            .to_oxygen()
            .unwrap();

    // the silicon body has no water recipe: refusal, inputs back, cell kept
    st.charge_cell();
    let before = st.charged_cells();
    let failure = match policy.handle_explorer_msg(
        &mut st,
        g,
        silicon.combinator(),
        VisitorRequest::Combine {
            visitor_id: 9,
            request: CombineRequest::Water(hydrogen, oxygen),
        },
    ) {
        VisitorResponse::Combine { result } => result.err().expect("refusal was owed"),
        _ => panic!("wrong response kind"),
    };
    assert_eq!(failure.reason, CombineRefusal::NoRecipe(ComplexKind::Water));
    assert_eq!(failure.reason.message(), "there isn't a recipe for water");
    assert_eq!(st.charged_cells(), before, "no cell may be consumed on refusal");

    // the refund carries the request's own inputs: they still combine elsewhere
    let (hydrogen, oxygen) = match failure.refund {
        CombineRequest::Water(h, o) => (h, o),
        _ => panic!("refund must carry the request's own inputs"),
    };
    let water = combine(
        &policy,
        &mut st,
        g,
        chain.combinator(),
        CombineRequest::Water(hydrogen, oxygen),
    )
    .expect("water recipe is supported here");
    assert_eq!(water.get_type(), ComplexResourceType::Water);
}

#[test]
fn combine_without_charged_cell_refunds_inputs() {
    let gen_planet = wide_generator_planet();
    let chain = chain_combinator_planet();
    let g = gen_planet.generator();
    let c = chain.combinator();
    let policy = Policy::new(1);
    let mut st = BodyState::new(1, false);

    let hydrogen = generate(&policy, &mut st, g, c, BasicKind::Hydrogen).to_hydrogen().unwrap();
    let oxygen = generate(&policy, &mut st, g, c, BasicKind::Oxygen).to_oxygen().unwrap();
    assert_eq!(st.charged_cells(), 0);

    let failure = match policy.handle_explorer_msg(
        &mut st,
        g,
        c,
        VisitorRequest::Combine {
            visitor_id: 9,
            request: CombineRequest::Water(hydrogen, oxygen),
        },
    ) {
        VisitorResponse::Combine { result } => result.err().expect("refusal was owed"),
        _ => panic!("wrong response kind"),
    };
    assert_eq!(failure.reason, CombineRefusal::NoChargedCell);
    assert_eq!(failure.reason.message(), "There isn't any charged cell");
    assert!(matches!(failure.refund, CombineRequest::Water(_, _)));
}

#[test]
fn sunray_logs_the_charge_and_the_build_attempt() {
    let planet = silicon_planet();
    let policy = Policy::new(1);
    // an archetype that cannot hold rockets still attempts, and logs, a build
    let mut st = BodyState::new(1, false);
    let mut log = Vec::new();
    policy.handle_sunray(&mut st, planet.generator(), planet.combinator(), &mut log);
    assert_eq!(log, vec![LogEntry::CellCharged, LogEntry::RocketBuilt]);
    assert!(!st.has_rocket(), "the archetype forbids the rocket");
    assert_eq!(st.charged_cells(), 1, "the failed build must not consume the cell");

    log.clear();
    policy.handle_sunray(&mut st, planet.generator(), planet.combinator(), &mut log);
    assert_eq!(log, vec![LogEntry::CellAlreadyCharged, LogEntry::RocketBuilt]);
    assert_eq!(st.charged_cells(), 1);
}

#[test]
fn refusal_messages_name_the_recipe() {
    assert_eq!(
        CombineRefusal::NoRecipe(ComplexKind::Dolphin).message(),
        "there isn't a recipe for dolphin"
    );
    assert_eq!(
        CombineRefusal::NoRecipe(ComplexKind::Life).message(),
        "there isn't a recipe for life"
    );
}

//! The body's event-dispatch core: lifecycle state machine plus gated
//! delivery of coordinator commands and visitor requests to the policy.
//!
//! The surrounding harness owns the channels: it dequeues one message at a
//! time, calls [`Body::handle_coordinator`] or [`Body::handle_visitor`], and
//! sends the returned response back.  Events are handled one at a time, so
//! the multi-step mutations inside the policy are never observed mid-flight.
//!
//! The lifecycle gate applies uniformly to all inbound events: while the
//! body is not running, a coordinator command other than start or kill earns
//! a fixed stopped-notice, and a visitor request earns the fixed stopped
//! response, without reaching the policy.

use vstd::prelude::*;

use crate::archetype::{spec_constraints, BodyArchetype};
use crate::capability::{comb_recipes, gen_recipes};
use crate::logbook::LogEntry;
use crate::policy::{
    defense_log, defense_model, power_log, power_model, response_matches, visitor_state_after,
    Policy, VisitorRequest, VisitorResponse,
};
use crate::state::{charged_count, BodyModel, BodyState, Rocket, Snapshot};
use common_game::components::resource::{Combinator, Generator};

verus! {

/// The body's lifecycle, owned by the actor and consumed as a gate.
/// `Killed` is terminal: the actor's loop exits and no further event is
/// processed.
#[derive(Clone, Copy, Debug, PartialEq, Eq, Structural)]
pub enum Lifecycle {
    Stopped,
    Running,
    Killed,
}

/// An inbound coordinator command.
#[derive(Clone, Copy, Debug, PartialEq, Eq, Structural)]
pub enum CoordinatorCommand {
    /// Start, or restart, the body's policy.
    Start,
    /// Stop the body's policy.
    Stop,
    /// Destroy the body.
    Kill,
    /// A unit of power arrived.
    PowerEvent,
    /// An incoming threat: the body must answer with a rocket to survive.
    DefenseEvent,
    /// Ask for a snapshot of the internal state.
    Introspect,
}

/// The body's answer to a coordinator command.
#[derive(Debug)]
pub enum CoordinatorResponse {
    StartAck { body_id: u32 },
    StopAck { body_id: u32 },
    KillAck { body_id: u32 },
    PowerAck { body_id: u32 },
    DefenseAck { body_id: u32, rocket: Option<Rocket> },
    Introspection { body_id: u32, snapshot: Snapshot },
    /// Fixed notice sent while the body is stopped.
    StoppedNotice { body_id: u32 },
}

/// The lifecycle transition relation.
pub open spec fn lifecycle_step(lc: Lifecycle, cmd: CoordinatorCommand) -> Lifecycle {
    match cmd {
        CoordinatorCommand::Kill => Lifecycle::Killed,
        CoordinatorCommand::Start => if lc is Stopped {
            Lifecycle::Running
        } else {
            lc
        },
        CoordinatorCommand::Stop => if lc is Running {
            Lifecycle::Stopped
        } else {
            lc
        },
        _ => lc,
    }
}

/// Whether the lifecycle blocks visitor requests from reaching the policy.
pub open spec fn gate_closed(lc: Lifecycle) -> bool {
    !(lc is Running)
}

/// What a coordinator command does to the body state: only power and defense
/// events, delivered while running, mutate it.
pub open spec fn coordinator_state_after(
    lc: Lifecycle,
    m: BodyModel,
    cmd: CoordinatorCommand,
) -> BodyModel {
    if lc is Running {
        match cmd {
            CoordinatorCommand::PowerEvent => power_model(m),
            CoordinatorCommand::DefenseEvent => defense_model(m).0,
            _ => m,
        }
    } else {
        m
    }
}

/// Log entries emitted while handling a coordinator command.
pub open spec fn coordinator_log(
    lc: Lifecycle,
    m: BodyModel,
    cmd: CoordinatorCommand,
) -> Seq<LogEntry> {
    if lc is Running {
        match cmd {
            CoordinatorCommand::PowerEvent => power_log(m),
            CoordinatorCommand::DefenseEvent => defense_log(m),
            _ => Seq::empty(),
        }
    } else {
        Seq::empty()
    }
}

/// Exactly which response a coordinator command earns.  A start command
/// received while already running is ignored without a response; every other
/// command is acknowledged.
pub open spec fn coordinator_response_matches(
    id: u32,
    lc: Lifecycle,
    m: BodyModel,
    cmd: CoordinatorCommand,
    r: &Option<CoordinatorResponse>,
) -> bool {
    if lc is Running {
        match cmd {
            CoordinatorCommand::Start => r is None,
            CoordinatorCommand::Stop => r matches Some(CoordinatorResponse::StopAck { body_id })
                && body_id == id,
            CoordinatorCommand::Kill => r matches Some(CoordinatorResponse::KillAck { body_id })
                && body_id == id,
            CoordinatorCommand::PowerEvent => r matches Some(
                CoordinatorResponse::PowerAck { body_id },
            ) && body_id == id,
            CoordinatorCommand::DefenseEvent => r matches Some(
                CoordinatorResponse::DefenseAck { body_id, rocket },
            ) && body_id == id && (rocket is Some <==> defense_model(m).1),
            CoordinatorCommand::Introspect => r matches Some(
                CoordinatorResponse::Introspection { body_id, snapshot },
            ) && body_id == id && snapshot.energy_cells@ == m.cells && snapshot.charged_cells_count
                == charged_count(m.cells) && snapshot.has_rocket == m.has_rocket,
        }
    } else {
        match cmd {
            CoordinatorCommand::Start => r matches Some(
                CoordinatorResponse::StartAck { body_id },
            ) && body_id == id,
            CoordinatorCommand::Kill => r matches Some(CoordinatorResponse::KillAck { body_id })
                && body_id == id,
            _ => r matches Some(CoordinatorResponse::StoppedNotice { body_id }) && body_id == id,
        }
    }
}

/// One body: its identity-tagged policy, its lifecycle gate, and its
/// resource state.  The generator and combinator stay outside, shared and
/// read-only, and are passed into each event.
pub struct Body {
    pub policy: Policy,
    pub lifecycle: Lifecycle,
    pub state: BodyState,
}

impl Body {
    /// A fresh body of the given archetype: stopped, rocket-less, with every
    /// cell empty.
    pub fn new(id: u32, archetype: BodyArchetype) -> (r: Body)
        ensures
            r.policy.id == id,
            r.lifecycle is Stopped,
            r.state.wf(),
            r.state.model() == (BodyModel {
                cells: Seq::new(spec_constraints(archetype).n_energy_cells as nat, |i: int| false),
                has_rocket: false,
                can_have_rocket: spec_constraints(archetype).can_have_rocket,
            }),
    {
        let c = archetype.constraints();
        let state = BodyState::new(c.n_energy_cells, c.can_have_rocket);
        proof {
            assert(state.model().cells =~= Seq::new(
                spec_constraints(archetype).n_energy_cells as nat,
                |i: int| false,
            ));
        }
        Body { policy: Policy::new(id), lifecycle: Lifecycle::Stopped, state }
    }

    /// Handles one coordinator command: steps the lifecycle gate, delivers
    /// power, defense and introspection events to the policy only while
    /// running, and assembles the acknowledgement.
    pub fn handle_coordinator(
        &mut self,
        generator: &Generator,
        combinator: &Combinator,
        cmd: CoordinatorCommand,
        log: &mut Vec<LogEntry>,
    ) -> (r: Option<CoordinatorResponse>)
        requires
            old(self).state.wf(),
            !(old(self).lifecycle is Killed),
        ensures
            final(self).policy == old(self).policy,
            final(self).state.wf(),
            final(self).lifecycle == lifecycle_step(old(self).lifecycle, cmd),
            final(self).state.model() == coordinator_state_after(
                old(self).lifecycle,
                old(self).state.model(),
                cmd,
            ),
            final(log)@ == old(log)@ + coordinator_log(
                old(self).lifecycle,
                old(self).state.model(),
                cmd,
            ),
            coordinator_response_matches(
                old(self).policy.id,
                old(self).lifecycle,
                old(self).state.model(),
                cmd,
                &r,
            ),
    {
        let id = self.policy.id;
        let running = match self.lifecycle {
            Lifecycle::Running => true,
            _ => false,
        };
        if running {
            match cmd {
                CoordinatorCommand::Start => None,
                CoordinatorCommand::Stop => {
                    self.policy.on_stop(&self.state, generator, combinator);
                    self.lifecycle = Lifecycle::Stopped;
                    Some(CoordinatorResponse::StopAck { body_id: id })
                },
                CoordinatorCommand::Kill => {
                    self.lifecycle = Lifecycle::Killed;
                    Some(CoordinatorResponse::KillAck { body_id: id })
                },
                CoordinatorCommand::PowerEvent => {
                    self.policy.handle_sunray(&mut self.state, generator, combinator, log);
                    Some(CoordinatorResponse::PowerAck { body_id: id })
                },
                CoordinatorCommand::DefenseEvent => {
                    let rocket = self.policy.handle_asteroid(
                        &mut self.state,
                        generator,
                        combinator,
                        log,
                    );
                    Some(CoordinatorResponse::DefenseAck { body_id: id, rocket })
                },
                CoordinatorCommand::Introspect => {
                    let snapshot = self.policy.handle_internal_state_req(
                        &self.state,
                        generator,
                        combinator,
                    );
                    Some(CoordinatorResponse::Introspection { body_id: id, snapshot })
                },
            }
        } else {
            match cmd {
                CoordinatorCommand::Start => {
                    self.lifecycle = Lifecycle::Running;
                    self.policy.on_start(&self.state, generator, combinator);
                    Some(CoordinatorResponse::StartAck { body_id: id })
                },
                CoordinatorCommand::Kill => {
                    self.lifecycle = Lifecycle::Killed;
                    Some(CoordinatorResponse::KillAck { body_id: id })
                },
                _ => Some(CoordinatorResponse::StoppedNotice { body_id: id }),
            }
        }
    }

    /// Handles one visitor request.  While the body is not running, the
    /// fixed stopped response is returned and the policy is never reached;
    /// otherwise the request is delivered to the policy.
    pub fn handle_visitor(
        &mut self,
        generator: &Generator,
        combinator: &Combinator,
        req: VisitorRequest,
    ) -> (r: VisitorResponse)
        requires
            old(self).state.wf(),
        ensures
            final(self).policy == old(self).policy,
            final(self).lifecycle == old(self).lifecycle,
            final(self).state.wf(),
            gate_closed(old(self).lifecycle) ==> (r matches VisitorResponse::Stopped
                && final(self).state.model() == old(self).state.model()),
            !gate_closed(old(self).lifecycle) ==> final(self).state.model() == visitor_state_after(
                old(self).state.model(),
                gen_recipes(generator),
                comb_recipes(combinator),
                &req,
            ) && response_matches(
                old(self).state.model(),
                gen_recipes(generator),
                comb_recipes(combinator),
                &req,
                &r,
            ),
    {
        let running = match self.lifecycle {
            Lifecycle::Running => true,
            _ => false,
        };
        if !running {
            VisitorResponse::Stopped
        } else {
            self.policy.handle_explorer_msg(&mut self.state, generator, combinator, req)
        }
    }
}

} // verus!

//! A simulation as the input document describes it, and the count of its
//! steps.

use crate::dynamics::integrator_fault;
use crate::dynamics::integrators::verlet::read_timestep;
use crate::dynamics::integrators::verlet::timestep_fault;
use crate::dynamics::integrator_shows;
use crate::dynamics::neighbors::neighbors_fault;
use crate::dynamics::neighbors::neighbors_show;
use crate::dynamics::neighbors::NeighborsList;
use crate::dynamics::DynamicsIntegrator;
use crate::error::ConfigError;
use crate::io::input::document_entry;
use crate::io::input::number_is_not_negative;
use crate::io::input::number_is_positive;
use crate::io::input::entry;
use crate::io::input::is_plain_number;
use crate::io::input::leaf;
use crate::io::input::number_shows;
use crate::io::input::to_plain_number;
use crate::io::input::yaml_document;
use crate::io::decimal::NumberClass;
use crate::io::input::document_class;
use crate::io::input::Document;
use crate::io::input::Leaf;
use crate::io::input::Number;
use crate::statics::models::potential_fault;
use crate::statics::models::potential_shows;
use crate::statics::models::PotentialModel;
use crate::system::system_fault;
use crate::system::system_is_replicated;
use crate::system::system_shows;
use crate::system::SystemDefinition;
use crate::thermodynamics::thermodynamics_of;
use crate::thermodynamics::Thermodynamics;
use vstd::prelude::*;
use yaml_rust::Yaml;

verus! {

/// How long a simulation runs: for a stretch of simulated time, or for a
/// number of steps.
#[derive(Clone, Debug, PartialEq, Eq)]
pub enum RunLength {
    TotalTime(Number),
    Steps(u64),
}

/// The clock of a simulation: the length of a step and of the run, as the
/// document states them, and the number of the step that is being worked
/// on. The first step has the number one.
#[derive(Clone, Debug, PartialEq, Eq)]
pub struct InternalClock {
    pub timestep: Number,
    pub length: RunLength,
    pub current_step: u64,
}

/// A simulation: the system, how it is propagated and for how long, and
/// under which conditions.
#[derive(Debug)]
pub struct Simulation<G> {
    pub system: SystemDefinition,
    pub integrator: DynamicsIntegrator,
    pub clock: InternalClock,
    pub potential_model: PotentialModel,
    pub neighbors: NeighborsList<G>,
    pub thermodynamics: Thermodynamics,
}

/// The number of steps that a node holds: a whole number that is not
/// negative.
pub open spec fn steps_of(document: Document) -> Option<u64> {
    match document {
        Document::Integer(value) => if value >= 0 {
            Some(value as u64)
        } else {
            None
        },
        _ => None,
    }
}

/// Whether the number that a node writes is zero or greater.
pub open spec fn is_not_negative(document: Document) -> bool {
    document_class(document) == Some(NumberClass::Positive) || document_class(document) == Some(
        NumberClass::Zero,
    )
}

/// What keeps the dynamics from describing a clock, if anything does: the
/// timestep is faulty, the total time is a number less than zero, or there
/// is neither a total time that is a number nor a number of steps.
pub open spec fn clock_fault(dynamics: Document) -> Option<ConfigError> {
    let total_time = document_entry(dynamics, "total_time"@);
    if timestep_fault(dynamics) is Some {
        timestep_fault(dynamics)
    } else if is_plain_number(total_time) {
        if is_not_negative(total_time) {
            None
        } else {
            Some(ConfigError::NegativeTime)
        }
    } else if steps_of(document_entry(dynamics, "steps"@)) is None {
        Some(ConfigError::Malformed)
    } else {
        None
    }
}

/// The length is the one that the dynamics describe: the total time where
/// there is one, else the number of steps.
pub open spec fn length_shows(length: RunLength, dynamics: Document) -> bool {
    match length {
        RunLength::TotalTime(number) => is_plain_number(document_entry(dynamics, "total_time"@))
            && number_shows(number, document_entry(dynamics, "total_time"@)),
        RunLength::Steps(steps) => !is_plain_number(document_entry(dynamics, "total_time"@))
            && steps_of(document_entry(dynamics, "steps"@)) == Some(steps),
    }
}

/// The clock is the one that the dynamics describe, at its first step.
pub open spec fn clock_shows(clock: InternalClock, dynamics: Document) -> bool {
    &&& number_shows(clock.timestep, document_entry(dynamics, "timestep"@))
    &&& length_shows(clock.length, dynamics)
    &&& clock.current_step == 1
}

/// The first thing that keeps a document from describing a simulation, in
/// the order clock, system, potential, integrator, neighbour list,
/// thermodynamics.
pub open spec fn simulation_fault(document: Document) -> Option<ConfigError> {
    let clock = clock_fault(document_entry(document, "dynamics"@));
    let system = system_fault(document_entry(document, "system"@));
    let potential = potential_fault(document_entry(document, "potential"@));
    let integrator = integrator_fault(document_entry(document, "dynamics"@));
    let neighbors = neighbors_fault(document_entry(document, "neighbors"@));
    let thermodynamics = thermodynamics_of(document_entry(document, "thermodynamics"@));
    if clock is Some {
        clock
    } else if system is Some {
        system
    } else if potential is Some {
        potential
    } else if integrator is Some {
        integrator
    } else if neighbors is Some {
        neighbors
    } else if thermodynamics is Err {
        Some(thermodynamics->Err_0)
    } else {
        None
    }
}

/// The simulation is the one that the document describes.
pub open spec fn simulation_shows<G>(simulation: Simulation<G>, document: Document) -> bool {
    &&& clock_shows(simulation.clock, document_entry(document, "dynamics"@))
    &&& system_shows(simulation.system, document_entry(document, "system"@))
    &&& system_is_replicated(simulation.system)
    &&& potential_shows(simulation.potential_model, document_entry(document, "potential"@))
    &&& integrator_shows(simulation.integrator, document_entry(document, "dynamics"@))
    &&& neighbors_show(simulation.neighbors, document_entry(document, "neighbors"@))
    &&& thermodynamics_of(document_entry(document, "thermodynamics"@)) == Ok::<
        Thermodynamics,
        ConfigError,
    >(simulation.thermodynamics)
}

/// Reads a number of steps.
fn steps_from(node: &Yaml) -> (r: Option<u64>)
    ensures
        r == steps_of(yaml_document(*node)),
{
    match leaf(node) {
        Leaf::Integer(value) => {
            if value >= 0 {
                Some(value as u64)
            } else {
                None
            }
        },
        _ => None,
    }
}

impl InternalClock {
    /// A clock is well-formed if its timestep is greater than zero, its
    /// total time, where it has one, is not negative, and it is at its first
    /// step or a later one.
    pub open spec fn well_formed(&self) -> bool {
        &&& number_is_positive(self.timestep)
        &&& self.length matches RunLength::TotalTime(total) ==> number_is_not_negative(total)
        &&& self.current_step >= 1
    }

    /// A clock at its first step.
    pub fn new(timestep: Number, length: RunLength) -> (clock: InternalClock)
        ensures
            clock.timestep == timestep,
            clock.length == length,
            clock.current_step == 1,
    {
        InternalClock { timestep, length, current_step: 1 }
    }

    /// Reads the clock from the node that describes the dynamics.
    pub fn from(dynamics_setup: &Yaml) -> (r: Result<InternalClock, ConfigError>)
        ensures
            match r {
                Ok(clock) => clock_fault(yaml_document(*dynamics_setup)) is None && clock_shows(
                    clock,
                    yaml_document(*dynamics_setup),
                ) && clock.well_formed(),
                Err(e) => clock_fault(yaml_document(*dynamics_setup)) == Some(e),
            },
    {
        let timestep = match read_timestep(dynamics_setup) {
            Ok(number) => number,
            Err(e) => {
                return Err(e);
            },
        };
        let length = match to_plain_number(entry(dynamics_setup, "total_time")) {
            Some(number) => {
                if !number.is_not_negative() {
                    return Err(ConfigError::NegativeTime);
                }
                RunLength::TotalTime(number)
            },
            None => match steps_from(entry(dynamics_setup, "steps")) {
                Some(steps) => RunLength::Steps(steps),
                None => {
                    return Err(ConfigError::Malformed);
                },
            },
        };
        Ok(InternalClock::new(timestep, length))
    }

    /// Moves on to the next step.
    pub fn tick(&mut self)
        requires
            old(self).current_step < u64::MAX,
        ensures
            final(self).current_step == old(self).current_step + 1,
            final(self).timestep == old(self).timestep,
            final(self).length == old(self).length,
            old(self).well_formed() ==> final(self).well_formed(),
    {
        self.current_step += 1;
    }

    /// Goes back to the first step.
    pub fn reset(&mut self)
        ensures
            final(self).current_step == 1,
            final(self).timestep == old(self).timestep,
            final(self).length == old(self).length,
            old(self).well_formed() ==> final(self).well_formed(),
    {
        self.current_step = 1;
    }

    /// Whether the clock has left its first step.
    pub fn has_started(&self) -> (r: bool)
        ensures
            r == (self.current_step > 1),
    {
        self.current_step > 1
    }
}

impl<G: Copy> Simulation<G> {
    /// A simulation is well-formed if its parts are.
    pub open spec fn well_formed(&self) -> bool {
        &&& self.system.well_formed()
        &&& self.integrator.well_formed()
        &&& self.clock.well_formed()
        &&& self.potential_model.well_formed()
        &&& self.neighbors.well_formed()
    }

    /// Reads a simulation from its document. Fails with the first fault of
    /// the description.
    pub fn from(yaml: &Yaml) -> (r: Result<Simulation<G>, ConfigError>)
        ensures
            match r {
                Ok(simulation) => simulation_fault(yaml_document(*yaml)) is None
                    && simulation_shows(simulation, yaml_document(*yaml))
                    && simulation.well_formed(),
                Err(e) => simulation_fault(yaml_document(*yaml)) == Some(e),
            },
    {
        let dynamics_setup = entry(yaml, "dynamics");
        let clock = match InternalClock::from(dynamics_setup) {
            Ok(clock) => clock,
            Err(e) => {
                return Err(e);
            },
        };
        let system = match SystemDefinition::from(entry(yaml, "system")) {
            Ok(system) => system,
            Err(e) => {
                return Err(e);
            },
        };
        let potential_model = match PotentialModel::from(entry(yaml, "potential")) {
            Ok(potential) => potential,
            Err(e) => {
                return Err(e);
            },
        };
        let integrator = match DynamicsIntegrator::from(dynamics_setup) {
            Ok(integrator) => integrator,
            Err(e) => {
                return Err(e);
            },
        };
        let neighbors = match NeighborsList::from(entry(yaml, "neighbors")) {
            Ok(neighbors) => neighbors,
            Err(e) => {
                return Err(e);
            },
        };
        let thermodynamics = match Thermodynamics::from(entry(yaml, "thermodynamics")) {
            Ok(thermodynamics) => thermodynamics,
            Err(e) => {
                return Err(e);
            },
        };
        Ok(Simulation { system, integrator, clock, potential_model, neighbors, thermodynamics })
    }
}

} // verus!

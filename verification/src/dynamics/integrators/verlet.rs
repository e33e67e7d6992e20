//! The velocity-Verlet integrator, as the input document describes it.

use crate::error::ConfigError;
use crate::io::decimal::NumberClass;
use crate::io::input::document_class;
use crate::io::input::document_entry;
use crate::io::input::entry;
use crate::io::input::is_plain_number;
use crate::io::input::number_is_positive;
use crate::io::input::number_shows;
use crate::io::input::to_plain_number;
use crate::io::input::yaml_document;
use crate::io::input::Document;
use crate::io::input::Number;
use vstd::prelude::*;
use yaml_rust::Yaml;

verus! {

#[derive(Clone, Debug, PartialEq, Eq)]
pub struct VerletIntegrator {
    pub timestep: Number,
}

/// What keeps the dynamics from giving a timestep, if anything does: their
/// entry `timestep` is no number, or a number that is not greater than zero.
pub open spec fn timestep_fault(dynamics: Document) -> Option<ConfigError> {
    let timestep = document_entry(dynamics, "timestep"@);
    if !is_plain_number(timestep) {
        Some(ConfigError::Malformed)
    } else if document_class(timestep) != Some(NumberClass::Positive) {
        Some(ConfigError::NotPositive)
    } else {
        None
    }
}

/// Reads the timestep of the dynamics.
pub fn read_timestep(dynamics: &Yaml) -> (r: Result<Number, ConfigError>)
    ensures
        match r {
            Ok(timestep) => timestep_fault(yaml_document(*dynamics)) is None && number_shows(
                timestep,
                document_entry(yaml_document(*dynamics), "timestep"@),
            ) && number_is_positive(timestep),
            Err(e) => timestep_fault(yaml_document(*dynamics)) == Some(e),
        },
{
    match to_plain_number(entry(dynamics, "timestep")) {
        Some(timestep) => {
            if timestep.is_positive() {
                Ok(timestep)
            } else {
                Err(ConfigError::NotPositive)
            }
        },
        None => Err(ConfigError::Malformed),
    }
}

impl VerletIntegrator {
    /// An integrator is well-formed if its timestep is greater than zero.
    pub open spec fn well_formed(&self) -> bool {
        number_is_positive(self.timestep)
    }

    /// Reads the integrator from the node that describes the dynamics: its
    /// entry `timestep` must be a number greater than zero.
    pub fn from(yaml: &Yaml) -> (r: Result<VerletIntegrator, ConfigError>)
        ensures
            match r {
                Ok(integrator) => timestep_fault(yaml_document(*yaml)) is None && number_shows(
                    integrator.timestep,
                    document_entry(yaml_document(*yaml), "timestep"@),
                ) && integrator.well_formed(),
                Err(e) => timestep_fault(yaml_document(*yaml)) == Some(e),
            },
    {
        match read_timestep(yaml) {
            Ok(timestep) => Ok(VerletIntegrator::new(timestep)),
            Err(e) => Err(e),
        }
    }

    /// An integrator with the given timestep.
    pub fn new(timestep: Number) -> (integrator: VerletIntegrator)
        ensures
            integrator.timestep == timestep,
    {
        VerletIntegrator { timestep }
    }
}

} // verus!

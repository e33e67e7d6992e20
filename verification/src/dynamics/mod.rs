//! The equations of motion and what they need.

pub mod integrators;
pub mod neighbors;

use crate::dynamics::integrators::verlet::timestep_fault;
use crate::dynamics::integrators::verlet::VerletIntegrator;
use crate::error::ConfigError;
use crate::io::input::document_entry;
use crate::io::input::entry;
use crate::io::input::leaf;
use crate::io::input::number_shows;
use crate::io::input::same_text;
use crate::io::input::yaml_document;
use crate::io::input::Document;
use crate::io::input::Leaf;
use vstd::prelude::*;
use yaml_rust::Yaml;

verus! {

#[derive(Clone, Debug, PartialEq, Eq)]
pub enum DynamicsIntegrator {
    Verlet(VerletIntegrator),
}

/// The kind of the integrator that the dynamics name: the entry `type` of
/// their entry `integrator`.
pub open spec fn integrator_type(document: Document) -> Document {
    document_entry(document_entry(document, "integrator"@), "type"@)
}

/// What keeps a node from describing an integrator, if anything does: the
/// type is no string, it is not the name of a known integrator, or the
/// timestep is faulty.
pub open spec fn integrator_fault(document: Document) -> Option<ConfigError> {
    match integrator_type(document) {
        Document::Text(name) => if name != "verlet"@ {
            Some(ConfigError::UnknownIntegrator)
        } else {
            timestep_fault(document)
        },
        _ => Some(ConfigError::Malformed),
    }
}

/// The integrator is the one that the node describes.
pub open spec fn integrator_shows(integrator: DynamicsIntegrator, document: Document) -> bool {
    match integrator {
        DynamicsIntegrator::Verlet(verlet) => integrator_type(document) == Document::Text(
            "verlet"@,
        ) && number_shows(verlet.timestep, document_entry(document, "timestep"@)),
    }
}

impl DynamicsIntegrator {
    /// An integrator is well-formed if its kind is.
    pub open spec fn well_formed(&self) -> bool {
        match self {
            DynamicsIntegrator::Verlet(verlet) => verlet.well_formed(),
        }
    }

    /// Reads the integrator from the node that describes the dynamics.
    pub fn from(dynamics_setup: &Yaml) -> (r: Result<DynamicsIntegrator, ConfigError>)
        ensures
            match r {
                Ok(integrator) => integrator_fault(yaml_document(*dynamics_setup)) is None
                    && integrator_shows(integrator, yaml_document(*dynamics_setup))
                    && integrator.well_formed(),
                Err(e) => integrator_fault(yaml_document(*dynamics_setup)) == Some(e),
            },
    {
        match leaf(entry(entry(dynamics_setup, "integrator"), "type")) {
            Leaf::Text(name) => {
                if same_text(name.as_str(), "verlet") {
                    match VerletIntegrator::from(dynamics_setup) {
                        Ok(verlet) => Ok(DynamicsIntegrator::Verlet(verlet)),
                        Err(e) => Err(e),
                    }
                } else {
                    Err(ConfigError::UnknownIntegrator)
                }
            },
            _ => Err(ConfigError::Malformed),
        }
    }
}

} // verus!

//! The thermodynamic conditions under which a simulation runs.

pub mod ensemble;

use crate::error::ConfigError;
use crate::io::input::document_entry;
use crate::io::input::entry;
use crate::io::input::yaml_document;
use crate::io::input::Document;
use crate::thermodynamics::ensemble::ensemble_of;
use crate::thermodynamics::ensemble::Ensemble;
use vstd::prelude::*;
use yaml_rust::Yaml;

verus! {

#[derive(Clone, Copy, Debug, PartialEq, Eq, Structural)]
pub struct Thermodynamics {
    pub ensemble: Ensemble,
}

/// The thermodynamic conditions that a node of the document describes: its
/// entry `ensemble` names the ensemble.
pub open spec fn thermodynamics_of(document: Document) -> Result<Thermodynamics, ConfigError> {
    match ensemble_of(document_entry(document, "ensemble"@)) {
        Ok(ensemble) => Ok(Thermodynamics { ensemble }),
        Err(e) => Err(e),
    }
}

impl Thermodynamics {
    /// Reads the thermodynamic conditions from their node of the document.
    pub fn from(yaml: &Yaml) -> (r: Result<Thermodynamics, ConfigError>)
        ensures
            r == thermodynamics_of(yaml_document(*yaml)),
    {
        match Ensemble::from(entry(yaml, "ensemble")) {
            Ok(ensemble) => Ok(Thermodynamics { ensemble }),
            Err(e) => Err(e),
        }
    }

    /// Brings the conditions up to date after a step. With constant particle
    /// number, volume and energy there is nothing to adjust.
    pub fn update(&mut self)
        ensures
            *final(self) == *old(self),
    {
    }
}

} // verus!

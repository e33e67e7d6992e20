//! Pair-potential models.

pub mod lj;

use crate::error::ConfigError;
use crate::io::input::document_entry;
use crate::io::input::entry;
use crate::io::input::leaf;
use crate::io::input::same_text;
use crate::io::input::yaml_document;
use crate::io::input::Document;
use crate::io::input::Leaf;
use crate::statics::models::lj::lennard_jones_fault;
use crate::statics::models::lj::lennard_jones_shows;
use crate::statics::models::lj::LennardJonesModel;
use vstd::prelude::*;
use yaml_rust::Yaml;

verus! {

#[derive(Clone, Debug, PartialEq, Eq)]
pub enum PotentialModel {
    LennardJones(LennardJonesModel),
}

/// What keeps a node from describing a potential, if anything does: its
/// entry `model` is not the name of a known model, or the parameters of the
/// model are faulty.
pub open spec fn potential_fault(document: Document) -> Option<ConfigError> {
    if document_entry(document, "model"@) == Document::Text("lj"@) {
        lennard_jones_fault(document)
    } else {
        Some(ConfigError::UnknownPotential)
    }
}

/// The potential is the one that the node describes.
pub open spec fn potential_shows(potential: PotentialModel, document: Document) -> bool {
    match potential {
        PotentialModel::LennardJones(model) => document_entry(document, "model"@)
            == Document::Text("lj"@) && lennard_jones_shows(model, document),
    }
}

impl PotentialModel {
    /// A potential is well-formed if its model is.
    pub open spec fn well_formed(&self) -> bool {
        match self {
            PotentialModel::LennardJones(model) => model.well_formed(),
        }
    }

    /// Reads the potential from its node of the document.
    pub fn from(potential_definition: &Yaml) -> (r: Result<PotentialModel, ConfigError>)
        ensures
            match r {
                Ok(potential) => potential_fault(yaml_document(*potential_definition)) is None
                    && potential_shows(potential, yaml_document(*potential_definition))
                    && potential.well_formed(),
                Err(e) => potential_fault(yaml_document(*potential_definition)) == Some(e),
            },
    {
        match leaf(entry(potential_definition, "model")) {
            Leaf::Text(potential) => {
                if same_text(potential.as_str(), "lj") {
                    match LennardJonesModel::initialize(potential_definition) {
                        Ok(model) => Ok(PotentialModel::LennardJones(model)),
                        Err(e) => Err(e),
                    }
                } else {
                    Err(ConfigError::UnknownPotential)
                }
            },
            _ => Err(ConfigError::UnknownPotential),
        }
    }
}

} // verus!

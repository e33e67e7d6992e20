//! Statistical ensembles.

use crate::error::ConfigError;
use crate::io::input::document_entry;
use crate::io::input::entry;
use crate::io::input::leaf;
use crate::io::input::same_text;
use crate::io::input::yaml_document;
use crate::io::input::Document;
use crate::io::input::Leaf;
use vstd::prelude::*;
use yaml_rust::Yaml;

verus! {

/// Constant particle number, volume and energy: no thermostat, no barostat.
#[derive(Clone, Copy, Debug, PartialEq, Eq, Structural)]
pub struct NVE {}

#[derive(Clone, Copy, Debug, PartialEq, Eq, Structural)]
pub enum Ensemble {
    NVE(NVE),
}

/// The ensemble that a node of the document describes: its entry `type`
/// must be the string `nve`.
pub open spec fn ensemble_of(document: Document) -> Result<Ensemble, ConfigError> {
    match document_entry(document, "type"@) {
        Document::Text(name) => if name == "nve"@ {
            Ok(Ensemble::NVE(NVE {  }))
        } else {
            Err(ConfigError::UnknownEnsemble)
        },
        _ => Err(ConfigError::Malformed),
    }
}

impl Ensemble {
    /// Reads the ensemble from its node of the document.
    pub fn from(yaml: &Yaml) -> (r: Result<Ensemble, ConfigError>)
        ensures
            r == ensemble_of(yaml_document(*yaml)),
    {
        match leaf(entry(yaml, "type")) {
            Leaf::Text(name) => {
                if same_text(name.as_str(), "nve") {
                    Ok(Ensemble::NVE(NVE {  }))
                } else {
                    Err(ConfigError::UnknownEnsemble)
                }
            },
            _ => Err(ConfigError::Malformed),
        }
    }
}

} // verus!

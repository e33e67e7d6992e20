//! The Lennard-Jones pair potential, as the input document describes it.

use crate::error::ConfigError;
use crate::io::decimal::NumberClass;
use crate::io::input::document_class;
use crate::io::input::document_entry;
use crate::io::input::entry;
use crate::io::input::is_plain_number;
use crate::io::input::number_is_positive;
use crate::io::input::leaf;
use crate::io::input::number_shows;
use crate::io::input::to_plain_number;
use crate::io::input::yaml_document;
use crate::io::input::Document;
use crate::io::input::Leaf;
use crate::io::input::Number;
use vstd::prelude::*;
use yaml_rust::Yaml;

verus! {

/// The parameters of a Lennard-Jones potential: the depth of the well, the
/// distance at which the potential crosses zero, and the distance beyond
/// which it is cut off, each greater than zero. Where there is no cutoff, it
/// is two and a half times `sigma`.
#[derive(Clone, Debug, PartialEq, Eq)]
pub struct LennardJonesModel {
    pub epsilon: Number,
    pub sigma: Number,
    pub cutoff: Option<Number>,
}

/// What keeps a node from being a parameter, if anything does: it is no
/// number, or a number that is not greater than zero.
pub open spec fn parameter_fault(document: Document) -> Option<ConfigError> {
    if !is_plain_number(document) {
        Some(ConfigError::Malformed)
    } else if document_class(document) != Some(NumberClass::Positive) {
        Some(ConfigError::NotPositive)
    } else {
        None
    }
}

/// What keeps a node from being the cutoff of a potential, if anything
/// does: it is there, and no number or a number that is not greater than
/// zero.
pub open spec fn potential_cutoff_fault(document: Document) -> Option<ConfigError> {
    if document is BadValue {
        None
    } else if !is_plain_number(document) {
        Some(ConfigError::CutoffNotNumber)
    } else if document_class(document) != Some(NumberClass::Positive) {
        Some(ConfigError::CutoffNotPositive)
    } else {
        None
    }
}

/// The first thing that keeps a node from describing a Lennard-Jones
/// potential, in the order epsilon, sigma, cutoff.
pub open spec fn lennard_jones_fault(document: Document) -> Option<ConfigError> {
    let parameters = document_entry(document, "parameters"@);
    let epsilon = parameter_fault(document_entry(parameters, "epsilon"@));
    let sigma = parameter_fault(document_entry(parameters, "sigma"@));
    if epsilon is Some {
        epsilon
    } else if sigma is Some {
        sigma
    } else {
        potential_cutoff_fault(document_entry(document, "cutoff"@))
    }
}

/// The cutoff is the one that the node writes; where the node is absent
/// there is none.
pub open spec fn cutoff_shows(cutoff: Option<Number>, document: Document) -> bool {
    match cutoff {
        Some(number) => number_shows(number, document),
        None => document is BadValue,
    }
}

/// The model has the parameters that the node describes.
pub open spec fn lennard_jones_shows(model: LennardJonesModel, document: Document) -> bool {
    let parameters = document_entry(document, "parameters"@);
    &&& number_shows(model.epsilon, document_entry(parameters, "epsilon"@))
    &&& number_shows(model.sigma, document_entry(parameters, "sigma"@))
    &&& cutoff_shows(model.cutoff, document_entry(document, "cutoff"@))
}

/// Reads a parameter of the potential.
fn parameter_from(node: &Yaml) -> (r: Result<Number, ConfigError>)
    ensures
        match r {
            Ok(number) => parameter_fault(yaml_document(*node)) is None && number_shows(
                number,
                yaml_document(*node),
            ) && number_is_positive(number),
            Err(e) => parameter_fault(yaml_document(*node)) == Some(e),
        },
{
    match to_plain_number(node) {
        Some(number) => {
            if number.is_positive() {
                Ok(number)
            } else {
                Err(ConfigError::NotPositive)
            }
        },
        None => Err(ConfigError::Malformed),
    }
}

/// Reads the cutoff of the potential, where the document gives one.
fn cutoff_from(node: &Yaml) -> (r: Result<Option<Number>, ConfigError>)
    ensures
        match r {
            Ok(cutoff) => potential_cutoff_fault(yaml_document(*node)) is None && cutoff_shows(
                cutoff,
                yaml_document(*node),
            ) && (cutoff matches Some(number) ==> number_is_positive(number)),
            Err(e) => potential_cutoff_fault(yaml_document(*node)) == Some(e),
        },
{
    match to_plain_number(node) {
        Some(number) => {
            if number.is_positive() {
                Ok(Some(number))
            } else {
                Err(ConfigError::CutoffNotPositive)
            }
        },
        None => match leaf(node) {
            Leaf::BadValue => Ok(None),
            _ => Err(ConfigError::CutoffNotNumber),
        },
    }
}

impl LennardJonesModel {
    /// A model is well-formed if each of its parameters is greater than
    /// zero.
    pub open spec fn well_formed(&self) -> bool {
        &&& number_is_positive(self.epsilon)
        &&& number_is_positive(self.sigma)
        &&& self.cutoff matches Some(cutoff) ==> number_is_positive(cutoff)
    }

    /// Reads the parameters of the potential from its node of the document.
    pub fn initialize(definition: &Yaml) -> (r: Result<LennardJonesModel, ConfigError>)
        ensures
            match r {
                Ok(model) => lennard_jones_fault(yaml_document(*definition)) is None
                    && lennard_jones_shows(model, yaml_document(*definition))
                    && model.well_formed(),
                Err(e) => lennard_jones_fault(yaml_document(*definition)) == Some(e),
            },
    {
        let parameters = entry(definition, "parameters");
        let epsilon = match parameter_from(entry(parameters, "epsilon")) {
            Ok(number) => number,
            Err(e) => {
                return Err(e);
            },
        };
        let sigma = match parameter_from(entry(parameters, "sigma")) {
            Ok(number) => number,
            Err(e) => {
                return Err(e);
            },
        };
        let cutoff = match cutoff_from(entry(definition, "cutoff")) {
            Ok(cutoff) => cutoff,
            Err(e) => {
                return Err(e);
            },
        };
        Ok(LennardJonesModel { epsilon, sigma, cutoff })
    }
}

} // verus!

//! Unit systems: the scales in which a document states its quantities.

use crate::error::ConfigError;
use crate::io::input::leaf;
use crate::io::input::same_text;
use crate::io::input::yaml_document;
use crate::io::input::Document;
use crate::io::input::Leaf;
use vstd::prelude::*;
use yaml_rust::Yaml;

verus! {

/// The known unit systems.
#[derive(Clone, Copy, Debug, PartialEq, Eq, Structural)]
pub enum UnitKind {
    /// Angstrom, nanosecond, atomic mass unit, elementary charge, kelvin,
    /// electronvolt. The reference system.
    Atomic,
    /// Metre, second, kilogram, coulomb, kelvin, joule.
    SI,
}

/// The quantities that a unit system gives a unit to.
#[derive(Clone, Copy, Debug, PartialEq, Eq, Structural)]
pub enum Quantity {
    Distance,
    Time,
    Mass,
    Charge,
    Temperature,
    Energy,
    Force,
    Pressure,
}

#[derive(Clone, Copy, Debug, PartialEq, Eq, Structural)]
pub struct UnitSystem {
    pub kind: UnitKind,
}

/// A text with every letter in upper case.
pub uninterp spec fn uppercase(text: Seq<char>) -> Seq<char>;

/// `str::to_uppercase`: the text in upper case, which depends on the text
/// alone.
#[verifier::external_body]
fn to_uppercase(text: &str) -> (r: String)
    ensures
        r@ == uppercase(text@),
{
    text.to_uppercase()
}

/// The unit system with the given name in upper case.
pub open spec fn unit_system_named(upper: Seq<char>) -> Result<UnitSystem, ConfigError> {
    if upper == "ATOMIC"@ {
        Ok(UnitSystem { kind: UnitKind::Atomic })
    } else if upper == "SI"@ {
        Ok(UnitSystem { kind: UnitKind::SI })
    } else {
        Err(ConfigError::UnknownUnitSystem)
    }
}

/// The unit system that a node of the document names: a string that reads
/// `atomic` or `si` in any mix of cases.
pub open spec fn unit_system_of(document: Document) -> Result<UnitSystem, ConfigError> {
    match document {
        Document::Text(name) => unit_system_named(uppercase(name)),
        _ => Err(ConfigError::UnitSystemNotString),
    }
}

/// The full name of a unit system.
pub open spec fn unit_system_name(kind: UnitKind) -> Seq<char> {
    match kind {
        UnitKind::Atomic => "Atomic units"@,
        UnitKind::SI => "Standard International"@,
    }
}

/// The symbol of the unit of a quantity.
pub open spec fn unit_symbol(kind: UnitKind, quantity: Quantity) -> Seq<char> {
    match quantity {
        Quantity::Distance => match kind {
            UnitKind::Atomic => "Ang."@,
            UnitKind::SI => "m"@,
        },
        Quantity::Time => match kind {
            UnitKind::Atomic => "ns"@,
            UnitKind::SI => "s"@,
        },
        Quantity::Mass => match kind {
            UnitKind::Atomic => "amu"@,
            UnitKind::SI => "kg"@,
        },
        Quantity::Charge => match kind {
            UnitKind::Atomic => "e"@,
            UnitKind::SI => "C"@,
        },
        Quantity::Temperature => "K"@,
        Quantity::Energy => match kind {
            UnitKind::Atomic => "eV"@,
            UnitKind::SI => "J"@,
        },
        Quantity::Force => "N"@,
        Quantity::Pressure => "Pa"@,
    }
}

impl UnitSystem {
    /// Reads the unit system from the node that names it.
    pub fn new(name_yaml_entry: &Yaml) -> (r: Result<UnitSystem, ConfigError>)
        ensures
            r == unit_system_of(yaml_document(*name_yaml_entry)),
    {
        match leaf(name_yaml_entry) {
            Leaf::Text(name) => {
                let upper = to_uppercase(name.as_str());
                UnitSystem::named(upper.as_str())
            },
            _ => Err(ConfigError::UnitSystemNotString),
        }
    }

    /// The unit system whose name, in upper case, is `upper`.
    pub fn named(upper: &str) -> (r: Result<UnitSystem, ConfigError>)
        ensures
            r == unit_system_named(upper@),
    {
        if same_text(upper, "ATOMIC") {
            Ok(UnitSystem { kind: UnitKind::Atomic })
        } else if same_text(upper, "SI") {
            Ok(UnitSystem { kind: UnitKind::SI })
        } else {
            Err(ConfigError::UnknownUnitSystem)
        }
    }

    /// The full name of the unit system.
    pub fn name(&self) -> (r: &'static str)
        ensures
            r@ == unit_system_name(self.kind),
    {
        match self.kind {
            UnitKind::Atomic => "Atomic units",
            UnitKind::SI => "Standard International",
        }
    }

    /// The symbol of the unit in which the system states a quantity.
    pub fn symbol(&self, quantity: Quantity) -> (r: &'static str)
        ensures
            r@ == unit_symbol(self.kind, quantity),
    {
        match quantity {
            Quantity::Distance => match self.kind {
                UnitKind::Atomic => "Ang.",
                UnitKind::SI => "m",
            },
            Quantity::Time => match self.kind {
                UnitKind::Atomic => "ns",
                UnitKind::SI => "s",
            },
            Quantity::Mass => match self.kind {
                UnitKind::Atomic => "amu",
                UnitKind::SI => "kg",
            },
            Quantity::Charge => match self.kind {
                UnitKind::Atomic => "e",
                UnitKind::SI => "C",
            },
            Quantity::Temperature => "K",
            Quantity::Energy => match self.kind {
                UnitKind::Atomic => "eV",
                UnitKind::SI => "J",
            },
            Quantity::Force => "N",
            Quantity::Pressure => "Pa",
        }
    }
}

} // verus!

//! An atom as the input document describes it.

use crate::error::ConfigError;
use crate::io::decimal::NumberClass;
use crate::io::input::document_class;
use crate::io::input::document_entry;
use crate::io::input::entry;
use crate::io::input::is_number;
use crate::io::input::is_vector;
use crate::io::input::number_is_positive;
use crate::io::input::leaf;
use crate::io::input::number_shows;
use crate::io::input::numbers_fault;
use crate::io::input::numbers_show;
use crate::io::input::to_number;
use crate::io::input::to_vec3;
use crate::io::input::yaml_document;
use crate::io::input::Document;
use crate::io::input::Leaf;
use crate::io::input::Number;
use periodic_table_on_an_enum::Element;
use vstd::prelude::*;
use yaml_rust::Yaml;

verus! {

/// Where the mass of an atom comes from.
#[derive(Clone, Debug, PartialEq, Eq)]
pub enum Mass {
    /// The document states it.
    Given(Number),
    /// It is the standard atomic mass of the element with this atomic
    /// number, from 1 to 118, which the atom's name is the symbol of.
    Element(usize),
}

/// An atom of the unit cell. A vector that the document leaves out is zero,
/// and so is a charge that it leaves out.
#[derive(Clone, Debug, PartialEq, Eq)]
pub struct Atom {
    pub id: u64,
    pub name: String,
    pub position: Vec<Number>,
    pub velocity: Option<Vec<Number>>,
    pub force: Option<Vec<Number>>,
    pub mass: Mass,
    pub charge: Option<Number>,
}

/// The atomic number of the element with the given symbol, if there is one.
pub uninterp spec fn element_number(symbol: Seq<char>) -> Option<nat>;

/// Whether a text does not stand before `Ac` in the order of texts. `Ac` is
/// the first of the element symbols in that order, so a text that stands
/// before it is no symbol.
pub open spec fn not_below_first_symbol(symbol: Seq<char>) -> bool {
    symbol.len() > 0 && (symbol[0] > 'A' || (symbol[0] == 'A' && symbol.len() >= 2 && symbol[1]
        >= 'c'))
}

/// `Element::from_symbol`, then `Element::get_atomic_number`: looks an
/// element up by its symbol and gives its atomic number, which is one of the
/// 118 that there are. Whether a text is a symbol, and of which element,
/// depends on the text alone. The search of `from_symbol` does not come back
/// for a text that stands before the first symbol, so such a text must not
/// be handed to it.
#[verifier::external_body]
fn atomic_number(symbol: &str) -> (r: Option<usize>)
    requires
        not_below_first_symbol(symbol@),
    ensures
        match r {
            Some(number) => element_number(symbol@) == Some(number as nat) && 1 <= number <= 118,
            None => element_number(symbol@) is None,
        },
{
    match Element::from_symbol(symbol) {
        Some(element) => Some(element.get_atomic_number()),
        None => None,
    }
}

/// The atomic number of the element that a text is the symbol of; none for a
/// text that stands before the first symbol or is no symbol.
pub open spec fn symbol_number(symbol: Seq<char>) -> Option<nat> {
    if not_below_first_symbol(symbol) {
        element_number(symbol)
    } else {
        None
    }
}

/// Whether a text does not stand before the first of the element symbols.
pub fn stands_from_first_symbol(symbol: &str) -> (r: bool)
    ensures
        r == not_below_first_symbol(symbol@),
{
    let length = symbol.unicode_len();
    if length == 0 {
        return false;
    }
    let first = symbol.get_char(0);
    if first > 'A' {
        true
    } else if first == 'A' && length >= 2 {
        symbol.get_char(1) >= 'c'
    } else {
        false
    }
}

/// Looks an element up by its symbol and gives its atomic number; there is
/// none for a text that is no symbol.
pub fn find_atomic_number(symbol: &str) -> (r: Option<usize>)
    ensures
        match r {
            Some(number) => symbol_number(symbol@) == Some(number as nat) && 1 <= number <= 118,
            None => symbol_number(symbol@) is None,
        },
{
    if stands_from_first_symbol(symbol) {
        atomic_number(symbol)
    } else {
        None
    }
}

/// What keeps an optional vector from being read, if anything does: it is a
/// list, and not one of three numbers.
pub open spec fn optional_vector_fault(document: Document) -> Option<ConfigError> {
    if document is Array {
        numbers_fault(document, 3)
    } else {
        None
    }
}

/// The optional vector is the one that the node writes; where the node is no
/// list there is none.
pub open spec fn optional_vector_shows(vector: Option<Vec<Number>>, document: Document) -> bool {
    match vector {
        Some(numbers) => document is Array && numbers_show(numbers@, document),
        None => !(document is Array),
    }
}

/// What keeps the name of an atom from being read.
pub open spec fn name_fault(document: Document) -> Option<ConfigError> {
    match document {
        Document::Text(name) => if name.len() == 0 {
            Some(ConfigError::Malformed)
        } else {
            None
        },
        _ => Some(ConfigError::Malformed),
    }
}

/// What keeps the mass of an atom with the given name from being read: it
/// is a number that is not greater than zero, or it is absent and the name
/// is no element symbol, be it that it stands before the first symbol, or
/// it is neither a number nor absent.
pub open spec fn mass_fault(document: Document, name: Seq<char>) -> Option<ConfigError> {
    if is_number(document) {
        if document_class(document) == Some(NumberClass::Positive) {
            None
        } else {
            Some(ConfigError::MassNotPositive)
        }
    } else if document is BadValue && symbol_number(name) is Some {
        None
    } else {
        Some(ConfigError::UnknownMass)
    }
}

/// The mass is the one that the node writes for an atom with the given name.
pub open spec fn mass_shows(mass: Mass, document: Document, name: Seq<char>) -> bool {
    match mass {
        Mass::Given(number) => number_shows(number, document),
        Mass::Element(atomic_number) => document is BadValue && symbol_number(name) == Some(
            atomic_number as nat,
        ),
    }
}

/// What keeps the charge of an atom from being read.
pub open spec fn charge_fault(document: Document) -> Option<ConfigError> {
    if is_number(document) || document is BadValue {
        None
    } else {
        Some(ConfigError::IncorrectCharge)
    }
}

/// The charge is the one that the node writes.
pub open spec fn charge_shows(charge: Option<Number>, document: Document) -> bool {
    match charge {
        Some(number) => number_shows(number, document),
        None => document is BadValue,
    }
}

/// The name that a node writes, where it writes one.
pub open spec fn name_of(document: Document) -> Seq<char> {
    match document {
        Document::Text(name) => name,
        _ => Seq::empty(),
    }
}

/// The first thing that keeps a node from describing an atom, in the order
/// position, velocity, force, name, mass, charge.
pub open spec fn atom_fault(document: Document) -> Option<ConfigError> {
    let position = numbers_fault(document_entry(document, "position"@), 3);
    let velocity = optional_vector_fault(document_entry(document, "velocity"@));
    let force = optional_vector_fault(document_entry(document, "force"@));
    let name = name_fault(document_entry(document, "name"@));
    let mass = mass_fault(
        document_entry(document, "mass"@),
        name_of(document_entry(document, "name"@)),
    );
    let charge = charge_fault(document_entry(document, "charge"@));
    if position is Some {
        position
    } else if velocity is Some {
        velocity
    } else if force is Some {
        force
    } else if name is Some {
        name
    } else if mass is Some {
        mass
    } else {
        charge
    }
}

/// The atom is the one that the node describes.
pub open spec fn atom_shows(atom: Atom, document: Document) -> bool {
    &&& numbers_show(atom.position@, document_entry(document, "position"@))
    &&& optional_vector_shows(atom.velocity, document_entry(document, "velocity"@))
    &&& optional_vector_shows(atom.force, document_entry(document, "force"@))
    &&& document_entry(document, "name"@) == Document::Text(atom.name@)
    &&& mass_shows(atom.mass, document_entry(document, "mass"@), atom.name@)
    &&& charge_shows(atom.charge, document_entry(document, "charge"@))
}

/// Reads a vector that the document may leave out.
fn optional_vector(node: &Yaml) -> (r: Result<Option<Vec<Number>>, ConfigError>)
    ensures
        match r {
            Ok(vector) => optional_vector_fault(yaml_document(*node)) is None
                && optional_vector_shows(vector, yaml_document(*node)) && (vector matches Some(
                numbers,
            ) ==> is_vector(numbers@)),
            Err(e) => optional_vector_fault(yaml_document(*node)) == Some(e),
        },
{
    match leaf(node) {
        Leaf::Array => match to_vec3(node) {
            Ok(numbers) => Ok(Some(numbers)),
            Err(e) => Err(e),
        },
        _ => Ok(None),
    }
}

/// Reads the mass of an atom with the given name.
fn mass_from(node: &Yaml, name: &str) -> (r: Result<Mass, ConfigError>)
    ensures
        match r {
            Ok(mass) => mass_fault(yaml_document(*node), name@) is None && mass_shows(
                mass,
                yaml_document(*node),
                name@,
            ) && (mass matches Mass::Given(number) ==> number_is_positive(number)) && (
            mass matches Mass::Element(number) ==> 1 <= number <= 118),
            Err(e) => mass_fault(yaml_document(*node), name@) == Some(e),
        },
{
    match to_number(node) {
        Some(number) => {
            if number.is_positive() {
                Ok(Mass::Given(number))
            } else {
                Err(ConfigError::MassNotPositive)
            }
        },
        None => match leaf(node) {
            Leaf::BadValue => match find_atomic_number(name) {
                Some(number) => Ok(Mass::Element(number)),
                None => Err(ConfigError::UnknownMass),
            },
            _ => Err(ConfigError::UnknownMass),
        },
    }
}

/// Reads the charge of an atom.
fn charge_from(node: &Yaml) -> (r: Result<Option<Number>, ConfigError>)
    ensures
        match r {
            Ok(charge) => charge_fault(yaml_document(*node)) is None && charge_shows(
                charge,
                yaml_document(*node),
            ) && (charge matches Some(number) ==> number.well_formed()),
            Err(e) => charge_fault(yaml_document(*node)) == Some(e),
        },
{
    match to_number(node) {
        Some(number) => Ok(Some(number)),
        None => match leaf(node) {
            Leaf::BadValue => Ok(None),
            _ => Err(ConfigError::IncorrectCharge),
        },
    }
}

impl Atom {
    /// An atom is well-formed if it has a name, its position and, where it
    /// has them, its velocity and its force have three well-formed
    /// components, the mass that is given for it is greater than zero, the
    /// element that its mass is taken from is one of the 118, and its
    /// charge, where it has one, is well-formed.
    pub open spec fn well_formed(&self) -> bool {
        &&& self.name@.len() > 0
        &&& is_vector(self.position@)
        &&& self.velocity matches Some(velocity) ==> is_vector(velocity@)
        &&& self.force matches Some(force) ==> is_vector(force@)
        &&& self.mass matches Mass::Given(mass) ==> number_is_positive(mass)
        &&& self.mass matches Mass::Element(number) ==> 1 <= number <= 118
        &&& self.charge matches Some(charge) ==> charge.well_formed()
    }

    /// An atom at rest at the origin, of unit mass, without charge and
    /// without a name of its own.
    pub fn new() -> (atom: Atom)
        ensures
            atom.well_formed(),
            atom.id == 0,
            atom.name@ == "NaN"@,
            atom.position@ =~= seq![Number::Integer(0), Number::Integer(0), Number::Integer(0)],
            atom.velocity is None,
            atom.force is None,
            atom.mass == Mass::Given(Number::Integer(1)),
            atom.charge is None,
    {
        let mut position: Vec<Number> = Vec::new();
        position.push(Number::Integer(0));
        position.push(Number::Integer(0));
        position.push(Number::Integer(0));
        proof {
            reveal_strlit("NaN");
        }
        Atom {
            id: 0,
            name: "NaN".to_owned(),
            position,
            velocity: None,
            force: None,
            mass: Mass::Given(Number::Integer(1)),
            charge: None,
        }
    }

    /// Reads an atom from its node of the document. The atom's id is zero:
    /// ids are given when the atoms are put in order.
    pub fn from(yaml: &Yaml) -> (r: Result<Atom, ConfigError>)
        ensures
            match r {
                Ok(atom) => atom_fault(yaml_document(*yaml)) is None && atom_shows(
                    atom,
                    yaml_document(*yaml),
                ) && atom.id == 0 && atom.well_formed(),
                Err(e) => atom_fault(yaml_document(*yaml)) == Some(e),
            },
    {
        let position = match to_vec3(entry(yaml, "position")) {
            Ok(numbers) => numbers,
            Err(e) => {
                return Err(e);
            },
        };
        let velocity = match optional_vector(entry(yaml, "velocity")) {
            Ok(vector) => vector,
            Err(e) => {
                return Err(e);
            },
        };
        let force = match optional_vector(entry(yaml, "force")) {
            Ok(vector) => vector,
            Err(e) => {
                return Err(e);
            },
        };
        let name = match leaf(entry(yaml, "name")) {
            Leaf::Text(name) => name,
            _ => {
                return Err(ConfigError::Malformed);
            },
        };
        if name.as_str().unicode_len() == 0 {
            return Err(ConfigError::Malformed);
        }
        let mass = match mass_from(entry(yaml, "mass"), name.as_str()) {
            Ok(mass) => mass,
            Err(e) => {
                return Err(e);
            },
        };
        let charge = match charge_from(entry(yaml, "charge")) {
            Ok(charge) => charge,
            Err(e) => {
                return Err(e);
            },
        };
        Ok(Atom { id: 0, name, position, velocity, force, mass, charge })
    }
}

} // verus!

//! The system that is simulated: its cell, its atoms and its units, as the
//! input document describes them, and the lattice that the cell is
//! replicated into.

pub mod atom;
pub mod lattice;

use crate::error::ConfigError;
use crate::io::input::atoms_are_numbered;
use crate::io::input::atoms_fault;
use crate::io::input::atoms_show;
use crate::io::input::document_entry;
use crate::io::input::documents_of;
use crate::io::input::entry;
use crate::io::input::is_vector;
use crate::io::input::items;
use crate::io::input::leaf;
use crate::io::input::lemma_shown_numbers_agree;
use crate::io::input::lemma_shown_numbers;
use crate::io::input::load_atoms;
use crate::io::input::numbers_fault;
use crate::io::input::numbers_show;
use crate::io::input::same_numbers;
use crate::io::input::same_text;
use crate::io::input::to_numbers;
use crate::io::input::to_vec3;
use crate::io::input::yaml_document;
use crate::io::input::Document;
use crate::io::input::Leaf;
use crate::io::input::Number;
use crate::system::atom::atom_shows;
use crate::system::atom::Atom;
use crate::system::lattice::generate_lattice;
use crate::system::lattice::lattice_fits;
use crate::system::lattice::lattice_sites;
use crate::system::lattice::LatticeError;
use crate::system::lattice::LatticeSite;
use crate::utils::metrics::unit_system_of;
use crate::utils::metrics::UnitSystem;
use vstd::prelude::*;
use yaml_rust::Yaml;

verus! {

/// The system as the document describes it. `sites` lists the atoms of the
/// super-cell: the atom with id `k` is the image of an atom of `atoms` that
/// `sites[k]` names.
#[derive(Clone, Debug, PartialEq, Eq)]
pub struct SystemDefinition {
    /// The three cell vectors, one per row.
    pub cell: Vec<Vec<Number>>,
    /// The origin of the cell; zero where there is none.
    pub origin: Option<Vec<Number>>,
    pub periodicity: [bool; 3],
    pub replicas: [usize; 3],
    /// The atoms of the unit cell.
    pub atoms: Vec<Atom>,
    pub units: UnitSystem,
    pub sites: Vec<LatticeSite>,
}

/// The axes that a periodicity string names.
pub open spec fn periodicity_named(name: Seq<char>) -> Option<(bool, bool, bool)> {
    if name == "xyz"@ {
        Some((true, true, true))
    } else if name == "xy"@ {
        Some((true, true, false))
    } else if name == "xz"@ {
        Some((true, false, true))
    } else if name == "yz"@ {
        Some((false, true, true))
    } else if name == "x"@ {
        Some((true, false, false))
    } else if name == "y"@ {
        Some((false, true, false))
    } else if name == "z"@ {
        Some((false, false, true))
    } else {
        None
    }
}

/// The flag that a node holds, if it holds one.
pub open spec fn flag_of(document: Document) -> Option<bool> {
    match document {
        Document::Boolean(flag) => Some(flag),
        _ => None,
    }
}

/// The periodicity that a node describes: none along any axis where the
/// node is absent, the named axes for a string, the three flags of a list.
pub open spec fn periodicity_of(document: Document) -> Option<(bool, bool, bool)> {
    match document {
        Document::BadValue => Some((false, false, false)),
        Document::Text(name) => periodicity_named(name),
        Document::Array(elements) => if elements.len() == 3 && flag_of(elements[0]) is Some
            && flag_of(elements[1]) is Some && flag_of(elements[2]) is Some {
            Some(
                (
                    flag_of(elements[0]).unwrap(),
                    flag_of(elements[1]).unwrap(),
                    flag_of(elements[2]).unwrap(),
                ),
            )
        } else {
            None
        },
        _ => None,
    }
}

/// The replica count that a node holds: a whole number, at least one, that
/// can be counted to.
pub open spec fn replica_of(document: Document) -> Option<usize> {
    match document {
        Document::Integer(value) => if 1 <= value && value <= usize::MAX {
            Some(value as usize)
        } else {
            None
        },
        _ => None,
    }
}

/// The replicas that a node describes: one along every axis where the node
/// is absent, the three counts of a list.
pub open spec fn replicas_of(document: Document) -> Option<(usize, usize, usize)> {
    match document {
        Document::BadValue => Some((1, 1, 1)),
        Document::Array(elements) => if elements.len() == 3 && replica_of(elements[0]) is Some
            && replica_of(elements[1]) is Some && replica_of(elements[2]) is Some {
            Some(
                (
                    replica_of(elements[0]).unwrap(),
                    replica_of(elements[1]).unwrap(),
                    replica_of(elements[2]).unwrap(),
                ),
            )
        } else {
            None
        },
        _ => None,
    }
}

/// Replicas that are left out are one replica along every axis.
pub proof fn lemma_absent_replicas_are_single()
    ensures
        replicas_of(Document::BadValue) == replicas_of(
            Document::Array(
                seq![Document::Integer(1), Document::Integer(1), Document::Integer(1)],
            ),
        ),
{
}

/// Whether two systems are the same in their lattice and their atoms: the
/// same periodicity, replicas, units and sites, and atoms with the same
/// ids, names and positions as they are written.
pub open spec fn same_system(first: SystemDefinition, second: SystemDefinition) -> bool {
    &&& first.periodicity[0] == second.periodicity[0]
    &&& first.periodicity[1] == second.periodicity[1]
    &&& first.periodicity[2] == second.periodicity[2]
    &&& first.replicas[0] == second.replicas[0]
    &&& first.replicas[1] == second.replicas[1]
    &&& first.replicas[2] == second.replicas[2]
    &&& first.units == second.units
    &&& first.sites@ == second.sites@
    &&& first.atoms@.len() == second.atoms@.len()
    &&& forall|k: int|
        0 <= k < first.atoms@.len() ==> {
            &&& (#[trigger] first.atoms@[k]).id == second.atoms@[k].id
            &&& first.atoms@[k].name@ == second.atoms@[k].name@
            &&& same_numbers(first.atoms@[k].position@, second.atoms@[k].position@)
        }
}

/// Whether two nodes describe the same system but for the replicas, which
/// the first leaves out and the second gives as one along every axis.
pub open spec fn differ_in_single_replicas(without: Document, with: Document) -> bool {
    &&& document_entry(without, "replicas"@) is BadValue
    &&& document_entry(with, "replicas"@) == Document::Array(
        seq![Document::Integer(1), Document::Integer(1), Document::Integer(1)],
    )
    &&& document_entry(without, "cell"@) == document_entry(with, "cell"@)
    &&& document_entry(without, "vectors"@) == document_entry(with, "vectors"@)
    &&& document_entry(without, "origin"@) == document_entry(with, "origin"@)
    &&& document_entry(without, "periodicity"@) == document_entry(with, "periodicity"@)
    &&& document_entry(without, "atoms"@) == document_entry(with, "atoms"@)
    &&& document_entry(without, "units"@) == document_entry(with, "units"@)
}

/// A node that leaves the replicas out and one that gives one replica along
/// every axis have the same fault or none, and describe the same systems.
pub proof fn lemma_single_replicas_change_nothing(without: Document, with: Document)
    requires
        differ_in_single_replicas(without, with),
    ensures
        system_fault(without) == system_fault(with),
        forall|system: SystemDefinition| #[trigger]
            system_shows(system, without) <==> system_shows(system, with),
{
    lemma_absent_replicas_are_single();
}

/// The systems that are read from a node that leaves the replicas out and
/// from one that gives one replica along every axis are the same in their
/// lattice and their atoms.
pub proof fn lemma_single_replicas_give_the_same_system(
    without: Document,
    with: Document,
    first: SystemDefinition,
    second: SystemDefinition,
)
    requires
        differ_in_single_replicas(without, with),
        system_shows(first, without),
        system_is_replicated(first),
        system_shows(second, with),
        system_is_replicated(second),
    ensures
        same_system(first, second),
{
    lemma_single_replicas_change_nothing(without, with);
    assert(system_shows(second, without));
    let atoms = document_entry(without, "atoms"@)->Array_0;
    assert forall|k: int| 0 <= k < first.atoms@.len() implies {
        &&& (#[trigger] first.atoms@[k]).id == second.atoms@[k].id
        &&& first.atoms@[k].name@ == second.atoms@[k].name@
        &&& same_numbers(first.atoms@[k].position@, second.atoms@[k].position@)
    } by {
        assert(atom_shows(first.atoms@[k], atoms[k]));
        assert(atom_shows(second.atoms@[k], atoms[k]));
        lemma_shown_numbers_agree(
            first.atoms@[k].position@,
            second.atoms@[k].position@,
            document_entry(atoms[k], "position"@),
        );
    }
}

/// The node that holds the cell vectors: the entry `cell`, or the entry
/// `vectors` where there is no `cell`.
pub open spec fn cell_entry(document: Document) -> Document {
    if document_entry(document, "cell"@) is BadValue {
        document_entry(document, "vectors"@)
    } else {
        document_entry(document, "cell"@)
    }
}

/// What keeps a node from being three rows of three numbers, if anything
/// does. The first faulty row decides.
pub open spec fn cell_fault(document: Document) -> Option<ConfigError> {
    match document {
        Document::Array(rows) => if rows.len() != 3 {
            Some(ConfigError::WrongLength)
        } else if numbers_fault(rows[0], 3) is Some {
            numbers_fault(rows[0], 3)
        } else if numbers_fault(rows[1], 3) is Some {
            numbers_fault(rows[1], 3)
        } else {
            numbers_fault(rows[2], 3)
        },
        _ => Some(ConfigError::Malformed),
    }
}

/// The rows are the cell vectors that the node writes.
pub open spec fn cell_shows(cell: Seq<Vec<Number>>, document: Document) -> bool {
    match document {
        Document::Array(rows) => {
            &&& cell.len() == 3
            &&& rows.len() == 3
            &&& forall|k: int| 0 <= k < 3 ==> numbers_show((#[trigger] cell[k])@, rows[k])
        },
        _ => false,
    }
}

/// What keeps an origin from being read, if anything does: it is there, and
/// no list of three numbers.
pub open spec fn origin_fault(document: Document) -> Option<ConfigError> {
    if document is BadValue {
        None
    } else {
        numbers_fault(document, 3)
    }
}

/// The origin is the one that the node writes; where the node is absent
/// there is none.
pub open spec fn origin_shows(origin: Option<Vec<Number>>, document: Document) -> bool {
    match origin {
        Some(numbers) => numbers_show(numbers@, document),
        None => document is BadValue,
    }
}

/// What keeps the lattice of a well-described system from being generated:
/// it holds more atoms than can be counted.
pub open spec fn lattice_fault(document: Document) -> Option<ConfigError> {
    match (document_entry(document, "atoms"@), replicas_of(document_entry(document, "replicas"@))) {
        (Document::Array(atoms), Some(replicas)) => if lattice_fits(
            atoms.len(),
            replicas.0 as nat,
            replicas.1 as nat,
            replicas.2 as nat,
        ) {
            None
        } else {
            Some(ConfigError::TooManyAtoms)
        },
        _ => None,
    }
}

/// The first thing that keeps a node from describing a system, in the order
/// cell, origin, periodicity, replicas, atoms, units, lattice.
pub open spec fn system_fault(document: Document) -> Option<ConfigError> {
    let cell = cell_fault(cell_entry(document));
    let origin = origin_fault(document_entry(document, "origin"@));
    let atoms = atoms_fault(document_entry(document, "atoms"@));
    let units = unit_system_of(document_entry(document, "units"@));
    if cell is Some {
        cell
    } else if origin is Some {
        origin
    } else if periodicity_of(document_entry(document, "periodicity"@)) is None {
        Some(ConfigError::UnknownPeriodicity)
    } else if replicas_of(document_entry(document, "replicas"@)) is None {
        Some(ConfigError::UnknownReplicas)
    } else if atoms is Some {
        atoms
    } else if units is Err {
        Some(units->Err_0)
    } else {
        lattice_fault(document)
    }
}

/// The system is the one that the node describes, apart from its lattice.
pub open spec fn system_shows(system: SystemDefinition, document: Document) -> bool {
    &&& cell_shows(system.cell@, cell_entry(document))
    &&& origin_shows(system.origin, document_entry(document, "origin"@))
    &&& periodicity_of(document_entry(document, "periodicity"@)) == Some(
        (system.periodicity[0], system.periodicity[1], system.periodicity[2]),
    )
    &&& replicas_of(document_entry(document, "replicas"@)) == Some(
        (system.replicas[0], system.replicas[1], system.replicas[2]),
    )
    &&& atoms_show(system.atoms@, document_entry(document, "atoms"@))
    &&& unit_system_of(document_entry(document, "units"@)) == Ok::<UnitSystem, ConfigError>(
        system.units,
    )
}

/// The sites of the system are those of the lattice that its replicas make
/// of its atoms.
pub open spec fn system_is_replicated(system: SystemDefinition) -> bool {
    system.sites@ == lattice_sites(
        system.atoms@.len(),
        system.replicas[0] as nat,
        system.replicas[1] as nat,
        system.replicas[2] as nat,
    )
}

/// The axes that a periodicity string names.
pub fn periodicity_from_name(name: &str) -> (r: Option<[bool; 3]>)
    ensures
        match r {
            Some(flags) => periodicity_named(name@) == Some((flags[0], flags[1], flags[2])),
            None => periodicity_named(name@) is None,
        },
{
    if same_text(name, "xyz") {
        Some([true, true, true])
    } else if same_text(name, "xy") {
        Some([true, true, false])
    } else if same_text(name, "xz") {
        Some([true, false, true])
    } else if same_text(name, "yz") {
        Some([false, true, true])
    } else if same_text(name, "x") {
        Some([true, false, false])
    } else if same_text(name, "y") {
        Some([false, true, false])
    } else if same_text(name, "z") {
        Some([false, false, true])
    } else {
        None
    }
}

/// Reads a flag.
fn flag_from(node: &Yaml) -> (r: Option<bool>)
    ensures
        r == flag_of(yaml_document(*node)),
{
    match leaf(node) {
        Leaf::Boolean(flag) => Some(flag),
        _ => None,
    }
}

/// Reads the periodicity of the cell.
pub fn read_periodicity(node: &Yaml) -> (r: Result<[bool; 3], ConfigError>)
    ensures
        match r {
            Ok(flags) => periodicity_of(yaml_document(*node)) == Some(
                (flags[0], flags[1], flags[2]),
            ),
            Err(e) => periodicity_of(yaml_document(*node)) is None && e
                == ConfigError::UnknownPeriodicity,
        },
{
    match leaf(node) {
        Leaf::BadValue => Ok([false, false, false]),
        Leaf::Text(name) => match periodicity_from_name(name.as_str()) {
            Some(flags) => Ok(flags),
            None => Err(ConfigError::UnknownPeriodicity),
        },
        Leaf::Array => {
            let nodes = match items(node) {
                Some(nodes) => nodes,
                None => {
                    return Err(ConfigError::UnknownPeriodicity);
                },
            };
            if nodes.len() != 3 {
                return Err(ConfigError::UnknownPeriodicity);
            }
            assert(documents_of(nodes@)[0] == yaml_document(nodes@[0]));
            assert(documents_of(nodes@)[1] == yaml_document(nodes@[1]));
            assert(documents_of(nodes@)[2] == yaml_document(nodes@[2]));
            match (flag_from(&nodes[0]), flag_from(&nodes[1]), flag_from(&nodes[2])) {
                (Some(x), Some(y), Some(z)) => Ok([x, y, z]),
                _ => Err(ConfigError::UnknownPeriodicity),
            }
        },
        _ => Err(ConfigError::UnknownPeriodicity),
    }
}

/// Reads one replica count.
fn replica_from(node: &Yaml) -> (r: Option<usize>)
    ensures
        r == replica_of(yaml_document(*node)),
{
    match leaf(node) {
        Leaf::Integer(value) => {
            if value >= 1 && value as u64 <= usize::MAX as u64 {
                Some(value as usize)
            } else {
                None
            }
        },
        _ => None,
    }
}

/// Reads the replica counts of the cell.
pub fn read_replicas(node: &Yaml) -> (r: Result<[usize; 3], ConfigError>)
    ensures
        match r {
            Ok(counts) => replicas_of(yaml_document(*node)) == Some(
                (counts[0], counts[1], counts[2]),
            ),
            Err(e) => replicas_of(yaml_document(*node)) is None && e
                == ConfigError::UnknownReplicas,
        },
{
    match leaf(node) {
        Leaf::BadValue => Ok([1, 1, 1]),
        Leaf::Array => {
            let nodes = match items(node) {
                Some(nodes) => nodes,
                None => {
                    return Err(ConfigError::UnknownReplicas);
                },
            };
            if nodes.len() != 3 {
                return Err(ConfigError::UnknownReplicas);
            }
            assert(documents_of(nodes@)[0] == yaml_document(nodes@[0]));
            assert(documents_of(nodes@)[1] == yaml_document(nodes@[1]));
            assert(documents_of(nodes@)[2] == yaml_document(nodes@[2]));
            match (replica_from(&nodes[0]), replica_from(&nodes[1]), replica_from(&nodes[2])) {
                (Some(x), Some(y), Some(z)) => Ok([x, y, z]),
                _ => Err(ConfigError::UnknownReplicas),
            }
        },
        _ => Err(ConfigError::UnknownReplicas),
    }
}

/// Whether the rows are three vectors.
pub open spec fn is_cell(cell: Seq<Vec<Number>>) -> bool {
    cell.len() == 3 && forall|k: int| 0 <= k < 3 ==> is_vector((#[trigger] cell[k])@)
}

/// Reads the three cell vectors.
pub fn read_cell(node: &Yaml) -> (r: Result<Vec<Vec<Number>>, ConfigError>)
    ensures
        match r {
            Ok(cell) => cell_fault(yaml_document(*node)) is None && cell_shows(
                cell@,
                yaml_document(*node),
            ) && is_cell(cell@),
            Err(e) => cell_fault(yaml_document(*node)) == Some(e),
        },
{
    let nodes = match items(node) {
        Some(nodes) => nodes,
        None => {
            return Err(ConfigError::Malformed);
        },
    };
    if nodes.len() != 3 {
        return Err(ConfigError::WrongLength);
    }
    assert(documents_of(nodes@)[0] == yaml_document(nodes@[0]));
    assert(documents_of(nodes@)[1] == yaml_document(nodes@[1]));
    assert(documents_of(nodes@)[2] == yaml_document(nodes@[2]));
    let first = match to_numbers(&nodes[0], 3) {
        Ok(row) => row,
        Err(e) => {
            return Err(e);
        },
    };
    let second = match to_numbers(&nodes[1], 3) {
        Ok(row) => row,
        Err(e) => {
            return Err(e);
        },
    };
    let third = match to_numbers(&nodes[2], 3) {
        Ok(row) => row,
        Err(e) => {
            return Err(e);
        },
    };
    proof {
        lemma_shown_numbers(first@, yaml_document(nodes@[0]), 3);
        lemma_shown_numbers(second@, yaml_document(nodes@[1]), 3);
        lemma_shown_numbers(third@, yaml_document(nodes@[2]), 3);
    }
    let mut cell: Vec<Vec<Number>> = Vec::new();
    cell.push(first);
    cell.push(second);
    cell.push(third);
    Ok(cell)
}

/// Reads the origin of the cell, where the document gives one.
fn read_origin(node: &Yaml) -> (r: Result<Option<Vec<Number>>, ConfigError>)
    ensures
        match r {
            Ok(origin) => origin_fault(yaml_document(*node)) is None && origin_shows(
                origin,
                yaml_document(*node),
            ) && (origin matches Some(numbers) ==> is_vector(numbers@)),
            Err(e) => origin_fault(yaml_document(*node)) == Some(e),
        },
{
    match leaf(node) {
        Leaf::BadValue => Ok(None),
        _ => match to_vec3(node) {
            Ok(numbers) => Ok(Some(numbers)),
            Err(e) => Err(e),
        },
    }
}

impl SystemDefinition {
    /// A system is well-formed if its cell has three vectors, its origin,
    /// where it has one, is a vector, there is at least one replica along
    /// every axis, its atoms are well-formed and numbered in their order,
    /// and its sites are those of its lattice.
    pub open spec fn well_formed(&self) -> bool {
        &&& is_cell(self.cell@)
        &&& self.origin matches Some(origin) ==> is_vector(origin@)
        &&& self.replicas[0] >= 1
        &&& self.replicas[1] >= 1
        &&& self.replicas[2] >= 1
        &&& atoms_are_numbered(self.atoms@)
        &&& system_is_replicated(*self)
    }

    /// Reads the system from its node of the document and replicates its
    /// unit cell. Fails with the first fault of the description, or with
    /// `TooManyAtoms` where the lattice cannot be counted.
    pub fn from(system_definition: &Yaml) -> (r: Result<SystemDefinition, ConfigError>)
        ensures
            match r {
                Ok(system) => system_fault(yaml_document(*system_definition)) is None
                    && system_shows(system, yaml_document(*system_definition))
                    && system.well_formed(),
                Err(e) => system_fault(yaml_document(*system_definition)) == Some(e),
            },
    {
        let mut new_system = match SystemDefinition::initialize_system(system_definition) {
            Ok(system) => system,
            Err(e) => {
                return Err(e);
            },
        };
        match generate_lattice(new_system.atoms.len(), new_system.replicas) {
            Ok(sites) => {
                new_system.sites = sites;
                Ok(new_system)
            },
            Err(LatticeError::EmptyAxis) => Err(ConfigError::UnknownReplicas),
            Err(LatticeError::TooManyAtoms) => Err(ConfigError::TooManyAtoms),
        }
    }

    /// Reads the description of the system, and leaves its lattice empty.
    fn initialize_system(config: &Yaml) -> (r: Result<SystemDefinition, ConfigError>)
        ensures
            match r {
                Ok(system) => system_shows(system, yaml_document(*config)) && (system_fault(
                    yaml_document(*config),
                ) == lattice_fault(yaml_document(*config))) && is_cell(system.cell@) && (
                system.origin matches Some(origin) ==> is_vector(origin@)) && atoms_are_numbered(
                    system.atoms@,
                ) && system.replicas[0] >= 1 && system.replicas[1] >= 1 && system.replicas[2]
                    >= 1,
                Err(e) => system_fault(yaml_document(*config)) == Some(e),
            },
    {
        let cell_node = match leaf(entry(config, "cell")) {
            Leaf::BadValue => entry(config, "vectors"),
            _ => entry(config, "cell"),
        };
        let cell = match read_cell(cell_node) {
            Ok(cell) => cell,
            Err(e) => {
                return Err(e);
            },
        };
        let origin = match read_origin(entry(config, "origin")) {
            Ok(origin) => origin,
            Err(e) => {
                return Err(e);
            },
        };
        let periodicity = match read_periodicity(entry(config, "periodicity")) {
            Ok(flags) => flags,
            Err(e) => {
                return Err(e);
            },
        };
        let replicas = match read_replicas(entry(config, "replicas")) {
            Ok(counts) => counts,
            Err(e) => {
                return Err(e);
            },
        };
        let atoms = match load_atoms(entry(config, "atoms")) {
            Ok(atoms) => atoms,
            Err(e) => {
                return Err(e);
            },
        };
        let units = match UnitSystem::new(entry(config, "units")) {
            Ok(units) => units,
            Err(e) => {
                return Err(e);
            },
        };
        Ok(
            SystemDefinition {
                cell,
                origin,
                periodicity,
                replicas,
                atoms,
                units,
                sites: Vec::new(),
            },
        )
    }
}

} // verus!

//! Reading the nodes of an input document.
//!
//! The document is a YAML text. Its nodes are values of `yaml_rust::Yaml`,
//! which are opaque to proofs: what a node holds is named by
//! [`yaml_document`], and the few functions that take a node apart state
//! their results over that name. Nothing is proved of those functions; all
//! that reads a document is proved from what they state.

use crate::error::ConfigError;
use crate::io::decimal::classify;
use crate::io::decimal::is_numeral;
use crate::io::decimal::numeral_class;
use crate::io::decimal::NumberClass;
use crate::system::atom::atom_fault;
use crate::system::atom::atom_shows;
use crate::system::atom::Atom;
use vstd::prelude::*;
use yaml_rust::ScanError;
use yaml_rust::Yaml;
use yaml_rust::YamlLoader;

verus! {

/// `yaml_rust::Yaml`, a node of a document.
#[verifier::external_type_specification]
#[verifier::external_body]
pub struct ExYaml(Yaml);

/// `yaml_rust::ScanError`, the fault of a text that is no document.
#[verifier::external_type_specification]
#[verifier::external_body]
pub struct ExScanError(ScanError);

/// What a node of a document holds. A hash is described by the entries that
/// stand under string keys, which are the only ones ever looked up.
pub enum Document {
    /// A real number, as it is written.
    Real(Seq<char>),
    Integer(i64),
    Text(Seq<char>),
    Boolean(bool),
    Array(Seq<Document>),
    Hash(Map<Seq<char>, Document>),
    Alias,
    Null,
    /// The node that stands for an entry that is not there.
    BadValue,
}

/// The contents of a node.
pub uninterp spec fn yaml_document(node: Yaml) -> Document;

/// The documents that a text holds, if it is well-formed.
pub uninterp spec fn scanned_documents(text: Seq<char>) -> Option<Seq<Document>>;

/// A node that is no list and no hash, taken out of the document.
#[derive(Clone, Debug, PartialEq, Eq)]
pub enum Leaf {
    Real(String),
    Integer(i64),
    Text(String),
    Boolean(bool),
    Array,
    Hash,
    Alias,
    Null,
    BadValue,
}

/// A number as the document writes it: a numeral, or a whole number.
#[derive(Clone, Debug, PartialEq, Eq)]
pub enum Number {
    Decimal(String),
    Integer(i64),
}

/// The entry of a hash under a key; the bad value where the node is no hash
/// or has no such entry.
pub open spec fn document_entry(document: Document, key: Seq<char>) -> Document {
    match document {
        Document::Hash(entries) => if entries.contains_key(key) {
            entries[key]
        } else {
            Document::BadValue
        },
        _ => Document::BadValue,
    }
}

/// The leaf shows what the node holds, its elements and entries left out.
pub open spec fn leaf_shows(leaf: Leaf, document: Document) -> bool {
    match leaf {
        Leaf::Real(text) => document == Document::Real(text@),
        Leaf::Integer(value) => document == Document::Integer(value),
        Leaf::Text(text) => document == Document::Text(text@),
        Leaf::Boolean(flag) => document == Document::Boolean(flag),
        Leaf::Array => document is Array,
        Leaf::Hash => document is Hash,
        Leaf::Alias => document is Alias,
        Leaf::Null => document is Null,
        Leaf::BadValue => document is BadValue,
    }
}

/// The documents that the nodes of a list hold.
pub open spec fn documents_of(nodes: Seq<Yaml>) -> Seq<Document> {
    nodes.map_values(|node: Yaml| yaml_document(node))
}

/// The greatest weight that a line of a script may have.
pub const MAX_LINE_WEIGHT: usize = 64;

/// Whether a byte has weight: a space, a tab, or one of the indicators `-`,
/// `?` and `:` that open a collection.
pub open spec fn has_weight(byte: u8) -> bool {
    byte == 32 || byte == 9 || byte == 45 || byte == 63 || byte == 58
}

/// The weight of the line that ends before place `upto`: the number of its
/// bytes that have weight. A line ends with a line feed.
pub open spec fn line_weight(bytes: Seq<u8>, upto: int) -> nat
    decreases upto,
{
    if upto <= 0 || upto > bytes.len() || bytes[upto - 1] == 10 {
        0
    } else if has_weight(bytes[upto - 1]) {
        line_weight(bytes, upto - 1) + 1
    } else {
        line_weight(bytes, upto - 1)
    }
}

/// Whether every carriage return of a text is followed by a line feed.
pub open spec fn breaks_are_whole(bytes: Seq<u8>) -> bool {
    forall|k: int|
        0 <= k < bytes.len() && #[trigger] bytes[k] == 13 ==> k + 1 < bytes.len() && bytes[k + 1]
            == 10
}

/// Whether no line of a text weighs more than the greatest weight, and
/// every carriage return is followed by a line feed.
pub open spec fn is_shallow(bytes: Seq<u8>) -> bool {
    &&& forall|upto: int|
        0 <= upto <= bytes.len() ==> #[trigger] line_weight(bytes, upto) <= MAX_LINE_WEIGHT
    &&& breaks_are_whole(bytes)
}

/// Whether a text is shallow. In a shallow text collections are nested
/// fewer than four hundred deep. A block collection is opened by an
/// indicator, at a column that no collection around it has, or as a
/// sequence under the key of a mapping; columns are counted from the last
/// line feed, and only blanks stand before the first indicator or key of a
/// line. So the block collections that are open at a line are at most twice
/// its blanks and indicators and two more. Flow collections are nested at
/// most 255 deep.
pub open spec fn text_is_shallow(text: Seq<char>) -> bool {
    is_shallow(vstd::utf8::encode_utf8(text))
}

/// Whether a text is shallow.
pub fn shallow(text: &str) -> (r: bool)
    ensures
        r == text_is_shallow(text@),
{
    let bytes = text.as_bytes();
    let mut weight: usize = 0;
    let mut k: usize = 0;
    while k < bytes.len()
        invariant
            k <= bytes.len(),
            bytes@ == vstd::utf8::encode_utf8(text@),
            weight == line_weight(bytes@, k as int),
            weight <= MAX_LINE_WEIGHT,
            forall|upto: int| 0 <= upto <= k ==> #[trigger] line_weight(bytes@, upto)
                <= MAX_LINE_WEIGHT,
            forall|j: int|
                0 <= j < k && #[trigger] bytes@[j] == 13 ==> j + 1 < bytes@.len() && bytes@[j + 1]
                    == 10,
        decreases bytes.len() - k,
    {
        let byte = bytes[k];
        if byte == 13 && (k + 1 >= bytes.len() || bytes[k + 1] != 10) {
            return false;
        }
        if byte == 10 {
            weight = 0;
        } else if byte == 32 || byte == 9 || byte == 45 || byte == 63 || byte == 58 {
            if weight == MAX_LINE_WEIGHT {
                assert(line_weight(bytes@, k + 1) > MAX_LINE_WEIGHT);
                return false;
            }
            weight += 1;
        }
        k += 1;
    }
    true
}

/// `YamlLoader::load_from_str`: scans a text into its documents. Whether the
/// text is well-formed, and what its documents hold, depends on the text
/// alone. The loader descends one call for every collection that is open
/// and does not come back from a text that nests them too deep, so the text
/// must be shallow.
#[verifier::external_body]
fn load_from_str(text: &str) -> (r: Result<Vec<Yaml>, ScanError>)
    requires
        text_is_shallow(text@),
    ensures
        match r {
            Ok(nodes) => scanned_documents(text@) == Some(documents_of(nodes@)),
            Err(_) => scanned_documents(text@) is None,
        },
{
    YamlLoader::load_from_str(text)
}

/// `Yaml`'s `Index<&str>`: the entry of a hash under a string key. For a
/// node that is no hash, or a key that is not there, it is the bad value.
#[verifier::external_body]
pub(crate) fn entry<'a>(node: &'a Yaml, key: &str) -> (r: &'a Yaml)
    ensures
        yaml_document(*r) == document_entry(yaml_document(*node), key@),
{
    &node[key]
}

/// `Yaml::as_vec`: the elements of a list, and nothing for any other node.
#[verifier::external_body]
pub(crate) fn items<'a>(node: &'a Yaml) -> (r: Option<&'a Vec<Yaml>>)
    ensures
        match r {
            Some(nodes) => yaml_document(*node) == Document::Array(documents_of(nodes@)),
            None => !(yaml_document(*node) is Array),
        },
{
    node.as_vec()
}

/// Tells the variants of `Yaml` apart, and copies out what a scalar holds.
#[verifier::external_body]
pub(crate) fn leaf(node: &Yaml) -> (r: Leaf)
    ensures
        leaf_shows(r, yaml_document(*node)),
{
    match node {
        Yaml::Real(text) => Leaf::Real(text.clone()),
        Yaml::Integer(value) => Leaf::Integer(*value),
        Yaml::String(text) => Leaf::Text(text.clone()),
        Yaml::Boolean(flag) => Leaf::Boolean(*flag),
        Yaml::Array(_) => Leaf::Array,
        Yaml::Hash(_) => Leaf::Hash,
        Yaml::Alias(_) => Leaf::Alias,
        Yaml::Null => Leaf::Null,
        Yaml::BadValue => Leaf::BadValue,
    }
}

/// Whether two texts are the same.
pub fn same_text(left: &str, right: &str) -> (r: bool)
    ensures
        r == (left@ == right@),
{
    let a = left.to_owned();
    let b = right.to_owned();
    a == b
}

/// The first document of a text, if the text is shallow and well-formed
/// and holds one.
pub open spec fn first_document(text: Seq<char>) -> Option<Document> {
    if !text_is_shallow(text) {
        None
    } else {
        match scanned_documents(text) {
            Some(documents) => if documents.len() > 0 {
                Some(documents[0])
            } else {
                None
            },
            None => None,
        }
    }
}

/// Hands out the first of the documents of a script. Fails with
/// `Unreadable` where there is none.
pub fn first_node(nodes: Vec<Yaml>) -> (r: Result<Yaml, ConfigError>)
    ensures
        match r {
            Ok(node) => nodes@.len() > 0 && node == nodes@[0],
            Err(e) => nodes@.len() == 0 && e == ConfigError::Unreadable,
        },
{
    let mut nodes = nodes;
    if nodes.len() == 0 {
        Err(ConfigError::Unreadable)
    } else {
        Ok(nodes.remove(0))
    }
}

/// Scans the text of a script and hands out its first document. Fails with
/// `Unreadable` where the text is not shallow, is not well-formed or holds
/// no document.
pub fn parse_yaml(text: &str) -> (r: Result<Yaml, ConfigError>)
    ensures
        match r {
            Ok(node) => first_document(text@) == Some(yaml_document(node)),
            Err(e) => first_document(text@) is None && e == ConfigError::Unreadable,
        },
{
    if !shallow(text) {
        return Err(ConfigError::Unreadable);
    }
    match load_from_str(text) {
        Ok(nodes) => first_node(nodes),
        Err(_) => Err(ConfigError::Unreadable),
    }
}

/// A node that writes a number: a real or a string that holds a numeral, or
/// a whole number.
pub open spec fn is_number(document: Document) -> bool {
    match document {
        Document::Real(text) => is_numeral(text),
        Document::Text(text) => is_numeral(text),
        Document::Integer(_) => true,
        _ => false,
    }
}

/// A node that is a number in its own right: a real that holds a numeral,
/// or a whole number.
pub open spec fn is_plain_number(document: Document) -> bool {
    match document {
        Document::Real(text) => is_numeral(text),
        Document::Integer(_) => true,
        _ => false,
    }
}

/// How a number stands to zero; nothing for a decimal that is no numeral.
pub open spec fn number_class(number: Number) -> Option<NumberClass> {
    match number {
        Number::Decimal(text) => numeral_class(text@),
        Number::Integer(value) => Some(
            if value < 0 {
                NumberClass::Negative
            } else if value == 0 {
                NumberClass::Zero
            } else {
                NumberClass::Positive
            },
        ),
    }
}

/// Whether a number is greater than zero.
pub open spec fn number_is_positive(number: Number) -> bool {
    number_class(number) == Some(NumberClass::Positive)
}

/// Whether a number is zero or greater.
pub open spec fn number_is_not_negative(number: Number) -> bool {
    number_class(number) == Some(NumberClass::Positive) || number_class(number) == Some(
        NumberClass::Zero,
    )
}

/// The class of the number that a node writes; nothing for a node that
/// writes none.
pub open spec fn document_class(document: Document) -> Option<NumberClass> {
    match document {
        Document::Real(text) => numeral_class(text),
        Document::Text(text) => numeral_class(text),
        Document::Integer(value) => number_class(Number::Integer(value)),
        _ => None,
    }
}

/// The number is the one that the node writes.
pub open spec fn number_shows(number: Number, document: Document) -> bool {
    match number {
        Number::Decimal(text) => document == Document::Real(text@) || document == Document::Text(
            text@,
        ),
        Number::Integer(value) => document == Document::Integer(value),
    }
}

/// The numbers are those that the elements of the list write, one by one.
pub open spec fn numbers_show(numbers: Seq<Number>, document: Document) -> bool {
    match document {
        Document::Array(elements) => {
            &&& numbers.len() == elements.len()
            &&& forall|k: int|
                0 <= k < numbers.len() ==> number_shows(#[trigger] numbers[k], elements[k])
        },
        _ => false,
    }
}

/// What keeps a node from being a list of `size` numbers, if anything does:
/// it is no list, it has another length, or an element is no number.
pub open spec fn numbers_fault(document: Document, size: nat) -> Option<ConfigError> {
    match document {
        Document::Array(elements) => if elements.len() != size {
            Some(ConfigError::WrongLength)
        } else if exists|k: int| 0 <= k < elements.len() && !is_number(#[trigger] elements[k]) {
            Some(ConfigError::UnknownType)
        } else {
            None
        },
        _ => Some(ConfigError::Malformed),
    }
}

/// Whether two numbers are written alike.
pub open spec fn same_number(first: Number, second: Number) -> bool {
    match (first, second) {
        (Number::Decimal(one), Number::Decimal(other)) => one@ == other@,
        (Number::Integer(one), Number::Integer(other)) => one == other,
        _ => false,
    }
}

/// Whether two lists hold numbers that are written alike, one by one.
pub open spec fn same_numbers(first: Seq<Number>, second: Seq<Number>) -> bool {
    &&& first.len() == second.len()
    &&& forall|k: int| 0 <= k < first.len() ==> same_number(#[trigger] first[k], second[k])
}

/// Two lists of numbers that the same node writes are written alike.
pub proof fn lemma_shown_numbers_agree(first: Seq<Number>, second: Seq<Number>, document: Document)
    requires
        numbers_show(first, document),
        numbers_show(second, document),
    ensures
        same_numbers(first, second),
{
    let elements = document->Array_0;
    assert forall|k: int| 0 <= k < first.len() implies same_number(
        #[trigger] first[k],
        second[k],
    ) by {
        assert(number_shows(first[k], elements[k]));
        assert(number_shows(second[k], elements[k]));
    }
}

/// Whether the numbers are three, each of them well-formed.
pub open spec fn is_vector(numbers: Seq<Number>) -> bool {
    numbers.len() == 3 && forall|k: int| 0 <= k < 3 ==> (#[trigger] numbers[k]).well_formed()
}

/// A number that a node writes stands to zero as the node says.
pub proof fn lemma_shown_number(number: Number, document: Document)
    requires
        number_shows(number, document),
    ensures
        number_class(number) == document_class(document),
        is_number(document) == number.well_formed(),
{
}

/// The numbers of a list without fault are as many as were asked for, and
/// each of them is well-formed.
pub proof fn lemma_shown_numbers(numbers: Seq<Number>, document: Document, size: nat)
    requires
        numbers_fault(document, size) is None,
        numbers_show(numbers, document),
    ensures
        numbers.len() == size,
        forall|k: int| 0 <= k < numbers.len() ==> (#[trigger] numbers[k]).well_formed(),
{
    let elements = document->Array_0;
    assert forall|k: int| 0 <= k < numbers.len() implies (#[trigger] numbers[k]).well_formed() by {
        assert(is_number(elements[k]));
        lemma_shown_number(numbers[k], elements[k]);
    }
}

impl Number {
    /// A number is well-formed if its decimal is a numeral.
    pub open spec fn well_formed(&self) -> bool {
        number_class(*self) is Some
    }

    /// Says how the number stands to zero; nothing for a decimal that is no
    /// numeral.
    pub fn class(&self) -> (r: Option<NumberClass>)
        ensures
            r == number_class(*self),
    {
        match self {
            Number::Decimal(text) => classify(text.as_str()),
            Number::Integer(value) => {
                if *value < 0 {
                    Some(NumberClass::Negative)
                } else if *value == 0 {
                    Some(NumberClass::Zero)
                } else {
                    Some(NumberClass::Positive)
                }
            },
        }
    }

    /// Whether the number is greater than zero.
    pub fn is_positive(&self) -> (r: bool)
        ensures
            r == number_is_positive(*self),
    {
        match self.class() {
            Some(NumberClass::Positive) => true,
            _ => false,
        }
    }

    /// Whether the number is zero or greater.
    pub fn is_not_negative(&self) -> (r: bool)
        ensures
            r == number_is_not_negative(*self),
    {
        match self.class() {
            Some(NumberClass::Positive) => true,
            Some(NumberClass::Zero) => true,
            _ => false,
        }
    }
}

/// Keeps a text that is a numeral.
fn to_decimal(text: String) -> (r: Option<Number>)
    ensures
        match r {
            Some(number) => is_numeral(text@) && number == Number::Decimal(text),
            None => !is_numeral(text@),
        },
{
    match classify(text.as_str()) {
        Some(_) => Some(Number::Decimal(text)),
        None => None,
    }
}

/// Reads a number from a node that holds a real, a whole number or a
/// string; there is none in a node that holds no numeral.
pub fn to_number(node: &Yaml) -> (r: Option<Number>)
    ensures
        match r {
            Some(number) => is_number(yaml_document(*node)) && number_shows(
                number,
                yaml_document(*node),
            ) && number.well_formed(),
            None => !is_number(yaml_document(*node)),
        },
{
    match leaf(node) {
        Leaf::Real(text) => to_decimal(text),
        Leaf::Text(text) => to_decimal(text),
        Leaf::Integer(value) => Some(Number::Integer(value)),
        _ => None,
    }
}

/// Reads a number from a node that holds a real or a whole number; there is
/// none in a node that holds no numeral.
pub fn to_plain_number(node: &Yaml) -> (r: Option<Number>)
    ensures
        match r {
            Some(number) => number_shows(number, yaml_document(*node)) && is_plain_number(
                yaml_document(*node),
            ) && number.well_formed(),
            None => !is_plain_number(yaml_document(*node)),
        },
{
    match leaf(node) {
        Leaf::Real(text) => to_decimal(text),
        Leaf::Integer(value) => Some(Number::Integer(value)),
        _ => None,
    }
}

/// Reads a list of exactly `size` numbers.
pub fn to_numbers(node: &Yaml, size: usize) -> (r: Result<Vec<Number>, ConfigError>)
    ensures
        match r {
            Ok(numbers) => numbers_fault(yaml_document(*node), size as nat) is None
                && numbers_show(numbers@, yaml_document(*node)),
            Err(e) => numbers_fault(yaml_document(*node), size as nat) == Some(e),
        },
{
    let nodes = match items(node) {
        Some(nodes) => nodes,
        None => {
            return Err(ConfigError::Malformed);
        },
    };
    if nodes.len() != size {
        return Err(ConfigError::WrongLength);
    }
    let ghost elements = documents_of(nodes@);
    let mut numbers: Vec<Number> = Vec::new();
    let mut k: usize = 0;
    while k < nodes.len()
        invariant
            k <= nodes.len(),
            numbers.len() == k,
            elements == documents_of(nodes@),
            yaml_document(*node) == Document::Array(elements),
            elements.len() == size,
            forall|j: int| 0 <= j < k ==> is_number(#[trigger] elements[j]),
            forall|j: int| 0 <= j < k ==> number_shows(#[trigger] numbers[j], elements[j]),
        decreases nodes.len() - k,
    {
        match to_number(&nodes[k]) {
            Some(number) => {
                numbers.push(number);
            },
            None => {
                proof {
                    let fault = k as int;
                    assert(0 <= fault < elements.len() && !is_number(elements[fault]));
                    assert(yaml_document(*node) == Document::Array(elements));
                }
                return Err(ConfigError::UnknownType);
            },
        }
        k += 1;
    }
    Ok(numbers)
}

/// Reads a vector of three numbers.
pub fn to_vec3(node: &Yaml) -> (r: Result<Vec<Number>, ConfigError>)
    ensures
        match r {
            Ok(numbers) => numbers_fault(yaml_document(*node), 3) is None && numbers_show(
                numbers@,
                yaml_document(*node),
            ) && is_vector(numbers@),
            Err(e) => numbers_fault(yaml_document(*node), 3) == Some(e),
        },
{
    match to_numbers(node, 3) {
        Ok(numbers) => {
            proof {
                lemma_shown_numbers(numbers@, yaml_document(*node), 3);
            }
            Ok(numbers)
        },
        Err(e) => Err(e),
    }
}

/// The first fault among the first `upto` atoms of a list.
pub open spec fn atoms_fault_before(elements: Seq<Document>, upto: nat) -> Option<ConfigError>
    decreases upto,
{
    if upto == 0 {
        None
    } else {
        let earlier = atoms_fault_before(elements, (upto - 1) as nat);
        if earlier is Some {
            earlier
        } else {
            atom_fault(elements[upto - 1])
        }
    }
}

/// What keeps a node from being a list of atoms, if anything does: it is no
/// list, or one of its elements does not describe an atom. The first such
/// element decides.
pub open spec fn atoms_fault(document: Document) -> Option<ConfigError> {
    match document {
        Document::Array(elements) => atoms_fault_before(elements, elements.len()),
        _ => Some(ConfigError::Malformed),
    }
}

/// The atoms are those that the elements of the list describe, one by one,
/// and each has its place in the list as its id.
pub open spec fn atoms_show(atoms: Seq<Atom>, document: Document) -> bool {
    match document {
        Document::Array(elements) => {
            &&& atoms.len() == elements.len()
            &&& forall|k: int|
                0 <= k < atoms.len() ==> atom_shows(#[trigger] atoms[k], elements[k]) && atoms[k].id
                    == k
        },
        _ => false,
    }
}

/// The atoms are well-formed, and each has its place in the list as its id.
pub open spec fn atoms_are_numbered(atoms: Seq<Atom>) -> bool {
    forall|k: int| 0 <= k < atoms.len() ==> (#[trigger] atoms[k]).well_formed() && atoms[k].id == k
}

/// A fault among the first atoms of a list is a fault of the list.
proof fn lemma_atoms_fault_stays(elements: Seq<Document>, upto: nat, end: nat)
    requires
        upto <= end,
        atoms_fault_before(elements, upto) is Some,
    ensures
        atoms_fault_before(elements, end) == atoms_fault_before(elements, upto),
    decreases end,
{
    if upto < end {
        lemma_atoms_fault_stays(elements, upto, (end - 1) as nat);
    }
}

/// Reads the atoms of the unit cell, and numbers them in the order in which
/// the document lists them.
pub fn load_atoms(yaml: &Yaml) -> (r: Result<Vec<Atom>, ConfigError>)
    ensures
        match r {
            Ok(atoms) => atoms_fault(yaml_document(*yaml)) is None && atoms_show(
                atoms@,
                yaml_document(*yaml),
            ) && atoms_are_numbered(atoms@),
            Err(e) => atoms_fault(yaml_document(*yaml)) == Some(e),
        },
{
    let nodes = match items(yaml) {
        Some(nodes) => nodes,
        None => {
            return Err(ConfigError::Malformed);
        },
    };
    let ghost elements = documents_of(nodes@);
    let mut atoms: Vec<Atom> = Vec::new();
    let mut k: usize = 0;
    while k < nodes.len()
        invariant
            k <= nodes.len(),
            atoms.len() == k,
            elements == documents_of(nodes@),
            yaml_document(*yaml) == Document::Array(elements),
            atoms_fault_before(elements, k as nat) is None,
            forall|j: int|
                0 <= j < k ==> atom_shows(#[trigger] atoms[j], elements[j]) && atoms[j].id == j
                    && atoms[j].well_formed(),
        decreases nodes.len() - k,
    {
        match Atom::from(&nodes[k]) {
            Ok(mut atom) => {
                atom.id = k as u64;
                atoms.push(atom);
            },
            Err(e) => {
                proof {
                    assert(atoms_fault_before(elements, (k + 1) as nat) == Some(e));
                    lemma_atoms_fault_stays(elements, (k + 1) as nat, elements.len());
                }
                return Err(e);
            },
        }
        k += 1;
    }
    Ok(atoms)
}

} // verus!
